//! Stage presenter text: the banner, and the overlay scripts the presenter runs (a
//! WinForms HUD on Windows, a JXA fallback on macOS). The overlay never moves the OS
//! cursor; Escape writes the abort file.
use vstd::prelude::*;

use crate::error::{ErrorCode, VcuError};
use crate::text::{chars_of, cut, cut_vec, lemma_cut_rest_shorter, owned, string_of};

verus! {

pub const BANNER: &'static str = "VCU 正在使用这台 Mac    按 Escape 取消";
pub const BANNER_WINDOWS: &'static str = "VCU 正在使用这台 PC    按 Escape 取消";

/// WinForms HUD + Guide. No SendInput / cursor warp. Escape writes the abort file.
pub const STAGE_WINPS: &'static str = r#"
Add-Type -TypeDefinition @"
using System;
using System.Runtime.InteropServices;
public static class VcuDpiBoot {
  [DllImport("shcore.dll")] public static extern int SetProcessDpiAwareness(int awareness);
  [DllImport("user32.dll")] public static extern bool SetProcessDPIAware();
  [DllImport("user32.dll")] public static extern bool SetProcessDpiAwarenessContext(IntPtr value);
  [DllImport("user32.dll")] public static extern uint GetDpiForSystem();
}
"@
$script:DpiAware = $false
try { $script:DpiAware = [VcuDpiBoot]::SetProcessDpiAwarenessContext([IntPtr](-4)) } catch {}
if (-not $script:DpiAware) {
  try { if ([VcuDpiBoot]::SetProcessDpiAwareness(2) -eq 0) { $script:DpiAware = $true } } catch {}
}
if (-not $script:DpiAware) { try { $script:DpiAware = [VcuDpiBoot]::SetProcessDPIAware() } catch {} }
$script:Dpi = 96
try { $script:Dpi = [int][VcuDpiBoot]::GetDpiForSystem() } catch {}
if ($script:Dpi -lt 96) { $script:Dpi = 96 }
$script:DpiScale = $script:Dpi / 96.0
Add-Type -AssemblyName System.Windows.Forms | Out-Null
Add-Type -AssemblyName System.Drawing | Out-Null
Add-Type -TypeDefinition @"
using System;
using System.Drawing;
using System.Drawing.Imaging;
using System.Runtime.InteropServices;
public static class VcuStageWin {
  [StructLayout(LayoutKind.Sequential)] public struct POINT { public int x; public int y; }
  [StructLayout(LayoutKind.Sequential)] public struct SIZE { public int cx; public int cy; }
  [StructLayout(LayoutKind.Sequential, Pack=1)]
  public struct BLENDFUNCTION { public byte BlendOp; public byte BlendFlags; public byte SourceConstantAlpha; public byte AlphaFormat; }
  [StructLayout(LayoutKind.Sequential)] public struct BITMAPINFOHEADER {
    public int biSize; public int biWidth; public int biHeight; public short biPlanes; public short biBitCount;
    public int biCompression; public int biSizeImage; public int biXPelsPerMeter; public int biYPelsPerMeter;
    public int biClrUsed; public int biClrImportant;
  }
  [StructLayout(LayoutKind.Sequential)] public struct BITMAPINFO { public BITMAPINFOHEADER bmiHeader; }
  [DllImport("user32.dll", SetLastError=true)] public static extern bool UpdateLayeredWindow(IntPtr hwnd, IntPtr hdcDst, ref POINT pptDst, ref SIZE psize, IntPtr hdcSrc, ref POINT pptSrc, int crKey, ref BLENDFUNCTION pblend, int dwFlags);
  [DllImport("user32.dll")] public static extern IntPtr GetDC(IntPtr hwnd);
  [DllImport("user32.dll")] public static extern int ReleaseDC(IntPtr hwnd, IntPtr hdc);
  [DllImport("gdi32.dll")] public static extern IntPtr CreateCompatibleDC(IntPtr hdc);
  [DllImport("gdi32.dll")] public static extern bool DeleteDC(IntPtr hdc);
  [DllImport("gdi32.dll")] public static extern IntPtr SelectObject(IntPtr hdc, IntPtr obj);
  [DllImport("gdi32.dll")] public static extern bool DeleteObject(IntPtr obj);
  [DllImport("user32.dll")] public static extern int GetWindowLong(IntPtr hWnd, int nIndex);
  [DllImport("user32.dll")] public static extern int SetWindowLong(IntPtr hWnd, int nIndex, int dwNewLong);
  [DllImport("gdi32.dll")] public static extern IntPtr CreateDIBSection(IntPtr hdc, ref BITMAPINFO bmi, uint usage, out IntPtr bits, IntPtr section, uint offset);
  public static bool ShowBitmap(IntPtr hwnd, Bitmap bitmap, int x, int y, bool clickThrough) {
    int ex = GetWindowLong(hwnd, -20);
    int style = ex | 0x80000 | 0x08000000;
    if (clickThrough) style |= 0x20;
    SetWindowLong(hwnd, -20, style);
    IntPtr screenDc = GetDC(IntPtr.Zero);
    IntPtr memDc = CreateCompatibleDC(screenDc);
    BITMAPINFO bmi = new BITMAPINFO();
    bmi.bmiHeader.biSize = 40;
    bmi.bmiHeader.biWidth = bitmap.Width;
    bmi.bmiHeader.biHeight = -bitmap.Height;
    bmi.bmiHeader.biPlanes = 1;
    bmi.bmiHeader.biBitCount = 32;
    IntPtr bits;
    IntPtr dib = CreateDIBSection(screenDc, ref bmi, 0, out bits, IntPtr.Zero, 0);
    BitmapData data = bitmap.LockBits(new Rectangle(0, 0, bitmap.Width, bitmap.Height), ImageLockMode.ReadOnly, PixelFormat.Format32bppArgb);
    int bytes = Math.Abs(data.Stride) * bitmap.Height;
    byte[] raw = new byte[bytes];
    Marshal.Copy(data.Scan0, raw, 0, bytes);
    bitmap.UnlockBits(data);
    for (int i = 0; i < raw.Length; i += 4) {
      byte a = raw[i + 3];
      raw[i] = (byte)(raw[i] * a / 255);
      raw[i + 1] = (byte)(raw[i + 1] * a / 255);
      raw[i + 2] = (byte)(raw[i + 2] * a / 255);
    }
    Marshal.Copy(raw, 0, bits, raw.Length);
    IntPtr old = SelectObject(memDc, dib);
    SIZE size = new SIZE(); size.cx = bitmap.Width; size.cy = bitmap.Height;
    POINT dst = new POINT(); dst.x = x; dst.y = y;
    POINT src = new POINT();
    BLENDFUNCTION blend = new BLENDFUNCTION();
    blend.BlendOp = 0; blend.SourceConstantAlpha = 255; blend.AlphaFormat = 1;
    bool ok = UpdateLayeredWindow(hwnd, screenDc, ref dst, ref size, memDc, ref src, 0, ref blend, 2);
    SelectObject(memDc, old);
    DeleteObject(dib);
    DeleteDC(memDc);
    ReleaseDC(IntPtr.Zero, screenDc);
    return ok;
  }
}
"@ -ReferencedAssemblies System.Drawing -Language CSharp

$script:HudW = 280
$script:HudH = 28
$script:GuideW = 84
$script:GuideH = 84
$script:HotX = 32
$script:HotY = 34
$script:HudW = [int][Math]::Round(280 * $script:DpiScale)
$script:HudH = [int][Math]::Round(28 * $script:DpiScale)
$script:GuideW = [int][Math]::Round(84 * $script:DpiScale)
$script:GuideH = $script:GuideW
$script:HotX = [int][Math]::Round(32 * $script:DpiScale)
$script:HotY = [int][Math]::Round(34 * $script:DpiScale)

function New-HudBitmap {
  $bmp = New-Object System.Drawing.Bitmap $script:HudW, $script:HudH, ([System.Drawing.Imaging.PixelFormat]::Format32bppArgb)
  $g = [System.Drawing.Graphics]::FromImage($bmp)
  $g.SmoothingMode = [System.Drawing.Drawing2D.SmoothingMode]::AntiAlias
  $g.TextRenderingHint = [System.Drawing.Text.TextRenderingHint]::AntiAliasGridFit
  $g.Clear([System.Drawing.Color]::Transparent)
  $path = New-Object System.Drawing.Drawing2D.GraphicsPath
  $d = $script:HudH
  $path.AddArc(0, 0, $d, $d, 180, 90)
  $path.AddArc(($script:HudW - $d), 0, $d, $d, 270, 90)
  $path.AddArc(($script:HudW - $d), 0, $d, $d, 0, 90)
  $path.AddArc(0, 0, $d, $d, 90, 90)
  $path.CloseFigure()
  $fill = New-Object System.Drawing.SolidBrush ([System.Drawing.Color]::FromArgb(245, 18, 46, 107))
  $g.FillPath($fill, $path)
  $pen = New-Object System.Drawing.Pen ([System.Drawing.Color]::FromArgb(115, 255, 255, 255)), 1
  $g.DrawPath($pen, $path)
  $fontPx = [single](12 * $script:DpiScale)
  $font = New-Object System.Drawing.Font "Segoe UI", $fontPx, ([System.Drawing.FontStyle]::Regular), ([System.Drawing.GraphicsUnit]::Pixel)
  $textY = [single](($script:HudH - $fontPx) / 2)
  $pad = 12 * $script:DpiScale
  $white = New-Object System.Drawing.SolidBrush ([System.Drawing.Color]::White)
  $dim = New-Object System.Drawing.SolidBrush ([System.Drawing.Color]::FromArgb(210, 255, 255, 255))
  $g.DrawString("VCU 正在使用这台 PC", $font, $white, $pad, $textY)
  $measured = $g.MeasureString("Esc 取消", $font)
  $g.DrawString("Esc 取消", $font, $dim, ($script:HudW - $measured.Width - $pad), $textY)
  $g.Dispose()
  return $bmp
}

function New-GuideBitmap {
  # PARITY-004: Compact dart, no hard ring, no long stem.
  # Hotspot is the arrow tip, matching helpers/vcu-stage GuideView.
  $bmp = New-Object System.Drawing.Bitmap $script:GuideW, $script:GuideH, ([System.Drawing.Imaging.PixelFormat]::Format32bppArgb)
  $g = [System.Drawing.Graphics]::FromImage($bmp)
  $g.SmoothingMode = [System.Drawing.Drawing2D.SmoothingMode]::AntiAlias
  $g.Clear([System.Drawing.Color]::Transparent)
  $tipX = $script:HotX
  $tipY = $script:HotY
  $fogCenterX = $tipX + 6
  $fogCenterY = $tipY + 6
  # Soft fog, endRadius 36, no hard ring.
  $fogMax = [int][Math]::Round(36 * $script:DpiScale)
  for ($r = $fogMax; $r -ge 2; $r -= 2) {
    $alpha = [int](6 + (36 - ($r / $script:DpiScale)) * 2.4)
    if ($alpha -gt 96) { $alpha = 96 }
    $haze = New-Object System.Drawing.SolidBrush ([System.Drawing.Color]::FromArgb($alpha, 168, 182, 196))
    $g.FillEllipse($haze, ($fogCenterX - $r), ($fogCenterY - $r), ($r * 2), ($r * 2))
    $haze.Dispose()
  }
  $pts = @(
    (New-Object System.Drawing.Point $tipX, $tipY),
    (New-Object System.Drawing.Point ($tipX + [int](18 * $script:DpiScale)), ($tipY + [int](10 * $script:DpiScale))),
    (New-Object System.Drawing.Point ($tipX + [int](10 * $script:DpiScale)), ($tipY + [int](12 * $script:DpiScale))),
    (New-Object System.Drawing.Point ($tipX + [int](4 * $script:DpiScale)), ($tipY + [int](20 * $script:DpiScale)))
  )
  $fill = New-Object System.Drawing.SolidBrush ([System.Drawing.Color]::FromArgb(245, 90, 96, 104))
  $g.FillPolygon($fill, $pts)
  $edge = New-Object System.Drawing.Pen ([System.Drawing.Color]::FromArgb(235, 255, 255, 255)), 1.5
  $edge.LineJoin = [System.Drawing.Drawing2D.LineJoin]::Round
  $g.DrawPolygon($edge, $pts)
  $g.Dispose()
  return $bmp
}

if ($env:VCU_STAGE_RENDER) {
  $dir = $env:VCU_STAGE_RENDER
  New-Item -ItemType Directory -Force -Path $dir | Out-Null
  $hud = New-HudBitmap
  $guide = New-GuideBitmap
  $hud.Save((Join-Path $dir "hud.png"), [System.Drawing.Imaging.ImageFormat]::Png)
  $guide.Save((Join-Path $dir "guide.png"), [System.Drawing.Imaging.ImageFormat]::Png)
  "RENDER_OK $($script:HudW)x$($script:HudH) guide=$($script:GuideW) hotspot=$($script:HotX),$($script:HotY) fogCenter endRadius: 36" | Set-Content -Encoding utf8 (Join-Path $dir "render.txt")
  exit 0
}

$controlPath = $args[0]
if (-not $controlPath) { exit 1 }
$abortPath = [System.IO.Path]::ChangeExtension($controlPath, "abort")
function Read-Control {
  if (-not (Test-Path -LiteralPath $controlPath)) { return $null }
  try { return (Get-Content -LiteralPath $controlPath -Raw -ErrorAction Stop | ConvertFrom-Json) } catch { return $null }
}
$screen = [System.Windows.Forms.Screen]::PrimaryScreen.WorkingArea
$hudBmp = New-HudBitmap
$guideBmp = New-GuideBitmap
$hudLeft = [int]($screen.Left + ($screen.Width - $script:HudW) / 2)
$hudTop = [int]($screen.Top + 8)
$hud = New-Object System.Windows.Forms.Form
$hud.FormBorderStyle = [System.Windows.Forms.FormBorderStyle]::None
$hud.ShowInTaskbar = $false
$hud.TopMost = $true
$hud.StartPosition = [System.Windows.Forms.FormStartPosition]::Manual
$hud.ClientSize = New-Object System.Drawing.Size $script:HudW, $script:HudH
$hud.Left = $hudLeft
$hud.Top = $hudTop
$hud.KeyPreview = $true
$hud.Add_KeyDown({ if ($_.KeyCode -eq [System.Windows.Forms.Keys]::Escape) { [System.IO.File]::WriteAllText($abortPath, "1") } })
$null = $hud.Handle
[void][VcuStageWin]::ShowBitmap($hud.Handle, $hudBmp, $hudLeft, $hudTop, $false)
$guide = New-Object System.Windows.Forms.Form
$guide.FormBorderStyle = [System.Windows.Forms.FormBorderStyle]::None
$guide.ShowInTaskbar = $false
$guide.TopMost = $true
$guide.StartPosition = [System.Windows.Forms.FormStartPosition]::Manual
$guide.ClientSize = New-Object System.Drawing.Size $script:GuideW, $script:GuideH
$guide.Visible = $false
$timer = New-Object System.Windows.Forms.Timer
$timer.Interval = 80
$timer.Add_Tick({
  $c = Read-Control
  if ($null -eq $c) { return }
  if ($c.stop) { $timer.Stop(); $hud.Close(); return }
  if ($c.PSObject.Properties.Name -contains "hud") {
    if ($c.hud -eq $false) { $hud.Hide() } else {
      if (-not $hud.Visible) { $hud.Show() }
      [void][VcuStageWin]::ShowBitmap($hud.Handle, $hudBmp, $hud.Left, $hud.Top, $false)
    }
  }
  if ($c.guide) {
    $gx = 0; $gy = 0
    try { $gx = [int]$c.guide.x } catch {}
    try { $gy = [int]$c.guide.y } catch {}
    $left = $gx - $script:HotX
    $top = $gy - $script:HotY
    $guide.Left = $left
    $guide.Top = $top
    if ($c.guide.visible -eq $false) { $guide.Hide() } else {
      if (-not $guide.Visible) { $guide.Show() }
      [void][VcuStageWin]::ShowBitmap($guide.Handle, $guideBmp, $left, $top, $true)
    }
  }
})
$hud.Add_Shown({
  [void][VcuStageWin]::ShowBitmap($hud.Handle, $hudBmp, $hud.Left, $hud.Top, $false)
})
$timer.Start()
$hud.Add_FormClosed({ $timer.Stop(); try { $guide.Close() } catch {} })
[System.Windows.Forms.Application]::Run($hud)
"#;

/// JXA capsule HUD + Guide, the fallback when the native helper is missing.
pub const STAGE_JXA: &'static str = r#"
ObjC.import('Cocoa');
ObjC.import('Foundation');

function readControl(path) {
  const str = $.NSString.stringWithContentsOfFileEncodingError(path, $.NSUTF8StringEncoding, null);
  if (!str) return null;
  try { return JSON.parse(ObjC.unwrap(str)); } catch (e) { return null; }
}

function run(argv) {
  const app = $.NSApplication.sharedApplication;
  try { app.setActivationPolicy(1); } catch (e) {}
  const controlPath = (argv && argv.length) ? argv[0] : null;
  const vis = $.NSScreen.mainScreen.visibleFrame;
  const width = 280;
  const height = 28;
  const x = vis.origin.x + (vis.size.width - width) / 2;
  const y = vis.origin.y + vis.size.height - height - 8;
  const win = $.NSWindow.alloc.initWithContentRectStyleMaskBackingDefer(
    $.NSMakeRect(x, y, width, height),
    0,
    2,
    false
  );
  win.level = 25;
  win.opaque = false;
  win.hasShadow = true;
  win.ignoresMouseEvents = false;
  win.collectionBehavior = 337;
  win.backgroundColor = $.NSColor.clearColor;
  try {
    win.contentView.wantsLayer = true;
    win.contentView.layer.cornerRadius = 16;
    win.contentView.layer.backgroundColor = $.NSColor.colorWithCalibratedRedGreenBlueAlpha(0.07, 0.18, 0.42, 0.96).CGColor;
  } catch (e) {
    win.backgroundColor = $.NSColor.colorWithCalibratedRedGreenBlueAlpha(0.07, 0.18, 0.42, 0.96);
  }
  const label = $.NSTextField.alloc.initWithFrame($.NSMakeRect(12, 8, 188, 16));
  label.stringValue = 'VCU 正在使用这台 Mac';
  label.bezeled = false;
  label.drawsBackground = false;
  label.editable = false;
  label.selectable = false;
  label.textColor = $.NSColor.whiteColor;
  try { label.font = $.NSFont.systemFontOfSize(11); } catch (e) {}
  const sub = $.NSTextField.alloc.initWithFrame($.NSMakeRect(200, 8, 88, 16));
  sub.stringValue = 'Esc 取消';
  sub.bezeled = false;
  sub.drawsBackground = false;
  sub.editable = false;
  sub.selectable = false;
  sub.textColor = $.NSColor.colorWithCalibratedWhiteAlpha(0.82, 1);
  try { sub.alignment = 2; } catch (e) {}
  win.contentView.addSubview(label);
  win.contentView.addSubview(sub);
  win.orderFront(null);

  const gsize = 48;
  const guide = $.NSWindow.alloc.initWithContentRectStyleMaskBackingDefer(
    $.NSMakeRect(0, 0, gsize, gsize),
    0,
    2,
    false
  );
  guide.level = 26;
  guide.opaque = false;
  guide.hasShadow = false;
  guide.ignoresMouseEvents = true;
  guide.collectionBehavior = 337;
  guide.backgroundColor = $.NSColor.clearColor;
  try {
    guide.contentView.wantsLayer = true;
    guide.contentView.layer.cornerRadius = gsize / 2;
    guide.contentView.layer.borderWidth = 3;
    guide.contentView.layer.borderColor = $.NSColor.colorWithCalibratedRedGreenBlueAlpha(0.25, 0.55, 1, 0.95).CGColor;
    guide.contentView.layer.backgroundColor = $.NSColor.colorWithCalibratedRedGreenBlueAlpha(1, 0.42, 0.22, 0.35).CGColor;
  } catch (e) {
    guide.backgroundColor = $.NSColor.colorWithCalibratedRedGreenBlueAlpha(1, 0.42, 0.22, 0.9);
  }

  function applyGuide(gx, gy, visible) {
    const cocoaY = vis.origin.y + vis.size.height - gy - (gsize / 2);
    const cocoaX = vis.origin.x + gx - (gsize / 2);
    guide.setFrameOrigin($.NSMakePoint(cocoaX, cocoaY));
    if (visible) { guide.orderFront(null); }
    else { guide.orderOut(null); }
  }

  let abortSent = false;
  function abortPath() {
    if (!controlPath) return null;
    return String(controlPath).replace(/\.json$/i, '.abort');
  }
  function requestAbort() {
    const p = abortPath();
    if (!p || abortSent) return;
    abortSent = true;
    const s = $.NSString.alloc.initWithUTF8String('1');
    s.writeToFileAtomicallyEncodingError(p, true, $.NSUTF8StringEncoding, null);
  }
  try {
    $.NSEvent.addGlobalMonitorForEventsMatchingMaskHandler($.NSEventMaskKeyDown, function(ev) {
      if (ev && ev.keyCode === 53) requestAbort();
    });
  } catch (e) {}
  try {
    $.NSEvent.addLocalMonitorForEventsMatchingMaskHandler($.NSEventMaskKeyDown, function(ev) {
      if (ev && ev.keyCode === 53) requestAbort();
      return ev;
    });
  } catch (e) {}

  while (true) {
    if (controlPath) {
      const c = readControl(controlPath);
      if (c) {
        if (c.stop) break;
        if (c.hud === false) { try { win.orderOut(null); } catch (e) {} }
        else if (c.hud === true) { try { win.orderFront(null); } catch (e) {} }
        if (c.guide) {
          applyGuide(Number(c.guide.x) || 0, Number(c.guide.y) || 0, c.guide.visible !== false);
        }
      }
    }
    $.NSRunLoop.currentRunLoop.runUntilDate($.NSDate.dateWithTimeIntervalSinceNow(0.05));
  }
  try { win.orderOut(null); } catch (e) {}
  try { guide.orderOut(null); } catch (e) {}
}
"#;

/// The banner for the host: the PC text on Windows, the Mac text elsewhere.
pub fn banner_text(on_windows: bool) -> (r: &'static str)
    ensures
        r@ == (if on_windows { BANNER_WINDOWS@ } else { BANNER@ }),
{
    if on_windows {
        BANNER_WINDOWS
    } else {
        BANNER
    }
}

/// The directories named by a `PATH` value, in order: the pieces between `:`, empty
/// pieces skipped.
pub open spec fn path_dirs(s: Seq<char>) -> Seq<Seq<char>>
    decreases s.len(),
{
    let c = cut(s, ':');
    let head: Seq<Seq<char>> = if c.0.len() == 0 { Seq::empty() } else { seq![c.0] };
    match c.1 {
        None => head,
        Some(rest) => if rest.len() < s.len() { head + path_dirs(rest) } else { head },
    }
}

/// The directories searched for the presenter binary, from a `PATH` value.
pub fn stage_search_dirs(path_var: &str) -> (r: Vec<String>)
    ensures
        r@.map_values(|d: String| d@) == path_dirs(path_var@),
{
    let v = chars_of(path_var);
    dirs_of(&v)
}

fn dirs_of(v: &Vec<char>) -> (r: Vec<String>)
    ensures
        r@.map_values(|d: String| d@) == path_dirs(v@),
    decreases v@.len(),
{
    let (head, rest) = cut_vec(v, ':');
    proof {
        lemma_cut_rest_shorter(v@, ':');
    }
    let mut r: Vec<String> = Vec::new();
    if head.len() > 0 {
        r.push(string_of(&head));
    }
    match rest {
        None => {
            assert(r@.map_values(|d: String| d@) =~= path_dirs(v@));
            r
        },
        Some(rest) => {
            let mut tail = dirs_of(&rest);
            r.append(&mut tail);
            assert(r@.map_values(|d: String| d@) =~= path_dirs(v@));
            r
        },
    }
}

/// The presenter's state as sessions see it: whether the banner is visible, whether it
/// is the in-process stand-in (no process, nothing drawn), and which presenter it is
/// (`noop`, `hidden`, `native`, `jxa` or `winforms`).
#[derive(Debug)]
pub struct StageHandle {
    pub shown: bool,
    pub mock: bool,
    pub presenter: &'static str,
}

impl StageHandle {
    /// The stand-in presenter: counts as shown, draws nothing.
    pub fn noop() -> (s: StageHandle)
        ensures
            s.shown && s.mock && s.presenter@ == "noop"@,
    {
        StageHandle { shown: true, mock: true, presenter: "noop" }
    }

    /// A stage that never became visible; it must not start a desktop session.
    pub fn hidden() -> (s: StageHandle)
        ensures
            !s.shown && s.mock && s.presenter@ == "hidden"@,
    {
        StageHandle { shown: false, mock: true, presenter: "hidden" }
    }

    /// A presenter process that came up: the native helper, the JXA fallback or the
    /// WinForms HUD.
    pub fn raised(presenter: &'static str) -> (s: StageHandle)
        ensures
            s.shown && !s.mock && s.presenter == presenter,
    {
        StageHandle { shown: true, mock: false, presenter }
    }

    /// After teardown a real presenter is no longer shown; the stand-in stays as it was.
    pub fn teardown(&mut self)
        ensures
            final(self).shown == (old(self).mock && old(self).shown),
            final(self).mock == old(self).mock,
            final(self).presenter == old(self).presenter,
    {
        if !self.mock {
            self.shown = false;
        }
    }
}

pub const STAGE_NEEDED_TO_START: &'static str = "desktop surface requires a visible Stage banner";
pub const STAGE_NOT_VISIBLE: &'static str = "Stage banner is not visible";

/// A desktop backend starts only on a visible Stage.
pub fn require_visible_stage(stage: &StageHandle) -> (r: Result<(), VcuError>)
    ensures
        r is Ok <==> stage.shown,
        r matches Err(e) ==> e.code == ErrorCode::StageRequired && e.message@ == STAGE_NEEDED_TO_START@,
{
    if stage.shown {
        Ok(())
    } else {
        Err(VcuError::coded(ErrorCode::StageRequired, owned(STAGE_NEEDED_TO_START)))
    }
}

/// A desktop session acts only while its Stage banner is visible.
pub fn require_stage_still_visible(stage: &StageHandle) -> (r: Result<(), VcuError>)
    ensures
        r is Ok <==> stage.shown,
        r matches Err(e) ==> e.code == ErrorCode::StageRequired && e.message@ == STAGE_NOT_VISIBLE@,
{
    if stage.shown {
        Ok(())
    } else {
        Err(VcuError::coded(ErrorCode::StageRequired, owned(STAGE_NOT_VISIBLE)))
    }
}

} // verus!
