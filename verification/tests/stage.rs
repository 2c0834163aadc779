use vcu_server::error::ErrorCode;
use vcu_server::stage::{require_stage_still_visible, require_visible_stage, StageHandle};
use vcu_server::stage::stage_search_dirs;
use vcu_server::stage::{banner_text, BANNER, BANNER_WINDOWS, STAGE_JXA, STAGE_WINPS};

#[test]
fn jxa_fallback_is_capsule_not_full_width() {
    assert!(STAGE_JXA.contains("const width = 280;"));
    assert!(STAGE_JXA.contains("c.hud === false"));
    assert!(STAGE_JXA.contains("Esc 取消"));
    assert!(STAGE_JXA.contains("keyCode === 53"));
    assert!(STAGE_JXA.contains(".abort"));
    assert!(STAGE_JXA.contains("vis.origin"));
    assert!(!STAGE_JXA.contains("NSScreen.screens"));
    assert!(!STAGE_JXA.contains("screen.size.width;"));
    assert!(!STAGE_JXA.contains("screen.origin"));
}

#[test]
fn hud_copy_is_vcu_not_chatgpt_or_codex() {
    assert!(BANNER.contains("VCU 正在使用这台 Mac"));
    assert!(BANNER.contains("Escape") || BANNER.contains("Esc"));
    for banned in ["ChatGPT", "Using your Mac", "Codex is using"] {
        assert!(!BANNER.contains(banned), "{BANNER}");
        assert!(!STAGE_JXA.contains(banned), "jxa");
    }
    assert!(STAGE_JXA.contains("VCU 正在使用这台 Mac"));
    assert!(STAGE_JXA.contains("Esc 取消"));
    assert!(BANNER_WINDOWS.contains("VCU 正在使用这台 PC"));
    assert!(BANNER_WINDOWS.contains("Escape") || BANNER_WINDOWS.contains("Esc"));
    assert!(STAGE_WINPS.contains("VCU 正在使用这台 PC"));
    assert!(STAGE_WINPS.contains("Esc 取消"));
    assert!(STAGE_WINPS.contains("Keys]::Escape"));
    assert!(STAGE_WINPS.contains("abort"));
    assert!(STAGE_WINPS.contains("TopMost"));
    assert!(!STAGE_WINPS.to_ascii_lowercase().contains("sendinput("));
    assert!(!STAGE_WINPS.to_ascii_lowercase().contains("[system.windows.forms.sendkeys"));
    for banned in ["ChatGPT", "Using your Mac", "Codex is using"] {
        assert!(!BANNER_WINDOWS.contains(banned), "{BANNER_WINDOWS}");
        assert!(!STAGE_WINPS.contains(banned), "winps");
    }
}

#[test]
fn windows_stage_matches_macos_capsule_and_dart() {
    assert!(STAGE_WINPS.contains("$script:HudW = 280"));
    assert!(STAGE_WINPS.contains("$script:HudH = 28"));
    assert!(STAGE_WINPS.contains("$script:GuideW = 84"));
    assert!(STAGE_WINPS.contains("$script:HotX = 32"));
    assert!(STAGE_WINPS.contains("$script:HotY = 34"));
    assert!(STAGE_WINPS.contains("Compact dart, no hard ring, no long stem"));
    assert!(STAGE_WINPS.contains("endRadius 36"));
    assert!(STAGE_WINPS.contains("Keys]::Escape"));
    assert!(STAGE_WINPS.contains("TopMost"));
    assert!(STAGE_WINPS.contains("0x20"));
    assert!(STAGE_WINPS.contains("ShowBitmap"));
    assert!(STAGE_WINPS.contains("UpdateLayeredWindow"));
    assert!(STAGE_WINPS.contains("SetProcessDpiAwareness"));
    assert!(STAGE_WINPS.contains("GetDpiForSystem"));
    assert!(STAGE_WINPS.contains("GraphicsUnit]::Pixel"));
    assert!(!STAGE_WINPS.contains("New-PillRegion"));
    assert!(!STAGE_WINPS.contains("FromArgb(255, 107, 56)"));
    assert!(!STAGE_WINPS.to_ascii_lowercase().contains("sendinput("));
    assert!(!STAGE_WINPS.to_ascii_lowercase().contains("[system.windows.forms.sendkeys"));
}

#[test]
fn banner_follows_the_host() {
    assert_eq!(banner_text(true), BANNER_WINDOWS);
    assert_eq!(banner_text(false), BANNER);
}

#[test]
fn stage_search_dirs_skips_empty_pieces() {
    assert_eq!(stage_search_dirs("/usr/bin::/opt/vcu/bin:"), vec!["/usr/bin".to_string(), "/opt/vcu/bin".to_string()]);
    assert!(stage_search_dirs("").is_empty());
    assert_eq!(stage_search_dirs("/a"), vec!["/a".to_string()]);
}

#[test]
fn hidden_stage_is_not_shown() {
    let s = StageHandle::hidden();
    assert!(!s.shown);
    assert_eq!(s.presenter, "hidden");
}

#[test]
fn noop_stage_is_shown_without_process() {
    let mut s = StageHandle::noop();
    assert!(s.shown);
    assert!(s.mock);
    assert_eq!(s.presenter, "noop");
    s.teardown();
    assert!(s.shown);
    assert!(banner_text(false).contains("VCU 正在使用这台"));
    assert!(banner_text(false).contains("Mac") || banner_text(false).contains("PC"));
}

#[test]
fn desktop_rejects_hidden_stage() {
    let err = require_visible_stage(&StageHandle::hidden()).unwrap_err();
    assert_eq!(err.code(), ErrorCode::StageRequired);
    assert!(err.message().contains("Stage banner"));
    assert!(require_visible_stage(&StageHandle::noop()).is_ok());
    let mut live = StageHandle::raised("native");
    assert!(require_stage_still_visible(&live).is_ok());
    live.teardown();
    assert!(!live.shown);
    assert_eq!(require_stage_still_visible(&live).unwrap_err().message(), "Stage banner is not visible");
}
