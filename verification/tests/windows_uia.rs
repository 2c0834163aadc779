use vcu_server::app::png_ihdr_size;
use vcu_server::app::windows::{
    invoke_from_uia_output, parse_uia_capture_output, parse_uia_element_lines, pid_from_win_id,
    scroll_from_uia_output, set_value_from_uia_output, snapshot_from_uia, uia_capture_script, uia_invoke_script,
    uia_scroll_script, uia_set_value_script, uia_set_value_script_for, uia_tree_script, windows_console_app,
};

#[test]
fn parse_uia_tree_and_scripts_are_pattern_not_hid() {
    let els = parse_uia_element_lines(
        "e1|ControlType.Window|Notepad|10,10,800,600\ne2|ControlType.Button|Save|20,40,80,24\nMISSING\ne3|ControlType.Pane||10,40,780,540|Edit|VCU-D-190\ne4|ControlType.Edit||1,2,3,4|WindowsForms10.EDIT.app.0.1|\n",
    );
    assert_eq!(els.len(), 4);
    assert!(els[3].role.contains("WindowsForms10.EDIT"));
    assert_eq!(els[0].ref_id, "e1");
    assert_eq!(els[1].name, "Save");
    // The frame stays text here; the host reads its four numbers.
    assert_eq!(els[1].frame, "20,40,80,24");
    assert_eq!(els[2].role, "ControlType.Pane/Edit");
    assert_eq!(els[2].value.as_deref(), Some("VCU-D-190"));
    let tree = uia_tree_script(4242, 80);
    assert!(tree.contains("UIAutomationClient"));
    assert!(tree.contains("FromHandle"));
    assert!(tree.contains("ClassName"));
    assert!(tree.contains("AttachConsole"));
    assert!(tree.contains("VcuHwndResolve"));
    assert!(tree.contains("AutomationId"));
    assert!(tree.contains("LegacyIAccessiblePattern"));
    assert!(tree.contains("ValuePattern"));
    assert!(tree.contains("roleId -eq 44"));
    assert!(tree.contains("toggle-on"));
    assert!(tree.contains("GetWindowText"));
    assert!(!tree.to_ascii_lowercase().contains("sendinput"));
    let inv = uia_invoke_script(4242, "e2");
    assert!(inv.contains("InvokePattern"));
    assert!(inv.contains("ok:uia_invoke"));
    assert!(inv.contains("SelectionItemPattern"));
    assert!(inv.contains("ok:selection_item"));
    assert!(inv.contains("ExpandCollapsePattern"));
    assert!(inv.contains("TogglePattern"));
    assert!(inv.contains("ok:toggle"));
    assert!(inv.contains("TreeScope]::Children"));
    assert!(inv.contains("ok:expand_collapse"));
    assert!(!inv.to_ascii_lowercase().contains("sendinput"));
    assert!(!inv.to_ascii_lowercase().contains("mouse_event"));
    assert_eq!(pid_from_win_id("win:notepad:4242"), Some(4242));
    let snap = snapshot_from_uia(
        "win:notepad:4242",
        "notepad",
        Some(4242),
        "e1|ControlType.Window|Notepad|0,0,800,600\ne2|ControlType.Edit||10,40,780,540\n",
        80,
    );
    assert_eq!(snap.elements.len(), 2);
    assert!(snap.summary.contains("note=uia_tree"));
    assert_eq!(snap.target.pid, Some(4242));
    let ok = invoke_from_uia_output("notepad", "e2", "ok:uia_invoke").unwrap();
    assert_eq!(ok.input_path, "uia_invoke");
    assert!(!ok.os_cursor_used);
    let sel = invoke_from_uia_output("form", "e2", "ok:selection_item").unwrap();
    assert_eq!(sel.input_path, "selection_item");
    let exp = invoke_from_uia_output("form", "e2", "ok:expand_collapse").unwrap();
    assert_eq!(exp.input_path, "expand_collapse");
    assert!(!exp.os_cursor_used);
    assert!(!sel.os_cursor_used);
    let bm = invoke_from_uia_output("form", "e2", "ok:bm_click").unwrap();
    assert_eq!(bm.input_path, "bm_click");
    assert!(!bm.os_cursor_used);
    assert!(invoke_from_uia_output("notepad", "e2", "not-found").is_err());
    assert!(inv.contains("ok:bm_click") || inv.contains("0x00F5"));
    let typed = set_value_from_uia_output("notepad", "e2", "ok:uia_set_value").unwrap();
    assert_eq!(typed.input_path, "uia_set_value");
    let paste = set_value_from_uia_output("cmd", "e1", "ok:clipboard_paste").unwrap();
    assert_eq!(paste.input_path, "clipboard_paste");
    assert!(!paste.os_cursor_used);
    let wm = set_value_from_uia_output("notepad", "e2", "ok:wm_settext").unwrap();
    assert_eq!(wm.input_path, "wm_settext");
    assert!(!wm.os_cursor_used);
    let setv = uia_set_value_script(4242, "e2", "hello");
    assert!(setv.contains("ok:wm_settext"));
    assert!(setv.contains("ok:clipboard_paste"));
    assert!(setv.contains("Set-Clipboard"));
    assert!(setv.contains("SendMessage"));
    assert!(setv.contains("VcuHwndResolve"));
    assert!(!setv.to_ascii_lowercase().contains("sendinput("));
    let cmdv = uia_set_value_script_for(4242, "e1", "echo-not-run", true);
    assert!(cmdv.contains("ok:uia_set_value"));
    assert!(cmdv.contains("ok:wm_settext"));
    assert!(cmdv.contains("ok:clipboard_paste"));
    assert!(cmdv.contains("Set-Clipboard"));
    assert!(cmdv.contains("0x0302"));
    assert!(cmdv.contains("AttachConsole"));
    assert!(cmdv.contains("ConsoleWindowClass"));
    assert!(cmdv.contains("$allowPaste = 1"));
    let value_at = cmdv.find("ok:uia_set_value").unwrap();
    let wm_at = cmdv.find("ok:wm_settext").unwrap();
    let paste_at = cmdv.find("ok:clipboard_paste").unwrap();
    assert!(value_at < paste_at && wm_at < paste_at);
    assert!(cmdv.find("Test-VcuConsoleClass").unwrap() < paste_at);
    assert!(!cmdv.to_ascii_lowercase().contains("sendinput("));
    let gui = uia_set_value_script_for(14124, "e2", "vcu-own-009", true);
    assert!(gui.contains("$allowPaste = 1"));
    assert!(gui.contains("windowsforms10.edit"));
    assert!(gui.contains("SendMessageGetText"));
    assert!(gui.contains("error:value-not-set"));
    assert!(gui.find("ok:uia_set_value").unwrap() < gui.find("ok:clipboard_paste").unwrap());
    let plain = uia_set_value_script(4242, "e2", "hello-plain");
    assert!(plain.contains("$allowPaste = 0"));
    assert!(plain.contains("error:value-not-set"));
    assert!(windows_console_app("powershell"));
    assert!(windows_console_app("pwsh"));
    assert!(!windows_console_app("notepad"));
    assert!(set_value_from_uia_output("notepad", "e2", "error:no-value-pattern").is_err());
    let scr = uia_scroll_script(4242, "e1", 600);
    assert!(scr.contains("ScrollPattern"));
    assert!(scr.contains("0x0115"));
    assert!(scr.contains("0x018E"));
    assert!(scr.contains("LISTBOX"));
    assert!(scr.contains("ok:uia_scroll"));
    assert!(scr.contains("ok:wm_vscroll"));
    assert!(!scr.to_ascii_lowercase().contains("sendinput("));
    assert!(!scr.to_ascii_lowercase().contains("mouse_event"));
    let ok_s = scroll_from_uia_output("notepad", "ok:uia_scroll").unwrap();
    assert_eq!(ok_s.input_path, "uia_scroll");
    let ok_w = scroll_from_uia_output("notepad", "ok:wm_vscroll").unwrap();
    assert_eq!(ok_w.input_path, "wm_vscroll");
    assert!(!ok_w.os_cursor_used);
    let cap_script = uia_capture_script(4242);
    assert!(cap_script.contains("PrintWindow"));
    assert!(cap_script.contains("GetWindowRect"));
    assert!(cap_script.contains("CopyFromScreen"));
    assert!(cap_script.contains("$blank"));
    assert!(!cap_script.to_ascii_lowercase().contains("sendinput"));
    assert!(!cap_script.to_ascii_lowercase().contains("mouse_event"));
    let b64 = "iVBORw0KGgoAAAANSUhEUgAAAAEAAAABCAYAAAAfFcSJAAAADUlEQVR42mP8z8BQDwAEhQGAhKmMIQAAAABJRU5ErkJggg==";
    let parsed = parse_uia_capture_output(&format!("FRAME|10,20,800,600\n{b64}\n")).expect("parse capture");
    let frame: Vec<f64> = parsed.1.iter().map(|s| s.parse().unwrap()).collect();
    assert_eq!(frame, vec![10.0, 20.0, 800.0, 600.0]);
    assert_eq!(png_ihdr_size(&parsed.0), Some((1, 1)));
}

#[test]
fn uia_snapshot_title_summary_and_budget() {
    let raw = "e1|ControlType.Window|Notepad|0,0,800,600\ne2|ControlType.Edit||10,40,780,540\n";
    let snap = snapshot_from_uia("win:notepad:7", "notepad", Some(7), raw, 0);
    assert_eq!(snap.target.title, "Notepad");
    assert_eq!(snap.summary, "process=\"notepad\" elements=2 note=uia_tree");
    assert!(snap.truncated && snap.target.allowed);
    let tiny = snapshot_from_uia("win:notepad:7", "notepad", Some(7), raw, 5);
    assert!(tiny.elements.is_empty());
    assert_eq!(tiny.target.title, "notepad");
    assert!(tiny.summary.starts_with("process=\"notepad\" elements=0 note=uia_tree raw=e1|ControlType.Window"));
    let long: String = "x".repeat(300);
    let s = snapshot_from_uia("w", "n", None, &format!("|{long}"), 0);
    assert_eq!(s.summary.chars().count(), "process=\"n\" elements=0 note=uia_tree raw=".len() + 160);
}

#[test]
fn uia_capture_rejects_bad_replies() {
    let b64 = "iVBORw0KGgoAAAANSUhEUgAAAAEAAAABCAYAAAAfFcSJAAAADUlEQVR42mP8z8BQDwAEhQGAhKmMIQAAAABJRU5ErkJggg==";
    assert!(parse_uia_capture_output("FRAME|1,2,3,4").is_none());
    assert!(parse_uia_capture_output(&format!("WINDOW|1,2,3,4\n{b64}")).is_none());
    assert!(parse_uia_capture_output("FRAME|1,2,3,4\nAAAA").is_none());
    let p = parse_uia_capture_output(&format!("\n  FRAME| 1 , 2,3 ,4 \n\n {b64} \n")).unwrap();
    assert_eq!(p.1, vec!["1", "2", "3", "4"]);
    let e = set_value_from_uia_output("n", "e1", "error:x").unwrap_err();
    assert_eq!(e.message(), "uia set_value failed");
    assert_eq!(e.detail.as_deref(), Some("error:x"));
}
