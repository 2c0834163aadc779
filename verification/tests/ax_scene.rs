use vcu_server::app::macos::parse_ax_snapshot;

#[test]
fn parse_ax_snapshot_keeps_unnamed_fields_and_send() {
    let raw = "WINDOW|10,20,800,600\nbutton|发送|1,2,40,16\ntext field||5,6,200,24\nTRUNCATED\n";
    let p = parse_ax_snapshot(raw);
    // The frame stays text here; the host reads its four numbers.
    assert_eq!(p.window_frame.as_deref(), Some("10,20,800,600"));
    assert_eq!(p.elements.len(), 2);
    assert_eq!(p.elements[0].ref_id, "e1");
    assert_eq!(p.elements[0].name, "发送");
    assert_eq!(p.elements[1].role, "text field");
    assert_eq!(p.elements[1].name, "");
    assert!(p.truncated);
}

#[test]
fn parse_ax_snapshot_page_tabs_webarea() {
    let raw = "WINDOW|0,0,800,600\nAXWebArea|bilibili|10,20,700,500\nTRUNCATED\nPAGE\thome - Microsoft Edge\thttps://www.bilibili.com/video/BV1\nTAB\t1\t大空头 VS 马斯克 - 内存使用率 - 648 MB\nTAB\t0\tGitHub\nWEB\tbilibili\t10,20,700,500\n";
    let p = parse_ax_snapshot(raw);
    assert_eq!(p.elements.len(), 1);
    assert_eq!(p.elements[0].role, "AXWebArea");
    assert_eq!(p.page_title.as_deref(), Some("home - Microsoft Edge"));
    assert_eq!(p.page_url.as_deref(), Some("https://www.bilibili.com/video/BV1"));
    assert_eq!(p.tabs.len(), 2);
    assert!(p.tabs[0].selected);
    assert_eq!(p.tabs[0].name, "大空头 VS 马斯克");
    assert_eq!(p.tabs[1].name, "GitHub");
    assert!(p.web_area);
    assert!(p.truncated);
}

#[test]
fn ax_snapshot_values_and_skips() {
    let p = parse_ax_snapshot("  \n|\ncheckbox|Wi-Fi|1,1,2,2|missing value\nfield|Name|0,0,9,9|Ada | Lovelace\nPAGE|T|missing value\n");
    assert_eq!(p.elements.len(), 2);
    assert_eq!(p.elements[0].value, None);
    assert_eq!(p.elements[1].ref_id, "e2");
    assert_eq!(p.elements[1].value.as_deref(), Some("Ada | Lovelace"));
    assert_eq!(p.page_title.as_deref(), Some("T"));
    assert_eq!(p.page_url, None);
    assert!(!p.truncated && !p.web_area && p.window_frame.is_none());
}
