use vcu_server::login_state::{
    attach_extension_tabs_as_browser_tabs, clear_frontmost_user_browser_override, frontmost_browser_from_app_name,
    frontmost_user_browser_name, merge_extension_tabs_into_scene, set_frontmost_user_browser_override,
    snapshot_has_png, FrontmostOverride, LensListing, SceneHead,
};

fn listing(id: &str, url: &str, title: Option<&str>, active: bool, browser: &str) -> LensListing {
    LensListing {
        browser: Some(browser.into()),
        url: Some(url.into()),
        tab_id: Some(id.into()),
        title: title.map(|t| t.to_string()),
        active,
    }
}

#[test]
fn merge_extension_tabs_fills_empty_ax_chrome_scene() {
    let tabs = vec![
        listing("1", "https://chrome.example/", Some("c"), true, "chrome"),
        listing("2", "https://edge.example/", Some("e"), true, "edge"),
    ];
    let browsers = vec![Some("chrome".to_string()), Some("edge".to_string())];
    let head = SceneHead { tabs_empty: true, tabs_source_set: false, page_url: None, tab_id: None, page_title: None };
    let m = merge_extension_tabs_into_scene(&head, "proc:Chrome:9", &tabs, &browsers).unwrap();
    let list = m.tabs.unwrap();
    assert_eq!(list.len(), 1);
    assert_eq!(tabs[list[0]].tab_id.as_deref(), Some("1"));
    assert_eq!(m.tabs_source, Some("extension_tabs"));
    assert_eq!(m.page_url_from, Some(0));
    assert_eq!(tabs[0].url.as_deref(), Some("https://chrome.example/"));
    assert_eq!(m.tab_id_from, Some(0));
    assert_eq!(m.page_title_from, Some(0));
    assert!(snapshot_has_png(Some("/tmp/a.png"), None));
    assert!(!snapshot_has_png(None, None));
    assert!(snapshot_has_png(None, Some(&[Some("/tmp/x.png".to_string())])));
    assert!(!snapshot_has_png(Some(""), Some(&[Some("/tmp/x.txt".to_string()), None])));
}

#[test]
fn merge_extension_tabs_does_not_overwrite_ax_or_cross_browser() {
    let tabs = vec![LensListing {
        browser: Some("chrome".into()),
        url: Some("https://chrome.example/".into()),
        tab_id: Some("1".into()),
        title: None,
        active: true,
    }];
    let browsers = vec![Some("chrome".to_string())];
    let empty = SceneHead { tabs_empty: true, tabs_source_set: false, page_url: None, tab_id: None, page_title: None };
    assert!(merge_extension_tabs_into_scene(&empty, "proc:Microsoft_Edge:10", &tabs, &browsers).is_none());
    let kept = SceneHead {
        tabs_empty: false,
        tabs_source_set: false,
        page_url: Some("https://from-ax.example/".into()),
        tab_id: None,
        page_title: None,
    };
    let m = merge_extension_tabs_into_scene(&kept, "proc:Chrome:1", &tabs, &browsers).unwrap();
    assert!(m.tabs.is_none());
    assert_eq!(m.tabs_source, Some("ax_scene"));
    assert!(m.page_url_from.is_none());
    assert!(m.page_title_from.is_none());
}

#[test]
fn attach_browser_tabs_does_not_replace_ax_targets() {
    let tabs = vec![listing("42", "https://edge.example/", Some("e"), true, "edge")];
    let browsers = vec![Some("edge".to_string())];
    let m = attach_extension_tabs_as_browser_tabs(None, None, "proc:Microsoft_Edge:10", &tabs, &browsers).unwrap();
    assert_eq!(m.tabs.as_deref(), Some(&[0usize][..]));
    assert_eq!(m.tabs_source, Some("extension_tabs"));
    assert_eq!(tabs[m.page_url_from.unwrap()].url.as_deref(), Some("https://edge.example/"));
    assert_eq!(tabs[m.tab_id_from.unwrap()].tab_id.as_deref(), Some("42"));
    assert!(attach_extension_tabs_as_browser_tabs(None, None, "proc:Finder:1", &tabs, &browsers).is_none());
}

#[test]
fn unlabelled_lens_tabs_count_only_when_one_browser_polls() {
    let tabs = vec![LensListing { browser: None, url: Some("http://a/".into()), tab_id: None, title: None, active: false }];
    let head = SceneHead { tabs_empty: true, tabs_source_set: true, page_url: Some(String::new()), tab_id: None, page_title: None };
    let m = merge_extension_tabs_into_scene(&head, "proc:Chrome:1", &tabs, &[Some("chrome".into())]).unwrap();
    assert_eq!(m.page_url_from, Some(0));
    assert!(m.tab_id_from.is_none());
    assert!(merge_extension_tabs_into_scene(&head, "proc:Chrome:1", &tabs, &[]).is_none());
}

#[test]
fn frontmost_override_pins_and_clears() {
    let mut slot = FrontmostOverride::new();
    assert_eq!(frontmost_user_browser_name(&slot, Some("Microsoft Edge Beta")).as_deref(), Some("Microsoft Edge"));
    assert_eq!(frontmost_user_browser_name(&slot, Some("Google Chrome")).as_deref(), Some("Chrome"));
    assert_eq!(frontmost_user_browser_name(&slot, Some("Finder")), None);
    set_frontmost_user_browser_override(&mut slot, Some("Chrome"));
    assert_eq!(frontmost_user_browser_name(&slot, Some("Microsoft Edge")).as_deref(), Some("Chrome"));
    set_frontmost_user_browser_override(&mut slot, None);
    assert_eq!(frontmost_user_browser_name(&slot, Some("Microsoft Edge")), None);
    clear_frontmost_user_browser_override(&mut slot);
    assert_eq!(frontmost_user_browser_name(&slot, Some("Microsoft Edge")).as_deref(), Some("Microsoft Edge"));
    assert_eq!(frontmost_browser_from_app_name("   "), None);
}

#[test]
fn merge_url_is_first_active_tab_only_when_it_is_a_web_tab() {
    let tabs = vec![
        listing("1", "chrome://newtab/", Some("New Tab"), true, "chrome"),
        listing("2", "https://a.example/", Some("a"), false, "chrome"),
        listing("3", "https://b.example/", Some("b"), true, "chrome"),
    ];
    let browsers = vec![Some("chrome".to_string())];
    let head = SceneHead { tabs_empty: true, tabs_source_set: false, page_url: None, tab_id: None, page_title: None };
    let m = merge_extension_tabs_into_scene(&head, "proc:Chrome:9", &tabs, &browsers).unwrap();
    assert_eq!(tabs[m.page_url_from.unwrap()].url.as_deref(), Some("https://a.example/"));
    assert_eq!(m.tab_id_from, Some(2));
    assert_eq!(m.page_title_from, Some(2));
    let web_active = vec![
        listing("2", "https://a.example/", Some("a"), false, "chrome"),
        listing("3", "https://b.example/", Some("b"), true, "chrome"),
    ];
    let m = merge_extension_tabs_into_scene(&head, "proc:Chrome:9", &web_active, &browsers).unwrap();
    assert_eq!(m.page_url_from, Some(1));
}
