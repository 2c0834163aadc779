use vcu_server::lens::{lens_keeps_file, manifest_version, pick_newest};

#[test]
fn lens_skips_hidden_and_backups() {
    assert!(lens_keeps_file("background.js"));
    assert!(!lens_keeps_file("x.bak"));
    assert!(!lens_keeps_file(".DS_Store"));
    assert!(lens_keeps_file("bak"));
}

#[test]
fn lens_manifest_versions() {
    assert_eq!(manifest_version("1.4.2"), Some((1, 4, 2)));
    assert_eq!(manifest_version("3"), Some((3, 0, 0)));
    assert_eq!(manifest_version("2.x.7"), Some((2, 0, 7)));
    assert_eq!(manifest_version("v2.1"), None);
    assert_eq!(manifest_version(""), None);
}

#[test]
fn lens_picks_newest_last_of_equals() {
    let c = vec![(true, Some((1, 2, 0))), (false, Some((9, 0, 0))), (true, Some((1, 10, 0))), (true, None)];
    assert_eq!(pick_newest(&c), Some(2));
    let tie = vec![(true, Some((1, 0, 0))), (true, Some((1, 0, 0)))];
    assert_eq!(pick_newest(&tie), Some(1));
    assert_eq!(pick_newest(&vec![(false, None)]), None);
    assert_eq!(pick_newest(&vec![(true, None)]), Some(0));
}
