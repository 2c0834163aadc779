use vcu_server::error::ErrorCode;
use vcu_server::login_state::TabInfo;
use vcu_server::sessions::SessionBook;

fn tab(id: &str) -> TabInfo {
    TabInfo {
        tab_id: id.into(),
        window_id: "w".into(),
        title: "t".into(),
        url: "https://mail.example.com".into(),
        agent_owned: false,
        borrowed_by: None,
        login_state: Some(true),
        browser_profile: None,
    }
}

fn listed(ids: &[&str]) -> Vec<String> {
    ids.iter().map(|s| s.to_string()).collect()
}

#[test]
fn borrowed_tab_is_exclusive_until_returned() {
    let mut book = SessionBook::new();
    assert_eq!(book.open("s1"), 1);
    assert_eq!(book.open("s2"), 1);
    let tabs = listed(&["t1", "t2"]);
    assert_eq!(book.borrow("s1", "t1", &tabs).unwrap(), 2);
    let err = book.borrow("s2", "t1", &tabs).unwrap_err();
    assert_eq!(err.code(), ErrorCode::TabAlreadyBorrowed);
    assert_eq!(err.message(), "tab t1 held by s1");
    assert_eq!(book.holder("t1").as_deref(), Some("s1"));
    // Borrowing again by the holder is fine.
    assert_eq!(book.borrow("s1", "t1", &tabs).unwrap(), 3);
    assert_eq!(book.return_tabs("s1", Some("t1")).unwrap(), 4);
    assert_eq!(book.holder("t1"), None);
    assert_eq!(book.borrow("s2", "t1", &tabs).unwrap(), 2);
    assert_eq!(book.holder("t1").as_deref(), Some("s2"));
}

#[test]
fn borrow_errors_in_order() {
    let mut book = SessionBook::new();
    book.open("s1");
    let err = book.borrow("nope", "t1", &listed(&["t1"])).unwrap_err();
    assert_eq!((err.code(), err.message()), (ErrorCode::SessionNotFound, "session nope"));
    let err = book.borrow("s1", "t9", &listed(&["t1"])).unwrap_err();
    assert_eq!((err.code(), err.message()), (ErrorCode::TabNotFound, "tab t9"));
    assert_eq!(book.revision("s1").unwrap(), 1);
}

#[test]
fn stopping_returns_every_borrow() {
    let mut book = SessionBook::new();
    book.open("s1");
    book.open("s2");
    let tabs = listed(&["t1", "t2"]);
    book.borrow("s1", "t1", &tabs).unwrap();
    book.borrow("s1", "t2", &tabs).unwrap();
    book.stop("s1").unwrap();
    assert_eq!(book.holder("t1"), None);
    assert_eq!(book.holder("t2"), None);
    assert_eq!(book.stop("s1").unwrap_err().code(), ErrorCode::SessionNotFound);
    assert_eq!(book.revision("s1").unwrap_err().message(), "session s1");
    assert!(book.borrow("s2", "t2", &tabs).is_ok());
}

#[test]
fn return_all_and_list_marks() {
    let mut book = SessionBook::new();
    book.open("s1");
    let tabs = listed(&["t1", "t2", "t3"]);
    book.borrow("s1", "t1", &tabs).unwrap();
    book.borrow("s1", "t3", &tabs).unwrap();
    let marked = book.mark_borrowed("s1", vec![tab("t1"), tab("t2"), tab("t3")]).unwrap();
    assert_eq!(marked[0].borrowed_by.as_deref(), Some("s1"));
    assert_eq!(marked[1].borrowed_by, None);
    assert_eq!(marked[2].borrowed_by.as_deref(), Some("s1"));
    assert_eq!(book.return_tabs("s1", None).unwrap(), 4);
    assert_eq!(book.holder("t3"), None);
    assert_eq!(book.mark_borrowed("zz", vec![]).unwrap_err().code(), ErrorCode::SessionNotFound);
}

#[test]
fn checkpoint_and_help_move_revisions() {
    let mut book = SessionBook::new();
    book.open("s1");
    assert_eq!(book.checkpoint("s1").unwrap(), 2);
    assert_eq!(book.request_help("s1", "captcha").unwrap(), 3);
    assert_eq!(book.revision("s1").unwrap(), 3);
    assert_eq!(book.checkpoint("x").unwrap_err().code(), ErrorCode::SessionNotFound);
    // Reopening an id starts it over, with nothing borrowed.
    book.borrow("s1", "t1", &listed(&["t1"])).unwrap();
    assert_eq!(book.open("s1"), 1);
    assert_eq!(book.revision("s1").unwrap(), 1);
    assert_eq!(book.holder("t1"), None);
}
