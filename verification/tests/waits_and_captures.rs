use vcu_server::api::{
    require_capture_of, selector_wait_round, tab_list_after_call, tab_list_before_call, ExtractMatch, SelectorWaitNext,
    TabListNext, VisionService,
};
use vcu_server::browser::{decode_observe_png, MINIMAL_PNG_BASE64};
use vcu_server::error::{ErrorCode, VcuError};

fn m(text: &str) -> ExtractMatch {
    ExtractMatch { text: Some(text.into()), value: None }
}

#[test]
fn selector_wait_finds_sleeps_and_times_out() {
    let found = selector_wait_round(1000, "#msg", Some(" hi "), 120, Ok((None, Some(vec![m("say hi")]))));
    assert!(matches!(found, SelectorWaitNext::Found { count: 1, waited_ms: 120 }));
    let counted = selector_wait_round(1000, "#msg", None, 5, Ok((Some(3), Some(vec![m("x")]))));
    assert!(matches!(counted, SelectorWaitNext::Found { count: 3, waited_ms: 5 }));
    let missing = selector_wait_round(1000, "#msg", Some("bye"), 120, Ok((None, Some(vec![m("say hi")]))));
    assert!(matches!(missing, SelectorWaitNext::Sleep { ms: 80 }));
    match selector_wait_round(20_000, "#msg", Some("bye"), 8000, Ok((None, Some(vec![])))) {
        SelectorWaitNext::Fail(e) => {
            assert_eq!(e.code, ErrorCode::ActionFailed);
            assert_eq!(e.message, "wait timed out after 8000ms for selector=\"#msg\" text=Some(\"bye\")");
        }
        other => panic!("unexpected {other:?}"),
    }
    let err = VcuError { code: ErrorCode::ExtensionDisconnected, message: "gone".into(), detail: None };
    assert!(matches!(selector_wait_round(100, "a", None, 10, Err(err.clone())), SelectorWaitNext::Sleep { ms: 80 }));
    match selector_wait_round(100, "a", None, 100, Err(err)) {
        SelectorWaitNext::Fail(e) => assert_eq!(e.message, "gone"),
        other => panic!("unexpected {other:?}"),
    }
    match selector_wait_round(0, "a", None, 1, Ok((None, None))) {
        SelectorWaitNext::Fail(e) => assert_eq!(e.message, "wait timed out after 0ms for selector=\"a\" text=None"),
        other => panic!("unexpected {other:?}"),
    }
}

#[test]
fn observe_png_errors_are_distinct() {
    let ok = decode_observe_png(Some(MINIMAL_PNG_BASE64)).unwrap();
    assert_eq!((ok.width, ok.height), (1, 1));
    assert_eq!(decode_observe_png(None).unwrap_err().message, "extension observe screenshot missing PNG");
    assert_eq!(decode_observe_png(Some("%%%")).unwrap_err().message, "extension observe screenshot is not PNG");
    assert_eq!(decode_observe_png(Some("aGVsbG8=")).unwrap_err().message, "extension observe screenshot is not PNG");
    let huge = "A".repeat(24_000_004);
    let e = decode_observe_png(Some(&huge)).unwrap_err();
    assert_eq!((e.code, e.message.as_str()), (ErrorCode::ActionFailed, "extension observe screenshot too large"));
}

#[test]
fn pixel_click_needs_capture_of_the_same_window() {
    assert!(require_capture_of(Some("proc:Microsoft_Edge:10"), "proc:Microsoft_Edge:10").is_ok());
    let e = require_capture_of(Some("proc:Chrome:3"), "proc:Microsoft_Edge:10").unwrap_err();
    assert_eq!(e.code, ErrorCode::InvalidInput);
    assert_eq!(e.message, "observe this browser first; screenshot belongs to a different or missing window");
    assert!(require_capture_of(None, "proc:Chrome:3").is_err());
}

#[test]
fn tab_list_retries_three_times() {
    assert_eq!(tab_list_before_call(0, true), TabListNext::Call);
    assert_eq!(tab_list_before_call(0, false), TabListNext::Sleep { ms: 150 });
    assert_eq!(tab_list_before_call(1, false), TabListNext::Sleep { ms: 150 });
    assert_eq!(tab_list_before_call(2, false), TabListNext::GiveUp);
    assert_eq!(tab_list_after_call(0, Some(true)), TabListNext::Merge);
    assert_eq!(tab_list_after_call(1, Some(false)), TabListNext::Sleep { ms: 150 });
    assert_eq!(tab_list_after_call(2, Some(false)), TabListNext::GiveUp);
    assert_eq!(tab_list_after_call(0, None), TabListNext::GiveUp);
}

#[test]
fn vision_model_resolves_default_then_first() {
    let names = vec!["remote".to_string(), "local".to_string()];
    assert_eq!(VisionService::resolve_model(Some("local"), &names).unwrap(), 1);
    assert_eq!(VisionService::resolve_model(None, &names).unwrap(), 0);
    let e = VisionService::resolve_model(Some("missing"), &names).unwrap_err();
    assert_eq!((e.code, e.message.as_str()), (ErrorCode::ModelNotFound, "model 'missing' not found"));
    let e = VisionService::resolve_model(None, &[]).unwrap_err();
    assert_eq!((e.code, e.message.as_str()), (ErrorCode::VisionProviderRequired, "no vision model configured"));
}
