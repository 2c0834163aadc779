use vcu_server::app::mock_app::MockAppBackend;
use vcu_server::browser::{SceneRef, SceneWait, SceneWaitNext};
use vcu_server::error::{ErrorCode, VcuError};

fn textedit_scene() -> Vec<SceneRef> {
    MockAppBackend::default().scene_refs("proc:TextEdit:1").unwrap()
}

/// Drives a wait with a simulated clock: each sleep advances it.
fn run(w: &SceneWait, aborted: bool) -> Result<(Option<String>, u64), VcuError> {
    let scene = textedit_scene();
    let mut elapsed = 0u64;
    loop {
        match w.round(aborted, elapsed, &scene) {
            SceneWaitNext::Done { found_ref, waited_ms } => return Ok((found_ref, waited_ms)),
            SceneWaitNext::Sleep { ms } => elapsed += ms,
            SceneWaitNext::Fail(e) => return Err(e),
        }
    }
}

fn s(v: &str) -> Option<String> {
    Some(v.to_string())
}

#[test]
fn wait_stops_on_stage_abort() {
    let w = SceneWait::new(Some(400), None, None, None, None);
    let err = run(&w, true).unwrap_err();
    assert_eq!(err.code(), ErrorCode::SessionClosed);
}

#[test]
fn wait_times_out_when_value_missing() {
    let w = SceneWait::new(Some(120), None, None, None, s("VCU-D-210-MISS"));
    let err = run(&w, false).unwrap_err();
    assert_eq!(err.code(), ErrorCode::ActionFailed);
    assert!(err.message().contains("timed out"), "{}", err.message());
    assert!(err.message().contains("VCU-D-210-MISS"), "{}", err.message());
    assert!(err.message().contains("value="), "{}", err.message());
}

#[test]
fn wait_times_out_when_ref_missing() {
    let w = SceneWait::new(Some(120), s("e999"), None, None, None);
    let err = run(&w, false).unwrap_err();
    assert_eq!(err.code(), ErrorCode::ActionFailed);
    assert!(err.message().contains("timed out"), "{}", err.message());
    assert!(err.message().contains("e999"), "{}", err.message());
}

#[test]
fn wait_succeeds_when_scene_value_present() {
    let w = SceneWait::new(Some(400), None, None, None, s("Hello"));
    let (found, _) = run(&w, false).unwrap();
    assert_eq!(found.as_deref(), Some("e2"));
}

#[test]
fn scene_wait_exact_rounds() {
    let plain = SceneWait::new(None, None, None, None, None);
    assert_eq!(plain.ms, 100);
    assert!(matches!(plain.round(false, 70, &[]), SceneWaitNext::Sleep { ms: 30 }));
    assert!(matches!(plain.round(false, 100, &[]), SceneWaitNext::Done { found_ref: None, waited_ms: 100 }));
    assert_eq!(SceneWait::new(Some(99_999), None, None, None, None).ms, 5000);
    let w = SceneWait::new(Some(120), s("e999"), None, None, None);
    match w.round(false, 120, &textedit_scene()) {
        SceneWaitNext::Fail(e) => assert_eq!(
            e.message(),
            "wait timed out after 120ms for ref=Some(\"e999\") name=None role=None value=None"
        ),
        other => panic!("expected a timeout, got {other:?}"),
    }
    assert!(matches!(w.round(false, 60, &textedit_scene()), SceneWaitNext::Sleep { ms: 50 }));
}
