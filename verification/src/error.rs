//! Error codes and the error value every fallible operation of the crate returns.
use vstd::prelude::*;

verus! {

/// Machine-readable failure kinds.
#[derive(Debug, Clone, Copy, PartialEq, Eq, Structural)]
pub enum ErrorCode {
    InvalidInput,
    NotImplemented,
    FocusPolicyViolation,
    TabNotFound,
    AppDenied,
    ActionFailed,
    OsCursorDenied,
    Internal,
    SessionNotFound,
    SessionClosed,
    ExtensionDisconnected,
    StageRequired,
    CdpConnectFailed,
    BrowserUnavailable,
    VisionProviderRequired,
    VisionCallFailed,
    ModelNotFound,
    DaemonAuthFailed,
    DaemonAlreadyRunning,
    AccessibilityDenied,
    BorrowRequired,
    TabAlreadyBorrowed,
}

/// A failure: its code, a human-readable message and optional detail text.
#[derive(Debug, Clone)]
pub struct VcuError {
    pub code: ErrorCode,
    pub message: String,
    pub detail: Option<String>,
}

impl VcuError {
    pub fn coded(code: ErrorCode, message: String) -> (e: VcuError)
        ensures
            e.code == code,
            e.message@ == message@,
            e.detail is None,
    {
        VcuError { code, message, detail: None }
    }

    pub fn with_detail(code: ErrorCode, message: String, detail: String) -> (e: VcuError)
        ensures
            e.code == code,
            e.message@ == message@,
            e.detail matches Some(d) && d@ == detail@,
    {
        VcuError { code, message, detail: Some(detail) }
    }

    pub fn code(&self) -> (c: ErrorCode)
        ensures
            c == self.code,
    {
        self.code
    }

    pub fn message(&self) -> (m: &str)
        ensures
            m@ == self.message@,
    {
        self.message.as_str()
    }
}

} // verus!
