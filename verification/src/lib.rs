//! Decision logic of the VCU computer-use runtime: which browser process is the user's
//! login-state browser, what the operator is told to do next, which desktop window a
//! request binds to, which keys may be injected, and the scripts and parsers the
//! platform adapters exchange with AppleScript and PowerShell.
pub mod api;
pub mod app;
pub mod browser;
pub mod desktop;
pub mod doctor;
pub mod error;
pub mod lens;
pub mod login_state;
pub mod sessions;
pub mod stage;
pub mod tab_params;
pub mod text;
pub mod vision;
