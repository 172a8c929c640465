//! Only one dashboard runs; a later launch brings the existing window up.
//! Finding and raising the window is the caller's (Win32); this module says
//! what is done with what was found.

use vstd::prelude::*;

verus! {

/// Name of the per-session mutex that marks the running dashboard.
pub const MUTEX_NAME: &'static str = "Local\\TelemetryLoggingUtilityGUI";

/// How often activation is retried while the first window is still being
/// created, and the pause between tries in milliseconds.
pub const RETRY_ATTEMPTS: u32 = 25;

pub const RETRY_PAUSE_MS: u64 = 40;

/// Whether an existing dashboard was activated: it was when its main window
/// was found (`window`; the caller then raises it).
pub fn activate_existing(window: Option<isize>) -> (r: bool)
    ensures
        r == window is Some,
{
    window.is_some()
}

/// Whether a window handle is worth raising (a null handle is not).
pub fn should_show(hwnd: isize) -> (r: bool)
    ensures
        r == (hwnd != 0),
{
    hwnd != 0
}

/// Whether to try again after `tries` failed activations (the first try
/// included): up to [`RETRY_ATTEMPTS`] retries follow the first.
pub fn retry_again(tries: u32) -> (r: bool)
    ensures
        r == (tries <= RETRY_ATTEMPTS),
{
    tries <= RETRY_ATTEMPTS
}

} // verus!
