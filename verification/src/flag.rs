//! The cancellation flag shared between a manager and its cancellers.
use vstd::prelude::*;

use std::sync::atomic::AtomicBool;

verus! {

/// Maps any value to `true`.
pub fn always<T>(_value: T) -> (r: bool)
    ensures
        r,
{
    true
}

/// Whether a manager is cancelled, given what checking its flag gave
/// (`None` where it has no flag yet, because no canceller was ever made):
/// without a flag, it is not cancelled.
pub fn manager_cancelled(flag_raised: Option<bool>) -> (cancelled: bool)
    ensures
        cancelled == (flag_raised == Some(true)),
{
    match flag_raised {
        Some(raised) => raised,
        None => false,
    }
}

/// What restarting a manager returns, given what clearing its flag gave
/// (`None` where it has no flag yet): without a flag, there was nothing to
/// restart, so `Ok(false)`; otherwise the outcome of clearing the flag.
pub fn manager_restart(flag_cleared: Option<Result<bool, std::io::Error>>) -> (restarted: Result<
    bool,
    std::io::Error,
>)
    ensures
        flag_cleared is None ==> restarted matches Ok(false),
        flag_cleared matches Some(r) ==> restarted == r,
{
    match flag_cleared {
        Some(outcome) => outcome,
        None => Ok(false),
    }
}

/// A flag that any thread may raise or clear. Its value is shared between
/// threads, so no contract can say what it holds at any moment.
#[derive(Debug)]
pub struct CancelFlag {
    flag: AtomicBool,
}

impl CancelFlag {
    /// A flag that is not raised.
    pub fn new() -> (f: CancelFlag) {
        CancelFlag { flag: AtomicBool::new(false) }
    }

    /// Raises the flag; `true` where it was not raised before, and so this
    /// call changed it.
    pub fn raise(&self) -> (changed: bool) {
        match self.flag.compare_exchange(
            false,
            true,
            std::sync::atomic::Ordering::Relaxed,
            std::sync::atomic::Ordering::Relaxed,
        ) {
            Ok(_) => true,
            Err(_) => false,
        }
    }

    /// Clears the flag; `true` where it was raised before, and so this call
    /// changed it.
    pub fn clear(&self) -> (changed: bool) {
        match self.flag.compare_exchange(
            true,
            false,
            std::sync::atomic::Ordering::Relaxed,
            std::sync::atomic::Ordering::Relaxed,
        ) {
            Ok(_) => true,
            Err(_) => false,
        }
    }

    /// Whether the flag is raised.
    pub fn check(&self) -> bool {
        self.flag.load(std::sync::atomic::Ordering::Relaxed)
    }
}

} // verus!
