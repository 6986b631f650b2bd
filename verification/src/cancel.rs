use vstd::prelude::*;
use std::sync::atomic::AtomicBool;
use std::sync::atomic::Ordering;

verus! {

/// The shared cancellation signal. An external stop request sets it; the
/// caller driving a run polls it between filesystem operations and hands
/// each answer to the scanner's and the importer's `step`. The stored
/// value is shared between threads with relaxed ordering, so no contract
/// here speaks of what a poll returns: the machines state instead exactly
/// what they do for either answer.
pub struct CancelFlag {
    inner: AtomicBool,
}

impl CancelFlag {
    /// A fresh, unset flag.
    pub fn new() -> CancelFlag {
        CancelFlag { inner: AtomicBool::new(false) }
    }

    /// Requests cancellation of the current run, if one is active.
    pub fn set(&self) {
        self.inner.store(true, Ordering::Relaxed);
    }

    /// Clears the signal; the caller does this before starting a new run.
    pub fn reset(&self) {
        self.inner.store(false, Ordering::Relaxed);
    }

    /// Polls the signal.
    pub fn is_set(&self) -> bool {
        self.inner.load(Ordering::Relaxed)
    }
}

} // verus!
