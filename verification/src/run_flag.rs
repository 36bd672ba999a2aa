//! The running flag: the one piece of state that another thread may touch.

use vstd::prelude::*;
use std::sync::atomic::{AtomicBool, Ordering};

verus! {

/// A flag that is read by the frame loop and may be cleared from anywhere,
/// a signal handler included, to ask the loop to end. It is read with
/// acquire and written with release ordering. What a read answers depends
/// on who wrote last, so no contract speaks of it: the loop hands the
/// answer to the scheduler, whose decisions are stated for either answer.
pub struct RunFlag {
    flag: AtomicBool,
}

impl RunFlag {
    /// A flag that is not set.
    pub fn new() -> (flag: RunFlag) {
        RunFlag { flag: AtomicBool::new(false) }
    }

    pub fn is_running(&self) -> (running: bool) {
        self.flag.load(Ordering::Acquire)
    }

    pub fn set_running(&self, running: bool) {
        self.flag.store(running, Ordering::Release);
    }
}

} // verus!
