//! The cancellation flag: raised once by an interrupt watcher, read by the
//! streaming loop at the top of every iteration without waiting.
use vstd::prelude::*;
use std::sync::atomic::AtomicBool;
use std::sync::atomic::Ordering;

verus! {

/// A shared flag, lowered at first. Share it between tasks behind an `Arc`.
/// Raising it is idempotent and there is no way back.
pub struct CancelFlag {
    raised: AtomicBool,
}

impl CancelFlag {
    /// A lowered flag.
    pub fn new() -> (r: CancelFlag) {
        CancelFlag { raised: AtomicBool::new(false) }
    }

    /// Raises the flag. Sequentially consistent, so a raise made before the
    /// watcher finishes is seen by the loop's next read.
    pub fn raise(&self) {
        self.raised.store(true, Ordering::SeqCst);
    }

    /// Whether the flag has been raised. Never blocks.
    pub fn is_raised(&self) -> (r: bool) {
        self.raised.load(Ordering::SeqCst)
    }
}

} // verus!
