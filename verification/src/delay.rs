//! Delay capability: a millisecond wait the transport's polling leans on.
use vstd::prelude::*;

verus! {

/// A source of bounded waits, supplied by the host.
pub trait Delay {
    /// Suspends the caller for at least `ms` milliseconds.
    fn delay_ms(&mut self, ms: u32);
}

} // verus!
