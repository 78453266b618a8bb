//! The session's media-production resource.
//!
//! Each session owns one video source together with the background job that
//! feeds raw frames into it. All peer connections added to the session share
//! this one resource; none of them owns it. The resource must be cancelled
//! exactly once before the session is released, and the cancellation signal
//! is idempotent: signalling an already-cancelled producer changes nothing.
//! The producing machinery itself belongs to the external media engine; the
//! registry core tracks only the one bit it is responsible for, whether the
//! cancellation signal has been issued.

use vstd::prelude::*;

verus! {

/// The per-session frame-producing resource, as the registry sees it.
#[derive(Debug)]
pub struct FrameProducer {
    cancelled: bool,
}

impl FrameProducer {
    /// Whether the cancellation signal has been issued.
    pub closed spec fn is_cancelled(self) -> bool {
        self.cancelled
    }

    /// A freshly started producer has not been cancelled.
    pub fn start() -> (p: FrameProducer)
        ensures
            !p.is_cancelled(),
    {
        FrameProducer { cancelled: false }
    }

    /// Issue the cancellation signal. Idempotent: after the call the
    /// producer is cancelled, whether or not it already was.
    pub fn cancel(&mut self)
        ensures
            final(self).is_cancelled(),
    {
        self.cancelled = true;
    }

    /// Whether the producer is still running.
    pub fn is_active(&self) -> (r: bool)
        ensures
            r == !self.is_cancelled(),
    {
        !self.cancelled
    }
}

} // verus!
