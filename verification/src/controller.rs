//! Admission bookkeeping of the render/control loop.
//!
//! The controller decides, once per display iteration, whether the
//! current frame may be handed to the inference worker. A frame is
//! dispatched only on the very first iteration, or on the iteration after
//! a detection batch came back: the single-flight policy.

use vstd::prelude::*;

use crate::detections::DetectionBatch;
use crate::relay::Poll;

verus! {

/// Per-loop state of the render/control side of the pipeline.
pub struct Controller {
    /// The most recently completed detection batch, kept for the overlay.
    /// Once set it is only ever replaced, never cleared.
    pub latest: Option<DetectionBatch>,
    /// Whether any display iteration has run yet.
    pub started: bool,
    /// Whether a batch arrived during the previous iteration, re-arming
    /// dispatch for the next one.
    pub ready: bool,
    /// Whether a frame has been dispatched whose batch has not come back.
    pub inflight: bool,
}

impl Controller {
    /// The controller's own invariant: a fresh result and an outstanding
    /// request never coexist.
    pub open spec fn wf(&self) -> bool {
        self.ready ==> !self.inflight
    }

    /// The state before the first display iteration.
    pub fn new() -> (c: Controller)
        ensures
            c.wf(),
            !c.started,
            c.latest is None,
            !c.ready,
            !c.inflight,
    {
        Controller { latest: None, started: false, ready: false, inflight: false }
    }

    /// The dispatch step of one display iteration: reports whether the
    /// current frame is to be sent to the worker, which is the case
    /// exactly on the first iteration or right after a batch came back.
    pub fn dispatch(&mut self) -> (dispatch_now: bool)
        ensures
            dispatch_now == (!old(self).started || old(self).ready),
            final(self).started,
            !final(self).ready,
            final(self).latest == old(self).latest,
            final(self).inflight == (old(self).inflight || dispatch_now),
            old(self).wf() ==> final(self).wf(),
    {
        let dispatch_now = !self.started || self.ready;
        self.started = true;
        self.ready = false;
        if dispatch_now {
            self.inflight = true;
        }
        dispatch_now
    }

    /// The polling step of one display iteration: absorbs what the
    /// result relay reported. A batch replaces `latest` whole and
    /// re-arms dispatch; an empty or torn-down relay changes nothing.
    ///
    /// Once `latest` is set it is never cleared, only replaced.
    pub fn absorb(&mut self, poll: Poll<DetectionBatch>)
        ensures
            final(self).started == old(self).started,
            poll matches Poll::Item(b) ==> final(self).latest == Some(b)
                && final(self).ready
                && !final(self).inflight,
            !(poll is Item) ==> *final(self) == *old(self),
            old(self).latest is Some ==> final(self).latest is Some,
            old(self).wf() ==> final(self).wf(),
    {
        match poll {
            Poll::Item(batch) => {
                self.latest = Some(batch);
                self.ready = true;
                self.inflight = false;
            },
            Poll::Empty => {},
            Poll::Closed => {},
        }
    }
}

} // verus!
