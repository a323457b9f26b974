//! The two-stage pipeline wired together: controller, frame relay,
//! inference worker, result relay.
//!
//! The pipeline tracks, in ghost state, the history of frames sent to
//! the worker and of batches delivered back. Its invariant yields the
//! two global laws of the design: at most one frame is ever outstanding
//! (single flight), and batches come back in the order their frames
//! were sent.

use vstd::prelude::*;

use crate::controller::Controller;
use crate::detections::{DetectionBatch, Frame};
use crate::relay::{ChannelClosed, Poll, Relay};
use crate::worker::{calibration_for, Worker, WorkerDecision};

verus! {

/// The whole pipeline, owned by one scheduler that interleaves display
/// iterations (`control_tick`) with worker iterations (`worker_pull`,
/// `worker_finish`).
pub struct Pipeline {
    pub controller: Controller,
    pub worker: Worker,
    /// Carries frames from the display loop to the worker.
    pub frame_relay: Relay<Frame>,
    /// Carries detection batches from the worker back to the display loop.
    pub result_relay: Relay<DetectionBatch>,
    /// Whether the worker has pulled a frame whose batch it has not yet
    /// delivered. The worker is synchronous: it never pulls a second
    /// frame while this holds.
    pub processing: bool,
    /// History of frames sent into the frame relay; a frame's id is its
    /// position in the send order.
    pub sent_ids: Ghost<Seq<nat>>,
    /// History of frame ids whose batches the controller has received.
    pub completed_ids: Ghost<Seq<nat>>,
    /// How many batches were dropped at a torn-down result relay.
    pub lost: Ghost<nat>,
    /// Id of the frame in the frame relay, when one is there.
    pub frame_tag: Ghost<nat>,
    /// Id of the frame the worker is processing, when it is.
    pub processing_tag: Ghost<nat>,
    /// Id of the frame whose batch sits in the result relay, when one does.
    pub result_tag: Ghost<nat>,
}

impl Pipeline {
    /// How many frames are in transit: in the frame relay, under
    /// detection, or as a batch in the result relay.
    pub open spec fn occupancy(&self) -> int {
        (if self.frame_relay.slot is Some { 1int } else { 0int })
        + (if self.processing { 1int } else { 0int })
        + (if self.result_relay.slot is Some { 1int } else { 0int })
    }

    /// The pipeline invariant. Established by `new` and preserved by
    /// every tick.
    pub open spec fn wf(&self) -> bool {
        &&& self.controller.wf()
        &&& self.worker.wf()
        &&& !self.controller.started ==> self.sent_ids@.len() == 0
            && self.completed_ids@.len() == 0 && self.lost@ == 0
            && self.occupancy() == 0 && !self.controller.ready
            && !self.controller.inflight
        // every sent frame is completed, lost, or in transit
        &&& self.sent_ids@.len() == self.completed_ids@.len() + self.lost@ + self.occupancy()
        // a frame's id is its position in the send order
        &&& self.sent_ids@ == Seq::new(self.sent_ids@.len(), |i: int| i as nat)
        // batches were delivered in send order, with none skipped
        &&& self.completed_ids@ == self.sent_ids@.take(self.completed_ids@.len() as int)
        // single flight: at most one frame is in transit
        &&& self.occupancy() <= 1
        &&& self.lost@ <= 1
        // a batch is dropped only at a torn-down result relay, after
        // which nothing moves any more
        &&& self.lost@ > 0 ==> self.result_relay.closed
            && self.result_relay.slot is None && !self.controller.ready
            && self.occupancy() == 0
        // the single-flight flag mirrors the transit count
        &&& (self.controller.inflight <==> (self.occupancy() == 1 || self.lost@ > 0))
        &&& self.controller.ready ==> self.occupancy() == 0 && self.lost@ == 0
        // whatever is in transit is the most recently sent frame
        &&& self.frame_relay.slot is Some ==> self.frame_tag@ + 1 == self.sent_ids@.len()
        &&& self.processing ==> self.processing_tag@ + 1 == self.sent_ids@.len()
        &&& self.result_relay.slot is Some ==> self.result_tag@ + 1 == self.sent_ids@.len()
    }

    /// A pipeline before its first display iteration.
    pub fn new() -> (p: Pipeline)
        ensures
            p.wf(),
            !p.controller.started,
            p.controller.latest is None,
            p.worker.calibration is None,
            !p.processing,
            p.frame_relay.slot is None && !p.frame_relay.closed,
            p.result_relay.slot is None && !p.result_relay.closed,
            p.sent_ids@ == Seq::<nat>::empty(),
            p.completed_ids@ == Seq::<nat>::empty(),
            p.lost@ == 0,
    {
        let p = Pipeline {
            controller: Controller::new(),
            worker: Worker::new(),
            frame_relay: Relay::new(),
            result_relay: Relay::new(),
            processing: false,
            sent_ids: Ghost(Seq::empty()),
            completed_ids: Ghost(Seq::empty()),
            lost: Ghost(0nat),
            frame_tag: Ghost(0nat),
            processing_tag: Ghost(0nat),
            result_tag: Ghost(0nat),
        };
        proof {
            assert(p.sent_ids@ =~= Seq::new(0, |i: int| i as nat));
            assert(p.completed_ids@ =~= p.sent_ids@.take(0));
        }
        p
    }

    /// One display iteration, after the frame was captured: dispatch the
    /// frame to the worker if the single-flight policy allows it, then
    /// poll the result relay without blocking and absorb what it held.
    ///
    /// Returns whether the frame was sent, or `ChannelClosed` when a send
    /// was due but the frame relay is torn down (the iteration then
    /// changes nothing). Once `latest` is set it is never cleared.
    pub fn control_tick(&mut self, frame: Frame) -> (r: Result<bool, ChannelClosed>)
        requires
            old(self).wf(),
        ensures
            final(self).wf(),
            r is Err <==> ((!old(self).controller.started || old(self).controller.ready)
                && old(self).frame_relay.closed),
            r is Err ==> *final(self) == *old(self),
            r matches Ok(sent_now) ==> {
                &&& sent_now == (!old(self).controller.started || old(self).controller.ready)
                &&& final(self).controller.started
                &&& final(self).worker == old(self).worker
                &&& final(self).processing == old(self).processing
            },
            r == Ok::<bool, ChannelClosed>(true) ==> final(self).sent_ids@
                == old(self).sent_ids@.push(old(self).sent_ids@.len())
                && final(self).frame_relay.slot == Some(frame),
            r == Ok::<bool, ChannelClosed>(false) ==> final(self).sent_ids@ == old(self).sent_ids@
                && final(self).frame_relay == old(self).frame_relay,
            r is Ok ==> match old(self).result_relay.slot {
                Some(b) => final(self).controller.latest == Some(b)
                    && final(self).completed_ids@ == old(self).completed_ids@.push(
                    old(self).completed_ids@.len() as nat)
                    && final(self).result_relay.slot is None
                    && final(self).controller.ready,
                None => final(self).controller.latest == old(self).controller.latest
                    && final(self).completed_ids@ == old(self).completed_ids@
                    && !final(self).controller.ready,
            },
            old(self).controller.latest is Some ==> final(self).controller.latest is Some,
    {
        let would_send = !self.controller.started || self.controller.ready;
        if would_send && self.frame_relay.closed {
            return Err(ChannelClosed);
        }
        let sent_now = self.controller.dispatch();
        if sent_now {
            let sent = self.frame_relay.send(frame);
            proof {
                self.frame_tag@ = self.sent_ids@.len();
                self.sent_ids@ = self.sent_ids@.push(self.sent_ids@.len());
                assert(self.sent_ids@ =~= Seq::new(
                    self.sent_ids@.len(),
                    |i: int| i as nat,
                ));
                assert(self.completed_ids@ =~= self.sent_ids@.take(
                    self.completed_ids@.len() as int,
                ));
            }
        }
        let poll = self.result_relay.try_receive();
        proof {
            if poll is Item {
                self.completed_ids@ = self.completed_ids@.push(self.result_tag@);
                assert(self.completed_ids@ =~= self.sent_ids@.take(
                    self.completed_ids@.len() as int,
                ));
            }
        }
        self.controller.absorb(poll);
        Ok(sent_now)
    }

    /// One poll of the frame relay by the worker, which must be idle.
    /// A pending frame calibrates the detection service if that has not
    /// happened yet, and is handed out for detection; otherwise the
    /// worker waits, or shuts down once the frame relay is torn down.
    pub fn worker_pull(&mut self) -> (d: WorkerDecision)
        requires
            old(self).wf(),
            !old(self).processing,
        ensures
            final(self).wf(),
            old(self).frame_relay.slot matches Some(f) ==> {
                &&& d == WorkerDecision::RunDetection(f)
                &&& final(self).processing
                &&& final(self).frame_relay.slot is None
                &&& final(self).worker.calibration is Some
                &&& old(self).worker.calibration is None ==> final(self).worker.calibration
                    == Some(calibration_for(f))
                &&& old(self).worker.calibration is Some ==> final(self).worker
                    == old(self).worker
                &&& final(self).controller == old(self).controller
                &&& final(self).result_relay == old(self).result_relay
                &&& final(self).sent_ids@ == old(self).sent_ids@
                &&& final(self).completed_ids@ == old(self).completed_ids@
                &&& final(self).lost@ == old(self).lost@
            },
            old(self).frame_relay.slot is None && !old(self).frame_relay.closed
                ==> d == WorkerDecision::Wait && *final(self) == *old(self),
            old(self).frame_relay.slot is None && old(self).frame_relay.closed
                ==> d == WorkerDecision::Shutdown && *final(self) == *old(self),
    {
        let poll = self.frame_relay.try_receive();
        let taken = matches!(poll, Poll::Item(_));
        let d = self.worker.accept(poll);
        if taken {
            self.processing = true;
            proof {
                self.processing_tag@ = self.frame_tag@;
            }
        }
        d
    }

    /// Delivery of one detection batch by the worker. The batch goes
    /// into the result relay; at a torn-down relay it is dropped, which
    /// the worker ignores. Either way the worker is idle afterwards.
    pub fn worker_finish(&mut self, batch: DetectionBatch) -> (delivered: bool)
        requires
            old(self).wf(),
            old(self).processing,
        ensures
            final(self).wf(),
            !final(self).processing,
            delivered == !old(self).result_relay.closed,
            delivered ==> final(self).result_relay.slot == Some(batch)
                && final(self).lost@ == old(self).lost@,
            !delivered ==> final(self).result_relay.slot is None
                && final(self).lost@ == old(self).lost@ + 1,
            final(self).controller == old(self).controller,
            final(self).worker == old(self).worker,
            final(self).frame_relay == old(self).frame_relay,
            final(self).sent_ids@ == old(self).sent_ids@,
            final(self).completed_ids@ == old(self).completed_ids@,
    {
        self.processing = false;
        match self.result_relay.send(batch) {
            Ok(()) => {
                proof {
                    self.result_tag@ = self.processing_tag@;
                }
                true
            },
            Err(ChannelClosed) => {
                proof {
                    self.lost@ = self.lost@ + 1;
                }
                false
            },
        }
    }
}

/// Single flight: the number of frames ever sent to the worker exceeds
/// the number of batches received back by at most one.
pub proof fn lemma_single_flight(p: &Pipeline)
    requires
        p.wf(),
    ensures
        p.sent_ids@.len() <= p.completed_ids@.len() + 1,
{
}

/// Delivery order: the batches received so far belong, in order, to the
/// first frames sent; the batch received i-th came from the frame sent
/// i-th.
pub proof fn lemma_delivery_order(p: &Pipeline)
    requires
        p.wf(),
    ensures
        p.completed_ids@ == p.sent_ids@.take(p.completed_ids@.len() as int),
        forall|i: int|
            0 <= i < p.completed_ids@.len() ==> p.completed_ids@[i] == p.sent_ids@[i],
{
}

} // verus!
