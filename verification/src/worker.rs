//! The inference worker's state machine.
//!
//! The worker sits behind the frame relay. On the first frame it ever
//! receives it calibrates the detection service from that frame's
//! dimensions and a fixed normalization profile; it never recalibrates.
//! Every received frame is then handed to the detection service; a
//! torn-down frame relay is the worker's only shutdown signal.

use vstd::prelude::*;

use crate::detections::Frame;
use crate::relay::Poll;

verus! {

/// Input scale in milli-units: each pixel value is scaled by one
/// thousandth before inference.
pub const SCALE_MILLI: u32 = 1;

/// Per-channel mean subtracted from the input: zero on every channel.
pub const CHANNEL_MEAN: u32 = 0;

/// The one-time configuration of the detection service, derived from the
/// first frame's dimensions and fixed normalization constants.
#[derive(Clone, Copy, Debug, PartialEq, Eq, Structural)]
pub struct Calibration {
    pub input_width: i32,
    pub input_height: i32,
    pub scale_milli: u32,
    pub channel_mean: u32,
    pub swap_red_blue: bool,
}

/// The calibration the worker derives from its first frame.
pub open spec fn calibration_for(frame: Frame) -> Calibration {
    Calibration {
        input_width: frame.width,
        input_height: frame.height,
        scale_milli: SCALE_MILLI,
        channel_mean: CHANNEL_MEAN,
        swap_red_blue: true,
    }
}

/// What one poll of the frame relay asks of the worker.
#[derive(Clone, Copy, Debug, PartialEq, Eq, Structural)]
pub enum WorkerDecision {
    /// A frame arrived: run the detection service over it.
    RunDetection(Frame),
    /// Nothing arrived yet: poll again.
    Wait,
    /// The frame relay is torn down: leave the loop.
    Shutdown,
}

/// Task-local state of the inference worker.
pub struct Worker {
    /// The configuration applied to the detection service, set on the
    /// first frame and never changed afterwards.
    pub calibration: Option<Calibration>,
    /// How many times the detection service has been configured.
    pub configured: Ghost<nat>,
}

impl Worker {
    /// The worker's invariant: the service has been configured exactly
    /// as often as a calibration is held, so never more than once.
    pub open spec fn wf(&self) -> bool {
        self.configured@ == if self.calibration is Some { 1nat } else { 0nat }
    }

    /// A worker that has not yet seen a frame.
    pub fn new() -> (w: Worker)
        ensures
            w.wf(),
            w.calibration is None,
            w.configured@ == 0,
    {
        Worker { calibration: None, configured: Ghost(0nat) }
    }

    /// Reacts to one poll of the frame relay. The first frame calibrates
    /// the detection service from its dimensions; later frames leave the
    /// calibration untouched. Every frame is handed on to detection.
    pub fn accept(&mut self, poll: Poll<Frame>) -> (d: WorkerDecision)
        ensures
            poll matches Poll::Item(f) ==> {
                &&& d == WorkerDecision::RunDetection(f)
                &&& final(self).calibration is Some
                &&& old(self).calibration is Some ==> *final(self) == *old(self)
                &&& old(self).calibration is None ==> final(self).calibration
                    == Some(calibration_for(f)) && final(self).configured@
                    == old(self).configured@ + 1
            },
            poll is Empty ==> d == WorkerDecision::Wait && *final(self) == *old(self),
            poll is Closed ==> d == WorkerDecision::Shutdown && *final(self) == *old(self),
            old(self).wf() ==> final(self).wf(),
    {
        match poll {
            Poll::Item(frame) => {
                if self.calibration.is_none() {
                    self.calibration = Some(
                        Calibration {
                            input_width: frame.width,
                            input_height: frame.height,
                            scale_milli: SCALE_MILLI,
                            channel_mean: CHANNEL_MEAN,
                            swap_red_blue: true,
                        },
                    );
                    proof {
                        self.configured@ = self.configured@ + 1;
                    }
                }
                WorkerDecision::RunDetection(frame)
            },
            Poll::Empty => WorkerDecision::Wait,
            Poll::Closed => WorkerDecision::Shutdown,
        }
    }
}

/// Calibration happens at most once per worker lifetime: a well-formed
/// worker has configured the detection service no more than one time.
pub proof fn lemma_calibration_at_most_once(w: &Worker)
    requires
        w.wf(),
    ensures
        w.configured@ <= 1,
{
}

} // verus!
