//! Data carried through the pipeline: frames, bounding boxes, detections.
//!
//! Confidence scores and ratio thresholds are held in thousandths
//! (milli-units), so that a score of `900` stands for nine tenths.

use vstd::prelude::*;

verus! {

/// One whole, in milli-units: `1000` thousandths make `1.0`.
pub const MILLI: u32 = 1000;

/// One captured image sample, reduced to what the pipeline reads of it:
/// its dimensions. The pixel data itself stays with the capture device.
#[derive(Clone, Copy, Debug, PartialEq, Eq, Structural)]
pub struct Frame {
    pub width: i32,
    pub height: i32,
}

/// An axis-aligned box in image coordinates.
#[derive(Clone, Copy, Debug, PartialEq, Eq, Structural)]
pub struct BoundingBox {
    pub x: i32,
    pub y: i32,
    pub width: i32,
    pub height: i32,
}

/// One detected object: a class, a confidence in milli-units, and where
/// it was seen.
#[derive(Clone, Copy, Debug, PartialEq, Eq, Structural)]
pub struct Detection {
    pub class_id: usize,
    pub score_milli: u32,
    pub bbox: BoundingBox,
}

/// The ordered results of one inference call over one frame. A new batch
/// always replaces the previous one whole; batches are never merged.
pub type DetectionBatch = Vec<Detection>;

} // verus!
