//! Core of a live object-detection overlay pipeline.
//!
//! A fast capture-and-display loop hands frames to a slower inference
//! worker through a pair of non-blocking relays, under a single-flight
//! admission policy: at most one frame is ever outstanding. The worker
//! calibrates the detection service once, on the first frame, and the
//! display loop overlays the most recently completed detection batch
//! on every frame it presents.

pub mod controller;
pub mod detections;
pub mod labels;
pub mod overlay;
pub mod pipeline;
pub mod relay;
pub mod suppress;
pub mod worker;
