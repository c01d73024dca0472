//! Frame pacing, command recording and device selection logic for a minimal
//! Direct3D12 "hello window" renderer, verified with Verus.
//!
//! The native graphics and windowing calls are made by the program around this
//! library; every decision they act on is taken here.
pub mod d3d12;
pub mod events;
pub mod frame;
pub mod surface;
