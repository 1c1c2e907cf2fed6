//! Verified core of a particle-life simulation: frame-rate bookkeeping,
//! per-frame timing, the GPU vertex layout of a particle and the integer
//! rules that the compute pass relies on.

pub mod frame_rate;
pub mod frame_clock;
pub mod vertex_layout;
pub mod simulation;
