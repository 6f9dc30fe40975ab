//! A minimal real-time 3D viewer's core: the fixed cube mesh, the renderer's
//! resource state machine, and the frame scheduler that throttles redraws to
//! a target frame rate and reports a rolling average frame time. Windowing,
//! GPU device handling and floating-point matrix math live with the caller;
//! this crate holds the decisions and the data, with their proofs.

pub mod cube;
pub mod renderer;
pub mod scheduler;
