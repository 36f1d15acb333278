//! A real-time signed-distance-field volume renderer, organised around a
//! verified core: fixed-point camera mathematics, a volume-texture manager,
//! and the GPU command orchestration (compute dispatch, memory barrier,
//! graphics draw) that must run in strict order every frame.
//!
//! Device work itself (window creation, driver calls, UI overlay) lives
//! outside this library; the library decides what is issued and in which
//! order, and hands the caller an explicit command sequence to execute.

pub mod camera;
pub mod error;
pub mod fixed;
pub mod frame;
pub mod gpu;
pub mod mat;
pub mod quad;
pub mod volume;
