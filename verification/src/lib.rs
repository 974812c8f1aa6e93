//! A 2D rendering core: quad geometry, camera state, and the per-frame
//! decision policy, stated and proved over a float-free model.
//!
//! Coordinates are integer world units; color channels and matrix entries
//! travel through the library as 32-bit IEEE-754 bit patterns, produced and
//! consumed at the GPU boundary, which lives outside this crate.

pub mod camera;
pub mod frame;
pub mod geometry;
pub mod renderer;

pub use camera::CameraUniform;
pub use renderer::{FramePlan, Renderer2D};
pub use frame::{FrameAction, SurfaceError};
pub use geometry::{Rgba, Shape2D, Vec3, Vertex};
