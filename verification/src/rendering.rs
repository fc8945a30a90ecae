//! The rendering half of the engine: the camera uniform mirror, the fixed
//! triangle geometry, the surface lifecycle state machine, the trusted GPU
//! boundary, and the rendering service that ties them together.

pub mod camera;
pub mod gpu;
pub mod service;
pub mod surface;
pub mod vertex;

pub use service::RenderingService;
pub use surface::RenderError;
pub use surface::SurfaceState;
