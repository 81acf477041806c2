//! Surface metadata under its first module path.
pub use crate::host::surface::model::{SurfaceLifecycle, SurfaceMetadata};
