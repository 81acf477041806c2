//! The surface registry under its first module path.
pub use crate::host::surface::registry::{
    SurfaceRegistry, DETACHED_HOST_ID_PREFIX, SURFACE_ID_PREFIX,
};
