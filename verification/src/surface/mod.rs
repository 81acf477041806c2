//! Surfaces under their first module path.
pub mod model;
pub mod registry;
