pub mod model;
pub mod registry;
pub mod service;
