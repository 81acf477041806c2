pub mod model;


pub mod search_bridge;
pub mod registry;
pub mod capability;
pub mod detector_registry;
pub mod method_registry;
pub mod pending;
pub mod permissions;
pub mod preload;
pub mod service;
