pub mod commands;
pub mod dispatch;
pub mod resolver;
pub mod summary;
pub mod runtime;
