//! The first generation of the plugin runtime bridge: the method table it
//! checks calls against, how host commands are grouped, and the script that
//! gives plugin views their `window.litools` API.
pub mod model;
pub mod permissions;
pub mod preload;
