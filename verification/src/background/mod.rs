//! Background runtimes: hidden environments that run the scripts of
//! instant plugin commands, kept while they are in use.
pub mod manager;
pub mod runtime;
