//! A minimal structured-logging facade: a logger value that accumulates
//! textual tags, can be switched on and off at runtime, and forwards
//! formatted lines to a pluggable sink shared across forked loggers.

pub mod logger;
pub mod sink;
pub mod text;

pub use logger::Log4;
pub use sink::DefaultLogImpl;
pub use sink::LogImpl;
pub use text::Stringify;
