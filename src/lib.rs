//! Transcript keeping for a pseudo-terminal session: the append policy of
//! the shared log, the decisions of the output reader and of the exit
//! waiter, and the sequencing of successive launches.

pub mod events;
pub mod log;
pub mod session;

pub use log::CommandStream;
