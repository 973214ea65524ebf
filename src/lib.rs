//! Safe, verified core of an interactive shell over a table input-method
//! dictionary engine: the values that cross the engine boundary, the
//! interpretation of the engine's error channel, and the command dispatcher.

pub mod channel;
pub mod command;
pub mod dispatch;
pub mod report;
pub mod tabledict;
pub mod text;

pub use tabledict::{PhraseFlag, TableMatchMode, WordEntry};
