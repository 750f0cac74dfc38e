//! Interactive chat mode: what a line of input means and how it changes a session.

pub mod command;
pub mod session;
pub mod ui;

pub use session::{ChatSession, SessionConfig};
