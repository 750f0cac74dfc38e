//! The decisions of each subcommand.
//!
//! A subcommand asks the user, decides, and saves. The asking and the saving
//! belong to the caller; what is decided from the answers stands here.

pub mod chat;
pub mod configure;
pub mod providers;
pub mod styles;
