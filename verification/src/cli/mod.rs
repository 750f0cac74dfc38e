//! What the subcommands decide, apart from asking and printing.

pub mod commands;
