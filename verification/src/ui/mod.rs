//! Styling of terminal output.

pub mod theme;

pub use theme::Style;
