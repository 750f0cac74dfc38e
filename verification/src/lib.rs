//! The logic of `tl`, a command-line translator that sends text to an
//! OpenAI-compatible chat-completion endpoint and streams the translation
//! back, with a content-addressed cache in front of the network.
//!
//! The library decides and computes; it performs no I/O. Its parts:
//!
//! - [`config`]: merging command-line options, the configuration file and the
//!   environment into one resolved configuration;
//! - [`style`]: preset and custom translation styles;
//! - [`translation`]: the system prompt, the cache key, the request body, the
//!   decoder of the event stream, and the pipeline that ties them together;
//! - [`cache`]: what a cache stores, and a cache held in memory;
//! - [`chat`] and [`cli`]: what the interactive commands decide and show;
//! - [`exit`], [`input`], [`output`], [`ui`]: exit codes, the input limit,
//!   output settings and styling;
//! - [`text`], [`split`], [`name_map`]: the text and map primitives that the
//!   rest is built on.
//!
//! Every function has a contract over mathematical values: strings are
//! sequences of characters, tables are maps. The contracts are proved, except
//! for the few calls into other crates, whose contracts are stated and trusted.

pub mod cache;
pub mod chat;
pub mod cli;
pub mod config;
pub mod exit;
pub mod input;
pub mod name_map;
pub mod output;
pub mod split;
pub mod style;
pub mod text;
pub mod translation;
pub mod ui;
