//! The translation request pipeline.

pub mod client;
pub mod digest;
pub mod json;
pub mod language;
pub mod pipeline;
pub mod prompt;
pub mod sse_parser;

pub use client::{TranslationClient, TranslationRequest};
pub use language::{supported_languages, validate_language};
pub use prompt::{build_system_prompt_with_style, SYSTEM_PROMPT_TEMPLATE};
