//! GGUF text-generation models.

pub mod generator;

pub use generator::{ChatMessage, ChatRole, GgufGenerator};
