//! Per-conversation chat context for a text-generation agent.
//!
//! The library keeps an ordered dual log of human and agent turns under a
//! bounded token budget, renders that context into a prompt for a remote
//! completion service, interprets in-band configuration commands, and
//! stitches multi-part completions into a single reply.

pub mod commands;
pub mod completion;
pub mod history;
pub mod numbers;
pub mod registry;
pub mod render;
pub mod text;
pub mod tokens;

pub use completion::{Choice, Completion, CompletionRequestParams, FinishReason, GPT3Client, Model};
