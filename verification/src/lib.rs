//! A small command-line assistant library: it resolves a configuration
//! (API key, system prompt, model name) from file text and environment
//! overrides, builds the JSON body of a chat-completion request, and
//! extracts the reply text from the JSON the remote service returns.

pub mod chat;
pub mod cli;
pub mod errors;
pub mod config;
pub mod json;
