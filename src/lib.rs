//! A gateway that translates chat-completion traffic between a
//! messages-style dialect with typed content blocks and an
//! OpenAI-compatible chat-completion dialect.

pub mod cli;
pub mod config;
pub mod content;
pub mod error;
pub mod gateway;
pub mod limiter;
pub mod models;
pub mod proxy;
pub mod router;
pub mod stream;
