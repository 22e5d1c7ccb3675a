//! Middleware settings for outbound requests, and the stack of middleware that they describe.

pub mod adaptive_concurrency;
pub mod concurrency;
pub mod config;
pub mod layer;
pub mod laws;
pub mod middleware;
pub mod retries;
pub mod settings;
pub mod stack;
pub mod time;
