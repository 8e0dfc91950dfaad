//! Requests to OpenAI's models: their settings, inputs and answers.

pub mod config;
pub mod kind;
pub mod input;
pub mod error;
pub mod model;
pub mod stream;
