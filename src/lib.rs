//! Prompt templating: reusable text templates with `{{name}}` placeholders,
//! resolved against bound values into finalized, role-tagged messages, and
//! the settings, inputs and answers of requests that carry them to a model.

pub mod common;
pub mod error;
pub mod openai;
pub mod pattern;
pub mod prompt;
pub mod tag;
pub mod template;
pub mod traits;
