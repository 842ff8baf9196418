//! Decision logic of a time-to-first-token probe for chat-completion endpoints.

pub mod model;
pub mod text;
pub mod url;
pub mod loose;
pub mod json;
pub mod attempt;
pub mod retry;
pub mod probe;
