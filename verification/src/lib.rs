//! A stateless gateway core for text-processing requests: it validates a
//! command, resolves an optional language code to a display name, selects a
//! model from an allow-list, and builds the exact system instruction sent to
//! an upstream completion service.
pub mod command;
pub mod errors;
pub mod language;
pub mod laws;
pub mod model;
pub mod pipeline;
pub mod prompt;
pub mod text;
