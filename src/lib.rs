//! An adapter for the AI21 text-generation service: request construction,
//! response classification with retry policies, and normalization of the
//! vendor's completions into a shared generation model.

pub mod ai21;
pub mod credentials;
pub mod laws;
pub mod model;
pub mod uri;
