//! Position tracking for source text: locations, spans, and their rendering.

pub mod ast;
pub mod decimal;
