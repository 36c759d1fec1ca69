//! Error values that keep their causal chain, the text renderings of such
//! chains, and a sleep that another thread can cut short.

pub mod text;
pub mod error;
pub mod laws;
pub mod thread;
