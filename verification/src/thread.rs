//! Thread utilities.

pub mod cancelable;
