//! Extraction of TODO / FIXME annotations from source text, and the state of
//! the panel that lists them.

pub mod matcher;
pub mod scanner;
pub mod panel;
