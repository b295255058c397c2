//! The decisions that the `#[async]` attribute and its kin take when they
//! rewrite a function: which arguments get a fresh name, what the attribute
//! arguments and the return type select, which loops are expanded, and how
//! spans and placeholders are handed out over generated tokens.
//!
//! The functions here work on plain models of the syntax they look at; the
//! token streams themselves are read and written around them.

pub mod args;
pub mod attrs;
pub mod input;
pub mod plan;
pub mod read;
pub mod text;
pub mod tokens;
