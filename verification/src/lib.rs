//! Randomised flavour text: sentence templates whose `{category}` slots are
//! filled from a bank of word lists, and compound titles put together clause
//! by clause.
//!
//! - [`words`]: the word bank and sampling from it.
//! - [`forms`]: sentence templates and their resolution.
//! - [`well_formed`]: what resolution makes of a well-formed template.
//! - [`generator`]: the title composer.
//! - [`text`]: searching and splicing character sequences.
//! - [`random`], [`builder`]: the random source and the byte buffer, which
//!   are taken from other crates and trusted.

pub mod builder;
pub mod forms;
pub mod generator;
pub mod random;
pub mod text;
pub mod well_formed;
pub mod words;
