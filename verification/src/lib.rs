//! Lexical analysis for the Zinc language, with machine-checked contracts.
//!
//! The crate turns source text into a sequence of classified tokens:
//!
//! - [`lexis`] states, as mathematics, which tokens a source holds;
//! - [`tokenizer`] computes them, and is proved to compute exactly those;
//! - [`token`] holds the tokens and the errors;
//! - [`chars`] names the Unicode character classes that the scanner sorts by;
//! - [`zlog`] composes the diagnostics, [`settings`] holds the flags that
//!   steer them, and [`decimal`] writes their numbers;
//! - [`parser`] is the cursor from which a parser will grow.

pub mod chars;
pub mod decimal;
pub mod token;
pub mod lexis;
pub mod parser;
pub mod settings;
pub mod tokenizer;
pub mod zlog;
