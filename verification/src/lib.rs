//! Lexical front-end of an embeddable scripting language: turns one or more
//! source-text fragments into a stream of typed, positioned tokens.
//!
//! The stream of raw tokens produced by the scanner is passed through an
//! override layer that reclassifies tokens against an embedder-supplied
//! configuration (disabled symbols and custom keywords) before it reaches
//! the consumer.

pub mod position;
pub mod chars;
pub mod error;
pub mod laws;
pub mod lexer;
pub mod model;
pub mod numbers;
pub mod scanner;
pub mod settings;
pub mod stream;
pub mod token;
