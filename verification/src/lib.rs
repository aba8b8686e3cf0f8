//! A lexical analyser for a Pascal-family language.
//!
//! The library splits a complete source string into lexemes by a fixed
//! maximal-munch grammar and classifies each lexeme as an operator, symbol,
//! keyword, number, identifier, or error token.

pub mod classify;
pub mod scan;
pub mod token;

pub use classify::parse;
pub use scan::regexes;
pub use token::Token;
pub use token::TokenType;
