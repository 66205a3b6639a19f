//! Token creation and storage for a lexer/parser runtime: two token
//! representations, factories that build them from lexical facts, and an
//! arena-backed factory that hands out references instead of boxes.
pub mod char_stream;
pub mod common_token_factory;
pub mod laws;
pub mod token;
