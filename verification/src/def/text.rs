//! The text grammars: `.def`/`.tpl` definition files and the C-style headers
//! that declare their symbolic constants.

pub mod base;
pub mod lexer;
pub mod number;
pub mod header;
pub mod symbols;
pub mod def_text;
