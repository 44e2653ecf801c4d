pub mod lex;
pub mod meta;
pub mod term;
