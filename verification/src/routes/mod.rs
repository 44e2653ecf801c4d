pub mod lex;
pub mod lex_batch;
pub mod health;
pub mod meta;
pub mod domains;
pub mod params;
pub mod term;
pub mod term_batch;
pub mod validate;
