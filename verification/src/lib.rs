pub mod ast;
pub mod casing;
pub mod parser;
pub mod text;
pub mod writer;
pub mod lexer;
pub mod dart;
pub mod dart_generator;
