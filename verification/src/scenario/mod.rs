pub mod catalog;
pub mod executor;
pub mod parser;
