//! Text-to-speech test runs: test cases, speech generation requests,
//! execution and export.
pub mod config;
pub mod csv_parser;
pub mod exporter;
pub mod generator;
pub mod runner;
pub mod types;
