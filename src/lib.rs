pub mod ast;
pub mod cli_config;
pub mod environment;
pub mod interpreter;
pub mod laws;
pub mod python;
