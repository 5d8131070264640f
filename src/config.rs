pub mod config;
pub mod defaults;
pub mod reader;
pub mod pattern;
