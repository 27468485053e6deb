pub mod config;
pub mod paint;
pub mod probe;
pub mod text;
