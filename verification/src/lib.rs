pub mod analyzer;
pub mod config;
pub mod crypto;
pub mod errors;
pub mod perceiver;
pub mod planner;
pub mod runner;
pub mod strutil;
