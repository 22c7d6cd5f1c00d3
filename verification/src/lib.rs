pub mod catalog;
pub mod client;
pub mod config;
pub mod discovery;
pub mod evaluations;
pub mod junit;
pub mod orchestrator;
pub mod pattern;
pub mod response;
pub mod text;
