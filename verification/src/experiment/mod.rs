pub mod manifest;
pub mod runner;
