pub mod bootstrap;
pub mod cli;
pub mod commands;
pub mod config;
pub mod container;
pub mod image;
pub mod json;
pub mod network;
pub mod options;
pub mod pids;
pub mod plan;
pub mod process;
pub mod runner;
pub mod text;
