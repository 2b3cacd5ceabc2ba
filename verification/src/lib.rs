//! Verified core of the glossa speech-to-text daemon.

pub mod actor;
pub mod audio;
pub mod capture;
pub mod cli;
pub mod command;
pub mod config;
pub mod daemon;
pub mod error;
pub mod ids;
pub mod machine;
pub mod pipeline;
pub mod ports;
pub mod service;
pub mod state;
pub mod status;
pub mod text;
pub mod trim;
