//! Control plane for a desktop typing assistant: the typing configuration it
//! shares with its automation subprocess, and the supervision of that
//! subprocess.

pub mod commands;
pub mod config;
pub mod config_file;
pub mod config_layout;
pub mod discovery;
pub mod error;
pub mod events;
pub mod groq;
pub mod launch;
pub mod search;
pub mod supervisor;
