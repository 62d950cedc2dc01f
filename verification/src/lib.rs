pub mod api;
pub mod command;
pub mod config;
pub mod dispatch;
pub mod envmap;
pub mod error;
pub mod fdio;
pub mod handler;
pub mod recording;
pub mod session;
pub mod settings;
pub mod terminal;
pub mod winsize;
