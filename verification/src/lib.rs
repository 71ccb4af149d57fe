pub mod classify;
pub mod commands;
pub mod config;
pub mod diff;
pub mod event;
pub mod route;
pub mod text;
pub mod types;
