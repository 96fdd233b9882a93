//! Client library for self-hosted Umami analytics instances.
pub mod api;
pub mod commands;
pub mod config;
pub mod json;
pub mod output;
pub mod ranking;
pub mod text;
