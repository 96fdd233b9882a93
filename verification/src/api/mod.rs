//! Talking to the Umami API.
pub mod client;
pub mod http;

pub use client::{ApiError, UmamiClient};
