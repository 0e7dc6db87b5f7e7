pub mod text;
pub mod time;
pub mod config;
pub mod error;
pub mod classifier;
pub mod app;
pub mod device_core;
pub mod forwarder;
pub mod server;
pub mod storage;

pub use config::Settings;
pub use error::{AppError, Result};
