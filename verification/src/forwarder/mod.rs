pub mod infopush;
pub mod message_builder;

pub use infopush::{InfoPushClient, PushMessage, PushResponse};
