pub mod models;

pub use models::SmsRecord;
