pub mod category;
pub mod rules;

pub use category::SmsCategory;
pub use rules::SmsClassifier;
