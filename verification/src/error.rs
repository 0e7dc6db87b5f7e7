use vstd::prelude::*;

verus! {

/// The errors of the server.
#[derive(Debug, Clone, PartialEq)]
pub enum AppError {
    /// Reading or writing failed; the text says why.
    IoError(String),
    /// The phone is not attached, or `adb` refused it.
    DeviceNotConnected,
    /// No push token is configured.
    TokenNotConfigured,
    /// Storing failed; the text says why.
    StorageError(String),
    /// The database failed; the text says why.
    DatabaseError(String),
    /// A request over HTTP failed; the text says why.
    HttpError(String),
}

/// The results of the server.
pub type Result<T> = std::result::Result<T, AppError>;

} // verus!
