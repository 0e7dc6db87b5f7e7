use vstd::prelude::*;

verus! {

/// The whole configuration of the server.
#[derive(Debug, Clone)]
pub struct Settings {
    pub server: ServerConfig,
    pub adb: AdbConfig,
    pub infopush: InfoPushConfig,
    pub storage: StorageConfig,
    pub classifier: ClassifierConfig,
    pub logging: LoggingConfig,
}

/// Where the TCP server listens.
#[derive(Debug, Clone)]
pub struct ServerConfig {
    pub listen_host: String,
    pub listen_port: u16,
    pub workers: usize,
}

/// Where the `adb` tool lives.
#[derive(Debug, Clone)]
pub struct AdbConfig {
    pub path: String,
    pub device_timeout: u64,
}

/// How messages are pushed on to the InfoPush service.
#[derive(Debug, Clone)]
pub struct InfoPushConfig {
    pub enabled: bool,
    pub server_url: String,
    pub push_token: String,
    pub timeout: u64,
    pub retry_count: u32,
}

/// Where messages are stored.
#[derive(Debug, Clone)]
pub struct StorageConfig {
    pub storage_type: String,
    pub path: String,
}

/// The classifier's rules, each under the name of the category it is for, in the
/// order in which they were read.
#[derive(Debug, Clone)]
pub struct ClassifierConfig {
    pub enabled: bool,
    pub rules: Vec<(String, CategoryRule)>,
}

/// The keywords and regular expressions of one category.
#[derive(Debug, Clone)]
pub struct CategoryRule {
    pub keywords: Vec<String>,
    pub patterns: Option<Vec<String>>,
}

/// Logging level and file.
#[derive(Debug, Clone)]
pub struct LoggingConfig {
    pub level: String,
    pub file: String,
}

impl Settings {
    /// Lets a token from the environment take the place of the configured push token.
    pub fn apply_push_token(&mut self, token: Option<String>)
        ensures
            final(self).infopush.push_token == (match token {
                Some(t) => t,
                None => old(self).infopush.push_token,
            }),
            final(self).infopush.enabled == old(self).infopush.enabled,
            final(self).infopush.server_url == old(self).infopush.server_url,
            final(self).infopush.timeout == old(self).infopush.timeout,
            final(self).infopush.retry_count == old(self).infopush.retry_count,
            final(self).server == old(self).server,
            final(self).adb == old(self).adb,
            final(self).storage == old(self).storage,
            final(self).classifier == old(self).classifier,
            final(self).logging == old(self).logging,
    {
        if let Some(t) = token {
            self.infopush.push_token = t;
        }
    }
}

} // verus!
