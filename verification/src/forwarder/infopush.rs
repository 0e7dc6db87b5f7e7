use vstd::prelude::*;
use vstd::string::*;

use crate::config::InfoPushConfig;
use crate::error::AppError;

verus! {

/// A message for the InfoPush service.
#[derive(Debug, Clone)]
pub struct PushMessage {
    pub title: String,
    pub content: String,
    pub content_type: String,
    pub url: Option<String>,
}

/// What the InfoPush service answers.
#[derive(Debug, Clone)]
pub struct PushResponse {
    pub message_id: Option<String>,
    pub online_devices: Option<u32>,
}

/// What pushing does next.
#[derive(Debug)]
pub enum PushStep {
    /// Send the message (try number `attempt`, counted from 1).
    Send { attempt: u32 },
    /// Wait a second, then send the message again (try number `attempt`).
    RetryAfterPause { attempt: u32 },
    /// Pushing is over, with this outcome.
    Done { outcome: std::result::Result<PushResponse, AppError> },
}

/// Pushes messages to the InfoPush service as configured.
#[derive(Debug, Clone)]
pub struct InfoPushClient {
    config: InfoPushConfig,
}

/// The address a message is pushed to: `<server>/push/<token>`.
pub open spec fn push_url_text(c: InfoPushConfig) -> Seq<char> {
    c.server_url@ + "/push/"@ + c.push_token@
}

impl InfoPushClient {
    /// The configuration of the client.
    pub closed spec fn config(&self) -> InfoPushConfig {
        self.config
    }

    /// A client for `config`.
    pub fn new(config: InfoPushConfig) -> (c: InfoPushClient)
        ensures
            c.config() == config,
    {
        InfoPushClient { config }
    }

    /// How long a request may take, in seconds.
    pub fn timeout_secs(&self) -> (r: u64)
        ensures
            r == self.config().timeout,
    {
        self.config.timeout
    }

    /// The address a message is pushed to.
    pub fn push_url(&self) -> (r: String)
        ensures
            r@ == push_url_text(self.config()),
    {
        let mut r = self.config.server_url.clone();
        r.append("/push/");
        r.append(self.config.push_token.as_str());
        r
    }

    /// The first step of pushing: refused where no token is configured; over at
    /// once, failed, where no try is allowed; else the first try.
    pub fn push_start(&self) -> (r: PushStep)
        ensures
            self.config().push_token@.len() == 0 ==> r == (PushStep::Done {
                outcome: Err(AppError::TokenNotConfigured),
            }),
            self.config().push_token@.len() > 0 && self.config().retry_count == 0 ==> (r matches PushStep::Done {
                outcome: Err(AppError::StorageError(m)),
            } && m@ == "All retry attempts failed"@),
            self.config().push_token@.len() > 0 && self.config().retry_count > 0 ==> r == (PushStep::Send {
                attempt: 1,
            }),
    {
        if self.config.push_token.as_str().is_empty() {
            return PushStep::Done { outcome: Err(AppError::TokenNotConfigured) };
        }
        if self.config.retry_count == 0 {
            return PushStep::Done {
                outcome: Err(AppError::StorageError(String::from_str("All retry attempts failed"))),
            };
        }
        PushStep::Send { attempt: 1 }
    }

    /// The step after try number `attempt` came back with `result`: an answer ends
    /// pushing with it; an error ends pushing with it on the last allowed try, and
    /// leads to the next try after a pause before that.
    pub fn push_next(&self, attempt: u32, result: std::result::Result<PushResponse, AppError>) -> (r: PushStep)
        requires
            1 <= attempt <= self.config().retry_count,
        ensures
            match result {
                Ok(resp) => r == (PushStep::Done { outcome: Ok(resp) }),
                Err(e) => if attempt == self.config().retry_count {
                    r == (PushStep::Done { outcome: Err(e) })
                } else {
                    r == (PushStep::RetryAfterPause { attempt: (attempt + 1) as u32 })
                },
            },
    {
        match result {
            Ok(resp) => PushStep::Done { outcome: Ok(resp) },
            Err(e) => {
                if attempt == self.config.retry_count {
                    PushStep::Done { outcome: Err(e) }
                } else {
                    PushStep::RetryAfterPause { attempt: attempt + 1 }
                }
            },
        }
    }
}

/// Pushing makes at most `retry_count` tries: every try that a step asks for is
/// numbered from 1 to `retry_count`, each one more than the one before.
pub proof fn law_push_tries_bounded(c: InfoPushClient, attempt: u32, result: std::result::Result<PushResponse, AppError>, next: PushStep)
    requires
        1 <= attempt <= c.config().retry_count,
        match result {
            Ok(resp) => next == (PushStep::Done { outcome: Ok(resp) }),
            Err(e) => if attempt == c.config().retry_count {
                next == (PushStep::Done { outcome: Err(e) })
            } else {
                next == (PushStep::RetryAfterPause { attempt: (attempt + 1) as u32 })
            },
        },
    ensures
        next matches PushStep::RetryAfterPause { attempt: a } ==> a == attempt + 1 && a
            <= c.config().retry_count,
        next matches PushStep::Send { .. } ==> false,
        result is Ok ==> next is Done,
{
}

} // verus!
