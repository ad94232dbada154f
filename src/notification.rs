//! Notices to the user, with the request to replay when one offers a retry.

use vstd::prelude::*;
use crate::time::Timestamp;

verus! {

/// How serious a notification is.
#[derive(Clone, Copy, Debug, PartialEq, Eq, Structural)]
pub enum Level {
    Notice,
    Warning,
    Error,
}

/// Name of a level.
pub open spec fn level_name(l: Level) -> Seq<char> {
    match l {
        Level::Notice => "Notice"@,
        Level::Warning => "Warning"@,
        Level::Error => "Error"@,
    }
}

/// A notification: its level, message and time, and, for a failed
/// operation, the message that replays that operation when resent.
#[derive(Clone, Debug)]
pub struct Notification<M> {
    pub level: Level,
    pub message: String,
    pub time: Timestamp,
    pub retry_message: Option<M>,
}

/// The error text of a retry on a notification that offers none.
pub open spec fn not_retryable_text(level: Level, message: Seq<char>) -> Seq<char> {
    "retry called on a non retryable notif:\n"@ + level_name(level) + ":\n"@ + message
}

impl<M> Notification<M> {
    pub fn new(level: Level, message: String, time: Timestamp) -> (r: Self)
        ensures
            r.level == level,
            r.message@ == message@,
            r.time == time,
            r.retry_message is None,
    {
        Notification { level, message, time, retry_message: None }
    }

    pub fn new_with_retry(level: Level, message: String, time: Timestamp, retry_message: M) -> (r: Self)
        ensures
            r.level == level,
            r.message@ == message@,
            r.time == time,
            r.retry_message == Some(retry_message),
    {
        Notification { level, message, time, retry_message: Some(retry_message) }
    }

    /// The message that replays the failed operation, or an error when the
    /// notification offers no retry.
    pub fn retry(&self) -> (r: Result<&M, String>)
        ensures
            match self.retry_message {
                Some(m) => r == Ok::<&M, String>(&m),
                None => r matches Err(t) && t@ == not_retryable_text(self.level, self.message@),
            },
    {
        match &self.retry_message {
            Some(m) => Ok(m),
            None => {
                let mut text = String::from_str("retry called on a non retryable notif:\n");
                let name = match self.level {
                    Level::Notice => "Notice",
                    Level::Warning => "Warning",
                    Level::Error => "Error",
                };
                text.append(name);
                text.append(":\n");
                text.append(self.message.as_str());
                Err(text)
            },
        }
    }
}

} // verus!
