//! The library's error type: a registry that cannot be reached, or one that
//! was reached but whose answer could not be used.
use vstd::prelude::*;

use crate::remote::{
    builder_flag, cause_with_context, connect_flag, error_reason, error_url, failure_cause,
    message_cause, reason_text, shown_text, url_text, wrapped_error,
};

verus! {

/// The two ways a request to the registry can fail.
#[derive(Debug)]
pub enum AduanaError {
    /// The registry could not be reached, or the client could not be
    /// configured for the request: the URL concerned (`"invalid"` when none
    /// could be extracted) and the reason.
    Connection { url: String, reason: String },
    /// The registry was reached, but something about its answer or the later
    /// processing failed.
    Runtime(anyhow::Error),
}

/// The URL that a connection failure reports: the request's URL, or the
/// placeholder `"invalid"` when none could be extracted.
pub open spec fn reported_url(url: Option<Seq<char>>) -> Seq<char> {
    match url {
        Some(u) => u,
        None => "invalid"@,
    }
}

/// The characters of an optional string.
pub open spec fn opt_view(s: Option<String>) -> Option<Seq<char>> {
    match s {
        Some(t) => Some(t@),
        None => None,
    }
}

impl AduanaError {
    /// A connection failure for `url` (or `"invalid"`) with the given reason.
    pub fn connection(url: Option<String>, reason: String) -> (r: Self)
        ensures
            r is Connection,
            r->Connection_url@ == reported_url(opt_view(url)),
            r->Connection_reason == reason,
    {
        let url = match url {
            Some(u) => u,
            None => String::from_str("invalid"),
        };
        AduanaError::Connection { url, reason }
    }

    /// Classifies a transport failure from what it reports of itself: a
    /// failure to connect or to build the client or request is a connection
    /// failure; anything else is a runtime failure carrying `cause`.
    pub fn from_transport(
        connect: bool,
        builder: bool,
        url: Option<String>,
        reason: String,
        cause: anyhow::Error,
    ) -> (r: Self)
        ensures
            (connect || builder) ==> r is Connection && r->Connection_url@ == reported_url(
                opt_view(url),
            ) && r->Connection_reason == reason,
            !(connect || builder) ==> r == AduanaError::Runtime(cause),
    {
        if connect || builder {
            Self::connection(url, reason)
        } else {
            AduanaError::Runtime(cause)
        }
    }

    /// Classifies a failure reported by the HTTP client: a failure to
    /// connect or to build the client or request is a connection failure
    /// that carries the request's URL (or `"invalid"`) and the client's
    /// description; anything else is a runtime failure.
    pub fn from_reqwest(error: reqwest::Error) -> (r: Self)
        ensures
            (r is Connection) == (connect_flag(error) || builder_flag(error)),
            r is Connection ==> r->Connection_url@ == reported_url(url_text(error))
                && r->Connection_reason@ == reason_text(error)
                && r->Connection_reason@.len() > 0,
    {
        let connect = error.is_connect();
        let builder = error.is_builder();
        let url = error_url(&error);
        let reason = error_reason(&error);
        let cause = failure_cause(error);
        Self::from_transport(connect, builder, url, reason, cause)
    }

    /// A runtime failure: `error` under the message `context`. A failure that
    /// is given context is never a connection failure, whatever its kind.
    pub fn with_context(error: reqwest::Error, context: &str) -> (r: Self)
        ensures
            r is Runtime,
            shown_text(r->Runtime_0) == context@,
            wrapped_error(r->Runtime_0) == Some(error),
    {
        AduanaError::Runtime(cause_with_context(error, context))
    }

    /// A runtime failure that shows `message` and wraps no other failure.
    pub fn runtime(message: &str) -> (r: Self)
        ensures
            r is Runtime,
            shown_text(r->Runtime_0) == message@,
            wrapped_error(r->Runtime_0) is None,
    {
        AduanaError::Runtime(message_cause(message))
    }
}

} // verus!
