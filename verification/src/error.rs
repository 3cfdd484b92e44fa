//! Error values returned by the client's operations.
//!
//! The taxonomy is flat: transport failures, bodies that do not decode,
//! the two rate-limit outcomes, and any other unexpected HTTP status.

use vstd::prelude::*;
use vstd::string::*;

use crate::text::nat_digits;

verus! {

/// Error values that an operation against the API can produce.
#[derive(Debug)]
pub enum AmberError {
    /// Network-level failure (DNS, connection, TLS, timeout), carried as text.
    /// Never retried by this layer.
    Transport(String),
    /// The response body is not valid JSON or does not match the expected
    /// tagged shape.
    Deserialization(String),
    /// HTTP 429 received while automatic retries are disabled. Carries the
    /// number of seconds to wait before trying again.
    RateLimitExceeded(u64),
    /// HTTP 429 received repeatedly until the retry budget was spent.
    RateLimitExhausted {
        /// Number of retries that were made before giving up.
        attempts: u32,
        /// Number of seconds to wait before trying again.
        retry_after: u64,
    },
    /// Any other non-2xx status, with the response body as text.
    UnexpectedStatus {
        /// The HTTP status code of the response.
        status: u16,
        /// The response body (possibly a placeholder when unreadable).
        body: String,
    },
}

/// Mathematical image of an [`AmberError`]: strings become char sequences.
pub enum AmberErrorV {
    Transport(Seq<char>),
    Deserialization(Seq<char>),
    RateLimitExceeded(u64),
    RateLimitExhausted { attempts: u32, retry_after: u64 },
    UnexpectedStatus { status: u16, body: Seq<char> },
}

impl View for AmberError {
    type V = AmberErrorV;

    open spec fn view(&self) -> AmberErrorV {
        match self {
            AmberError::Transport(m) => AmberErrorV::Transport(m@),
            AmberError::Deserialization(m) => AmberErrorV::Deserialization(m@),
            AmberError::RateLimitExceeded(s) => AmberErrorV::RateLimitExceeded(*s),
            AmberError::RateLimitExhausted { attempts, retry_after } => {
                AmberErrorV::RateLimitExhausted {
                    attempts: *attempts,
                    retry_after: *retry_after,
                }
            },
            AmberError::UnexpectedStatus { status, body } => {
                AmberErrorV::UnexpectedStatus { status: *status, body: body@ }
            },
        }
    }
}

/// The one-line wording of an error.
pub open spec fn spec_error_message(e: AmberErrorV) -> Seq<char> {
    match e {
        AmberErrorV::Transport(m) => "HTTP request failed: "@.add(m),
        AmberErrorV::Deserialization(m) => "Failed to decode response body: "@.add(m),
        AmberErrorV::RateLimitExceeded(s) => "Rate limit exceeded. Retry after "@.add(
            nat_digits(s as nat),
        ).add(" seconds"@),
        AmberErrorV::RateLimitExhausted { attempts, retry_after } => "Rate limit exceeded after "@
            .add(nat_digits(attempts as nat)).add(" retry attempts. Last retry-after: "@).add(
            nat_digits(retry_after as nat),
        ).add(" seconds"@),
        AmberErrorV::UnexpectedStatus { status, body } => "HTTP "@.add(
            nat_digits(status as nat),
        ).add(": "@).add(body),
    }
}

impl AmberError {
    /// Renders the error's one-line wording.
    pub fn message(&self) -> (r: String)
        ensures
            r@ == spec_error_message(self@),
    {
        match self {
            AmberError::Transport(m) => {
                let mut s = String::from_str("HTTP request failed: ");
                s.append(m.as_str());
                s
            },
            AmberError::Deserialization(m) => {
                let mut s = String::from_str("Failed to decode response body: ");
                s.append(m.as_str());
                s
            },
            AmberError::RateLimitExceeded(secs) => {
                let mut s = String::from_str("Rate limit exceeded. Retry after ");
                let n = crate::decimal::u64_string(*secs);
                s.append(n.as_str());
                s.append(" seconds");
                s
            },
            AmberError::RateLimitExhausted { attempts, retry_after } => {
                let mut s = String::from_str("Rate limit exceeded after ");
                let a = crate::text::u32_string(*attempts);
                s.append(a.as_str());
                s.append(" retry attempts. Last retry-after: ");
                let w = crate::decimal::u64_string(*retry_after);
                s.append(w.as_str());
                s.append(" seconds");
                s
            },
            AmberError::UnexpectedStatus { status, body } => {
                let mut s = String::from_str("HTTP ");
                let st = crate::text::u32_string(*status as u32);
                s.append(st.as_str());
                s.append(": ");
                s.append(body.as_str());
                s
            },
        }
    }
}

} // verus!
