//! Error taxonomy of the client runtime.
//!
//! Configuration mistakes fail fast at construction; dial and
//! authentication failures surface on connect; pool exhaustion is
//! retryable; server-side statement failures and unrepresentable
//! values each keep their own variant so callers can react.

use vstd::prelude::*;

verus! {

/// A typed error of the client runtime, carrying the message text
/// that is shown to the caller.
#[derive(Debug)]
pub enum Error {
    /// Invalid pool bounds, missing target or mutually exclusive
    /// transport-security options; raised at construction.
    Configuration(String),
    /// Dial or authentication failure while establishing the pool.
    Connect(String),
    /// All pooled connections were busy or a checkout timed out.
    PoolExhausted(String),
    /// The server rejected the statement; the server text is kept.
    ExecutionFailed(String),
    /// An input parameter could not be represented on the wire.
    TypeConversion(String),
    /// Bearer-token acquisition failed; the text holds remediation hints.
    Credential(String),
}

impl Error {
    /// The message text carried by any variant.
    pub open spec fn spec_message(&self) -> Seq<char> {
        match self {
            Error::Configuration(m) => m@,
            Error::Connect(m) => m@,
            Error::PoolExhausted(m) => m@,
            Error::ExecutionFailed(m) => m@,
            Error::TypeConversion(m) => m@,
            Error::Credential(m) => m@,
        }
    }

    /// Hands back the carried message text.
    pub fn message(&self) -> (r: String)
        ensures
            r@ == self.spec_message(),
    {
        match self {
            Error::Configuration(m) => m.clone(),
            Error::Connect(m) => m.clone(),
            Error::PoolExhausted(m) => m.clone(),
            Error::ExecutionFailed(m) => m.clone(),
            Error::TypeConversion(m) => m.clone(),
            Error::Credential(m) => m.clone(),
        }
    }

    /// True on the variant raised at construction time.
    pub fn is_configuration(&self) -> (r: bool)
        ensures
            r == (self is Configuration),
    {
        matches!(self, Error::Configuration(_))
    }
}

} // verus!
