//! The ways a call to the service can fail.

use vstd::prelude::*;

verus! {

/// A failed call: the transport, the service's status, the body's shape, or
/// the configured time limit.
#[derive(Clone, Debug)]
pub enum SdkError {
    /// The transport could not complete the exchange.
    Network(String),
    /// The service answered with a status outside 200..=299.
    Api(String),
    /// A body could not be encoded or decoded into the expected shape.
    Serialization(String),
    /// The exchange took longer than the configured limit.
    Timeout,
}

/// The prefix of each variant's text, before its detail.
pub open spec fn error_prefix(e: SdkError) -> Seq<char> {
    match e {
        SdkError::Network(_) => "network error: "@,
        SdkError::Api(_) => "API error: "@,
        SdkError::Serialization(_) => "serialization error: "@,
        SdkError::Timeout => "timeout"@,
    }
}

/// The detail that a variant carries; empty for `Timeout`.
pub open spec fn error_detail(e: SdkError) -> Seq<char> {
    match e {
        SdkError::Network(d) => d@,
        SdkError::Api(d) => d@,
        SdkError::Serialization(d) => d@,
        SdkError::Timeout => Seq::empty(),
    }
}

impl SdkError {
    /// Classifies a transport failure: one the transport reports as a time
    /// limit becomes `Timeout`, any other `Network` with the transport's text.
    pub fn from_transport(timed_out: bool, detail: String) -> (e: SdkError)
        ensures
            timed_out ==> e is Timeout,
            !timed_out ==> (e is Network && error_detail(e) == detail@),
    {
        if timed_out {
            SdkError::Timeout
        } else {
            SdkError::Network(detail)
        }
    }

    /// The error as text: its kind, then its detail.
    pub fn message(&self) -> (s: String)
        ensures
            s@ == error_prefix(*self) + error_detail(*self),
    {
        match self {
            SdkError::Network(d) => "network error: ".to_owned().concat(d.as_str()),
            SdkError::Api(d) => "API error: ".to_owned().concat(d.as_str()),
            SdkError::Serialization(d) => "serialization error: ".to_owned().concat(d.as_str()),
            SdkError::Timeout => {
                let s = "timeout".to_owned();
                assert(s@ + Seq::<char>::empty() =~= s@);
                s
            },
        }
    }
}

} // verus!
