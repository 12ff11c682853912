use vstd::prelude::*;

verus! {

/// What can go wrong in this library and around it. The text of each variant
/// is the message of the failure it stands for.
#[derive(Debug, PartialEq)]
pub enum LangSmithError {
    Config(String),
    Http(String),
    Serialization(String),
    TracingDisabled,
    InvalidUuid(String),
    AlreadyEnded,
    Other(String),
}

/// The message of an error, as it is shown and as it is recorded on a run.
pub open spec fn error_message(e: LangSmithError) -> Seq<char> {
    match e {
        LangSmithError::Config(s) => "Configuration error: "@ + s@,
        LangSmithError::Http(s) => "HTTP error: "@ + s@,
        LangSmithError::Serialization(s) => "Serialization error: "@ + s@,
        LangSmithError::TracingDisabled => "Tracing is disabled"@,
        LangSmithError::InvalidUuid(s) => "Invalid UUID: "@ + s@,
        LangSmithError::AlreadyEnded => "Run has already ended"@,
        LangSmithError::Other(s) => "Other error: "@ + s@,
    }
}

fn joined(head: &str, tail: &String) -> (r: String)
    ensures
        r@ == head@ + tail@,
{
    let mut s = head.to_string();
    s.append(tail.as_str());
    s
}

impl Clone for LangSmithError {
    fn clone(&self) -> (r: Self)
        ensures
            r == *self,
    {
        match self {
            LangSmithError::Config(s) => LangSmithError::Config(s.clone()),
            LangSmithError::Http(s) => LangSmithError::Http(s.clone()),
            LangSmithError::Serialization(s) => LangSmithError::Serialization(s.clone()),
            LangSmithError::TracingDisabled => LangSmithError::TracingDisabled,
            LangSmithError::InvalidUuid(s) => LangSmithError::InvalidUuid(s.clone()),
            LangSmithError::AlreadyEnded => LangSmithError::AlreadyEnded,
            LangSmithError::Other(s) => LangSmithError::Other(s.clone()),
        }
    }
}

impl LangSmithError {
    /// The message of this error (see `error_message`).
    pub fn message(&self) -> (r: String)
        ensures
            r@ == error_message(*self),
    {
        match self {
            LangSmithError::Config(s) => joined("Configuration error: ", s),
            LangSmithError::Http(s) => joined("HTTP error: ", s),
            LangSmithError::Serialization(s) => joined("Serialization error: ", s),
            LangSmithError::TracingDisabled => "Tracing is disabled".to_string(),
            LangSmithError::InvalidUuid(s) => joined("Invalid UUID: ", s),
            LangSmithError::AlreadyEnded => "Run has already ended".to_string(),
            LangSmithError::Other(s) => joined("Other error: ", s),
        }
    }
}

} // verus!
