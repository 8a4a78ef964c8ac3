//! The error that every fallible operation of Dogi reports.

use vstd::prelude::*;

verus! {

/// What kind of failure a [`DogiError`] reports.
#[derive(Clone, Copy, Debug, PartialEq, Eq, Structural)]
pub enum ErrorKind {
    DeviceNotFound,
    BackendUnavailable,
    Transport,
    Protocol,
    UnsupportedFeature,
    Config,
    InvalidArgument,
    Ui,
}

/// A failure, with the detail that the user is shown.
#[derive(Debug, PartialEq, Eq)]
pub enum DogiError {
    DeviceNotFound,
    BackendUnavailable(String),
    Transport(String),
    Protocol(String),
    UnsupportedFeature(String),
    Config(String),
    InvalidArgument(String),
    Ui(String),
}

/// An error is its kind together with its detail; a missing device has no detail.
impl View for DogiError {
    type V = (ErrorKind, Seq<char>);

    open spec fn view(&self) -> (ErrorKind, Seq<char>) {
        match self {
            DogiError::DeviceNotFound => (ErrorKind::DeviceNotFound, Seq::empty()),
            DogiError::BackendUnavailable(detail) => (ErrorKind::BackendUnavailable, detail@),
            DogiError::Transport(detail) => (ErrorKind::Transport, detail@),
            DogiError::Protocol(detail) => (ErrorKind::Protocol, detail@),
            DogiError::UnsupportedFeature(detail) => (ErrorKind::UnsupportedFeature, detail@),
            DogiError::Config(detail) => (ErrorKind::Config, detail@),
            DogiError::InvalidArgument(detail) => (ErrorKind::InvalidArgument, detail@),
            DogiError::Ui(detail) => (ErrorKind::Ui, detail@),
        }
    }
}

/// The words that stand before the detail in the message of an error.
pub open spec fn message_prefix(kind: ErrorKind) -> Seq<char> {
    match kind {
        ErrorKind::DeviceNotFound => "device not found"@,
        ErrorKind::BackendUnavailable => "backend unavailable: "@,
        ErrorKind::Transport => "transport error: "@,
        ErrorKind::Protocol => "protocol error: "@,
        ErrorKind::UnsupportedFeature => "unsupported feature: "@,
        ErrorKind::Config => "configuration error: "@,
        ErrorKind::InvalidArgument => "invalid argument: "@,
        ErrorKind::Ui => "interface error: "@,
    }
}

/// The message that the user is shown for an error.
pub open spec fn message_of(error: (ErrorKind, Seq<char>)) -> Seq<char> {
    message_prefix(error.0) + error.1
}

impl Clone for DogiError {
    fn clone(&self) -> (r: Self)
        ensures
            r@ == self@,
    {
        match self {
            DogiError::DeviceNotFound => DogiError::DeviceNotFound,
            DogiError::BackendUnavailable(d) => DogiError::BackendUnavailable(d.clone()),
            DogiError::Transport(d) => DogiError::Transport(d.clone()),
            DogiError::Protocol(d) => DogiError::Protocol(d.clone()),
            DogiError::UnsupportedFeature(d) => DogiError::UnsupportedFeature(d.clone()),
            DogiError::Config(d) => DogiError::Config(d.clone()),
            DogiError::InvalidArgument(d) => DogiError::InvalidArgument(d.clone()),
            DogiError::Ui(d) => DogiError::Ui(d.clone()),
        }
    }
}

impl DogiError {
    /// The kind of the failure.
    pub fn kind(&self) -> (r: ErrorKind)
        ensures
            r == self@.0,
    {
        match self {
            DogiError::DeviceNotFound => ErrorKind::DeviceNotFound,
            DogiError::BackendUnavailable(_) => ErrorKind::BackendUnavailable,
            DogiError::Transport(_) => ErrorKind::Transport,
            DogiError::Protocol(_) => ErrorKind::Protocol,
            DogiError::UnsupportedFeature(_) => ErrorKind::UnsupportedFeature,
            DogiError::Config(_) => ErrorKind::Config,
            DogiError::InvalidArgument(_) => ErrorKind::InvalidArgument,
            DogiError::Ui(_) => ErrorKind::Ui,
        }
    }

    /// The message that the user is shown.
    pub fn message(&self) -> (r: String)
        ensures
            r@ == message_of(self@),
    {
        let (prefix, detail): (&str, &str) = match self {
            DogiError::DeviceNotFound => ("device not found", ""),
            DogiError::BackendUnavailable(d) => ("backend unavailable: ", d.as_str()),
            DogiError::Transport(d) => ("transport error: ", d.as_str()),
            DogiError::Protocol(d) => ("protocol error: ", d.as_str()),
            DogiError::UnsupportedFeature(d) => ("unsupported feature: ", d.as_str()),
            DogiError::Config(d) => ("configuration error: ", d.as_str()),
            DogiError::InvalidArgument(d) => ("invalid argument: ", d.as_str()),
            DogiError::Ui(d) => ("interface error: ", d.as_str()),
        };
        proof {
            reveal_strlit("");
        }
        let mut r = prefix.to_owned();
        r.append(detail);
        assert(r@ == message_of(self@));
        r
    }
}

/// A failure is told by its kind and what it says.
pub proof fn law_failures_are_told(detail: String)
    ensures
        message_of((ErrorKind::DeviceNotFound, Seq::empty())) == "device not found"@,
        message_of((ErrorKind::BackendUnavailable, detail@)) == "backend unavailable: "@ + detail@,
        message_of((ErrorKind::Transport, detail@)) == "transport error: "@ + detail@,
        message_of((ErrorKind::Protocol, detail@)) == "protocol error: "@ + detail@,
        message_of((ErrorKind::UnsupportedFeature, detail@)) == "unsupported feature: "@ + detail@,
        message_of((ErrorKind::Config, detail@)) == "configuration error: "@ + detail@,
        message_of((ErrorKind::InvalidArgument, detail@)) == "invalid argument: "@ + detail@,
        message_of((ErrorKind::Ui, detail@)) == "interface error: "@ + detail@,
        DogiError::BackendUnavailable(detail)@ == (ErrorKind::BackendUnavailable, detail@),
        DogiError::Transport(detail)@ == (ErrorKind::Transport, detail@),
        DogiError::Protocol(detail)@ == (ErrorKind::Protocol, detail@),
        DogiError::UnsupportedFeature(detail)@ == (ErrorKind::UnsupportedFeature, detail@),
        DogiError::Config(detail)@ == (ErrorKind::Config, detail@),
        DogiError::InvalidArgument(detail)@ == (ErrorKind::InvalidArgument, detail@),
        DogiError::Ui(detail)@ == (ErrorKind::Ui, detail@),
        DogiError::DeviceNotFound@.0 == ErrorKind::DeviceNotFound,
{
    assert("device not found"@ + Seq::<char>::empty() =~= "device not found"@);
}

}
