//! The failures that the runtime client, the console adapter and the
//! controller can report.

use vstd::prelude::*;
use vstd::string::*;

verus! {

/// Why a request could not be carried out.
#[derive(Debug, Clone, PartialEq, Eq)]
pub enum Error {
    /// No container matches the identity rule.
    TargetNotFound,
    /// More than one container matches the identity rule.
    TargetAmbiguous,
    /// A command was to run inside a container that is not running.
    NotRunning,
    /// The console ran the command and answered nothing.
    NoResponse,
    /// The runtime failed while listing containers or running a command.
    RuntimeExecFailed(String),
    /// The runtime refused to start the container.
    StartFailed(String),
    /// The runtime refused to stop the container.
    StopFailed(String),
    /// The captured output is not UTF-8 text.
    InvalidOutputEncoding,
    /// The host could not say how much memory is free.
    HostMetricsFailed(String),
    /// An event arrived that does not answer the action last issued.
    UnexpectedEvent,
}

/// The mathematical value of an [`Error`].
pub enum ErrorModel {
    TargetNotFound,
    TargetAmbiguous,
    NotRunning,
    NoResponse,
    RuntimeExecFailed(Seq<char>),
    StartFailed(Seq<char>),
    StopFailed(Seq<char>),
    InvalidOutputEncoding,
    HostMetricsFailed(Seq<char>),
    UnexpectedEvent,
}

impl View for Error {
    type V = ErrorModel;

    open spec fn view(&self) -> ErrorModel {
        match self {
            Error::TargetNotFound => ErrorModel::TargetNotFound,
            Error::TargetAmbiguous => ErrorModel::TargetAmbiguous,
            Error::NotRunning => ErrorModel::NotRunning,
            Error::NoResponse => ErrorModel::NoResponse,
            Error::RuntimeExecFailed(cause) => ErrorModel::RuntimeExecFailed(cause@),
            Error::StartFailed(cause) => ErrorModel::StartFailed(cause@),
            Error::StopFailed(cause) => ErrorModel::StopFailed(cause@),
            Error::InvalidOutputEncoding => ErrorModel::InvalidOutputEncoding,
            Error::HostMetricsFailed(cause) => ErrorModel::HostMetricsFailed(cause@),
            Error::UnexpectedEvent => ErrorModel::UnexpectedEvent,
        }
    }
}

/// The mathematical value of a result that may have failed.
pub open spec fn outcome<T: View>(result: Result<T, Error>) -> Result<T::V, ErrorModel> {
    match result {
        Ok(value) => Ok(value@),
        Err(error) => Err(error@),
    }
}

impl ErrorModel {
    /// The text shown to the requester for this failure.
    pub open spec fn message(self) -> Seq<char> {
        match self {
            ErrorModel::TargetNotFound => "No container found"@,
            ErrorModel::TargetAmbiguous => "More than one container found"@,
            ErrorModel::NotRunning => "Container not running"@,
            ErrorModel::NoResponse => "No rcon response"@,
            ErrorModel::RuntimeExecFailed(cause) => "Container runtime failed: "@ + cause,
            ErrorModel::StartFailed(cause) => "Failed to start container: "@ + cause,
            ErrorModel::StopFailed(cause) => "Failed to stop container: "@ + cause,
            ErrorModel::InvalidOutputEncoding => "Command output is not valid UTF-8"@,
            ErrorModel::HostMetricsFailed(cause) => "Failed to read host memory: "@ + cause,
            ErrorModel::UnexpectedEvent => "Unexpected event"@,
        }
    }
}

impl Error {
    /// The text shown to the requester for this failure; a cause reported
    /// by the runtime is kept word for word.
    pub fn message(&self) -> (text: String)
        ensures
            text@ == self@.message(),
    {
        match self {
            Error::TargetNotFound => "No container found".to_owned(),
            Error::TargetAmbiguous => "More than one container found".to_owned(),
            Error::NotRunning => "Container not running".to_owned(),
            Error::NoResponse => "No rcon response".to_owned(),
            Error::RuntimeExecFailed(cause) => "Container runtime failed: ".to_owned().concat(
                cause.as_str(),
            ),
            Error::StartFailed(cause) => "Failed to start container: ".to_owned().concat(
                cause.as_str(),
            ),
            Error::StopFailed(cause) => "Failed to stop container: ".to_owned().concat(
                cause.as_str(),
            ),
            Error::InvalidOutputEncoding => "Command output is not valid UTF-8".to_owned(),
            Error::HostMetricsFailed(cause) => "Failed to read host memory: ".to_owned().concat(
                cause.as_str(),
            ),
            Error::UnexpectedEvent => "Unexpected event".to_owned(),
        }
    }
}

} // verus!
