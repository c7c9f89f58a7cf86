//! Errors the server reports to clients.

use vstd::prelude::*;
use vstd::string::StringExecFns;

verus! {

/// Custom error types.
#[derive(Debug)]
pub enum Error {
    Unclassified(String),
    InvalidParameters(String),
    NoUsefulPostServer,
    PostServerNotReachable(String, String),
    NoTaskRunningOnSever,
    TaskStillRunning,
    TaskFailedWithError(String),
    TriedTimesLimitedWithLastError(String),
}

/// The message each error renders to.
pub open spec fn error_message(e: Error) -> Seq<char> {
    match e {
        Error::Unclassified(s) => "unclassified error: "@ + s@,
        Error::InvalidParameters(s) => "Invalid parameters file: "@ + s@,
        Error::NoUsefulPostServer => "No useful post server for now"@,
        Error::PostServerNotReachable(srv, err) => "post server "@ + srv@
            + " is not reachable with error: "@ + err@,
        Error::NoTaskRunningOnSever => "no task running on this server"@,
        Error::TaskStillRunning => "Task is still running, not completed"@,
        Error::TaskFailedWithError(s) => "task failed with error: "@ + s@,
        Error::TriedTimesLimitedWithLastError(s) => "retried times limited with last error: "@
            + s@,
    }
}

impl Error {
    /// Render this error as the message a client sees.
    pub fn message(&self) -> (m: String)
        ensures
            m@ == error_message(*self),
    {
        match self {
            Error::Unclassified(s) => {
                let mut m = "unclassified error: ".to_owned();
                m.append(s.as_str());
                m
            },
            Error::InvalidParameters(s) => {
                let mut m = "Invalid parameters file: ".to_owned();
                m.append(s.as_str());
                m
            },
            Error::NoUsefulPostServer => "No useful post server for now".to_owned(),
            Error::PostServerNotReachable(srv, err) => {
                let mut m = "post server ".to_owned();
                m.append(srv.as_str());
                m.append(" is not reachable with error: ");
                m.append(err.as_str());
                m
            },
            Error::NoTaskRunningOnSever => "no task running on this server".to_owned(),
            Error::TaskStillRunning => "Task is still running, not completed".to_owned(),
            Error::TaskFailedWithError(s) => {
                let mut m = "task failed with error: ".to_owned();
                m.append(s.as_str());
                m
            },
            Error::TriedTimesLimitedWithLastError(s) => {
                let mut m = "retried times limited with last error: ".to_owned();
                m.append(s.as_str());
                m
            },
        }
    }
}

} // verus!
