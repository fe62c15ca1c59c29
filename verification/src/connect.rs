//! Establishing a connection: finding the path of i3's socket, then opening the socket.
//!
//! The path is the value of the environment variable `I3SOCK` where it has one, and otherwise what
//! `i3 --get-socketpath` prints.

use vstd::prelude::*;

use crate::error::{other_error, other_error_of, EstablishError};
use crate::text::{
    debug_bytes, debug_text, from_utf8_lossy, lossy, trim_newlines, without_trailing_newlines,
};

verus! {

/// What is said of an `i3 --get-socketpath` that failed and printed `stderr`.
pub open spec fn socket_path_complaint(stderr: Seq<u8>) -> Seq<char> {
    if stderr.len() > 0 {
        "i3 --getsocketpath didn't return 0"@ + ". stderr: "@ + debug_text(stderr)
    } else {
        "i3 --getsocketpath didn't return 0"@
    }
}

/// The path in what `i3 --get-socketpath` printed, or what to say if it failed.
pub fn socket_path_from_output(success: bool, stdout: &Vec<u8>, stderr: &Vec<u8>) -> (r: Result<
    String,
    String,
>)
    ensures
        success ==> r is Ok && r->Ok_0@ == without_trailing_newlines(lossy(stdout@)),
        !success ==> r is Err && r->Err_0@ == socket_path_complaint(stderr@),
{
    if success {
        let text = from_utf8_lossy(stdout.as_slice());
        Ok(trim_newlines(text.as_str()).to_owned())
    } else {
        let mut complaint: String = "i3 --getsocketpath didn't return 0".to_owned();
        if stderr.len() > 0 {
            complaint.append(". stderr: ");
            complaint.append(debug_bytes(stderr).as_str());
        }
        Err(complaint)
    }
}

/// How far a connection has been established.
#[derive(Debug, Clone, Copy)]
pub enum Connector {
    /// The environment has to be looked at.
    Environment,
    /// i3 has been asked for the path.
    Asking,
    /// The socket is being opened.
    Opening,
    /// There is a connection, or there will be none.
    Finished,
}

/// What came of the last task.
#[derive(Debug)]
pub enum Report {
    /// The value of `I3SOCK`, if it has one that is text.
    Environment(Option<String>),
    /// i3 ran to its end, with this status and these outputs.
    Answered { success: bool, stdout: Vec<u8>, stderr: Vec<u8> },
    /// The socket is open.
    Opened,
    /// The task failed.
    Failed(std::io::Error),
}

/// What has to be done next.
#[derive(Debug)]
pub enum Task {
    /// Run `i3 --get-socketpath`.
    AskI3,
    /// Open the socket with this path.
    Open(String),
    /// Nothing: the connection stands.
    Done,
    /// Nothing: there is no connection.
    GiveUp(EstablishError),
}

impl Connector {
    /// Whether `report` is about the task at hand.
    pub open spec fn expects(self, report: Report) -> bool {
        match self {
            Connector::Environment => report is Environment,
            Connector::Asking => report is Answered || report is Failed,
            Connector::Opening => report is Opened || report is Failed,
            Connector::Finished => false,
        }
    }

    /// Decides what to do next.
    ///
    /// A path from the environment is used as it is. Whatever goes wrong before there is a path is
    /// a `GetSocketPathError`, whatever goes wrong after that a `SocketError`.
    pub fn step(self, report: Report) -> (r: (Connector, Task))
        requires
            self.expects(report),
        ensures
            match report {
                Report::Environment(Some(path)) => r == (Connector::Opening, Task::Open(path)),
                Report::Environment(None) => r == (Connector::Asking, Task::AskI3),
                Report::Answered { success: true, stdout, .. } => {
                    &&& r.0 == Connector::Opening
                    &&& r.1 is Open
                    &&& r.1->Open_0@ == without_trailing_newlines(lossy(stdout@))
                },
                Report::Answered { success: false, stderr, .. } => {
                    r == (
                        Connector::Finished,
                        Task::GiveUp(
                            EstablishError::GetSocketPathError(
                                other_error_of(socket_path_complaint(stderr@)),
                            ),
                        ),
                    )
                },
                Report::Opened => r == (Connector::Finished, Task::Done),
                Report::Failed(e) => {
                    &&& r.0 == Connector::Finished
                    &&& r.1 == if self == Connector::Asking {
                        Task::GiveUp(EstablishError::GetSocketPathError(e))
                    } else {
                        Task::GiveUp(EstablishError::SocketError(e))
                    }
                },
            },
    {
        match report {
            Report::Environment(Some(path)) => (Connector::Opening, Task::Open(path)),
            Report::Environment(None) => (Connector::Asking, Task::AskI3),
            Report::Answered { success, stdout, stderr } => {
                match socket_path_from_output(success, &stdout, &stderr) {
                    Ok(path) => (Connector::Opening, Task::Open(path)),
                    Err(complaint) => {
                        let e = other_error(complaint);
                        (Connector::Finished, Task::GiveUp(EstablishError::GetSocketPathError(e)))
                    },
                }
            },
            Report::Opened => (Connector::Finished, Task::Done),
            Report::Failed(e) => {
                if matches!(self, Connector::Asking) {
                    (Connector::Finished, Task::GiveUp(EstablishError::GetSocketPathError(e)))
                } else {
                    (Connector::Finished, Task::GiveUp(EstablishError::SocketError(e)))
                }
            },
        }
    }
}

} // verus!
