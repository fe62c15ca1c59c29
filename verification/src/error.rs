//! What can go wrong between this side and i3.

use vstd::prelude::*;

verus! {

/// `std::io::Error`, what is wrong with a socket or a process.
#[verifier::external_type_specification]
#[verifier::external_body]
pub struct ExIoError(std::io::Error);

/// The error of kind `Other` that `std::io::Error::new` makes of `text`.
pub uninterp spec fn other_error_of(text: Seq<char>) -> std::io::Error;

/// `std::io::Error::new` with the kind `Other`: an error that carries `text`, and depends on
/// nothing else.
#[verifier::external_body]
pub(crate) fn other_error(text: String) -> (r: std::io::Error)
    ensures
        r == other_error_of(text@),
{
    std::io::Error::new(std::io::ErrorKind::Other, text)
}

/// An error initializing a connection.
///
/// It first involves getting the i3 socket path, then connecting to the socket. Either part could
/// go wrong, which is why there are two possibilities here.
#[derive(Debug)]
pub enum EstablishError {
    /// An error while getting the socket path.
    GetSocketPathError(std::io::Error),
    /// An error while accessing the socket.
    SocketError(std::io::Error),
}

impl EstablishError {
    /// What went wrong, in words.
    pub open spec fn text(self) -> Seq<char> {
        match self {
            EstablishError::GetSocketPathError(_) => "Couldn't determine i3's socket path"@,
            EstablishError::SocketError(_) => "Found i3's socket path but failed to connect"@,
        }
    }

    /// What went wrong, in words.
    pub fn description(&self) -> (r: &'static str)
        ensures
            r@ == self.text(),
    {
        match *self {
            EstablishError::GetSocketPathError(_) => "Couldn't determine i3's socket path",
            EstablishError::SocketError(_) => "Found i3's socket path but failed to connect",
        }
    }

    /// The error behind this one. There always is one.
    pub fn cause(&self) -> (r: Option<&std::io::Error>)
        ensures
            r == match *self {
                EstablishError::GetSocketPathError(e) => Some(&e),
                EstablishError::SocketError(e) => Some(&e),
            },
    {
        match self {
            EstablishError::GetSocketPathError(e) => Some(e),
            EstablishError::SocketError(e) => Some(e),
        }
    }

    /// The description, as it is shown to a user.
    pub fn to_string(&self) -> (r: String)
        ensures
            r@ == self.text(),
    {
        self.description().to_owned()
    }
}

/// An error sending or receiving a message.
#[derive(Debug)]
pub enum MessageError {
    /// Network error sending the message.
    Send(std::io::Error),
    /// Network error receiving the response.
    Receive(std::io::Error),
    /// Got the response but couldn't parse the JSON.
    JsonCouldntParse(serde_json::Error),
}

/// The error behind a `MessageError`.
#[derive(Debug)]
pub enum Cause<'a> {
    Io(&'a std::io::Error),
    Json(&'a serde_json::Error),
}

impl MessageError {
    /// What went wrong, in words.
    pub open spec fn text(self) -> Seq<char> {
        match self {
            MessageError::Send(_) => "Network error while sending message to i3"@,
            MessageError::Receive(_) => "Network error while receiving message from i3"@,
            MessageError::JsonCouldntParse(
                _,
            ) => "Got a response from i3 but couldn't parse the JSON"@,
        }
    }

    /// What went wrong, in words.
    pub fn description(&self) -> (r: &'static str)
        ensures
            r@ == self.text(),
    {
        match *self {
            MessageError::Send(_) => "Network error while sending message to i3",
            MessageError::Receive(_) => "Network error while receiving message from i3",
            MessageError::JsonCouldntParse(
                _,
            ) => "Got a response from i3 but couldn't parse the JSON",
        }
    }

    /// The error behind this one. There always is one.
    pub fn cause(&self) -> (r: Option<Cause<'_>>)
        ensures
            r == match *self {
                MessageError::Send(e) => Some(Cause::Io(&e)),
                MessageError::Receive(e) => Some(Cause::Io(&e)),
                MessageError::JsonCouldntParse(e) => Some(Cause::Json(&e)),
            },
    {
        match self {
            MessageError::Send(e) => Some(Cause::Io(e)),
            MessageError::Receive(e) => Some(Cause::Io(e)),
            MessageError::JsonCouldntParse(e) => Some(Cause::Json(e)),
        }
    }

    /// The description, as it is shown to a user.
    pub fn to_string(&self) -> (r: String)
        ensures
            r@ == self.text(),
    {
        self.description().to_owned()
    }
}

/// Why a payload from i3 could not be read.
#[derive(Debug)]
pub enum DecodeError {
    /// It is not JSON, or not the JSON that was asked for.
    JsonCouldntParse(serde_json::Error),
    /// It is JSON, but a member that i3 promises is missing, or is not what i3 promises.
    Unexpected,
    /// It belongs to an event of a type that nobody can subscribe to.
    UnknownEvent(u32),
}

} // verus!
