//! What is said of an error.

use vstd::prelude::*;

use crate::error::{Cause, EstablishError, MessageError};

verus! {

/// An error of establishing a connection says at which of its two parts it came, and shows the
/// error that came there.
pub proof fn establish_error_is_told(
    error: &EstablishError,
    description: &'static str,
    shown: String,
    cause: Option<&std::io::Error>,
)
    requires
        call_ensures(EstablishError::description, (error,), description),
        call_ensures(EstablishError::to_string, (error,), shown),
        call_ensures(EstablishError::cause, (error,), cause),
    ensures
        shown@ == description@,
        *error is GetSocketPathError ==> description@ == "Couldn't determine i3's socket path"@,
        *error is SocketError ==> description@ == "Found i3's socket path but failed to connect"@,
        *error matches EstablishError::GetSocketPathError(e) ==> cause == Some(&e),
        *error matches EstablishError::SocketError(e) ==> cause == Some(&e),
{
}

/// An error of a message says whether it came at sending, at receiving or at parsing, and shows the
/// error that came there.
pub proof fn message_error_is_told<'a>(
    error: &'a MessageError,
    description: &'static str,
    shown: String,
    cause: Option<Cause<'a>>,
)
    requires
        call_ensures(MessageError::description, (error,), description),
        call_ensures(MessageError::to_string, (error,), shown),
        call_ensures(MessageError::cause, (error,), cause),
    ensures
        shown@ == description@,
        *error is Send ==> description@ == "Network error while sending message to i3"@,
        *error is Receive ==> description@ == "Network error while receiving message from i3"@,
        *error is JsonCouldntParse ==> description@
            == "Got a response from i3 but couldn't parse the JSON"@,
        *error matches MessageError::Send(e) ==> cause == Some(Cause::Io(&e)),
        *error matches MessageError::Receive(e) ==> cause == Some(Cause::Io(&e)),
        *error matches MessageError::JsonCouldntParse(e) ==> cause == Some(Cause::Json(&e)),
{
}

} // verus!
