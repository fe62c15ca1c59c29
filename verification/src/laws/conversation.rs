//! What passes between this side and i3 once they are connected.

use vstd::prelude::*;
use vstd::utf8::encode_utf8;

use crate::decode::{Decode, Reply};
use crate::error::{other_error_of, DecodeError, MessageError};
use crate::event::Event;
use crate::exchange::{settle, Exchange, Report, Stage, Task};
use crate::frame::{le_u32, Progress, Receiver};
use crate::json::{parsed, Tree};
use crate::laws::bars::{bar_config_members, has_bar_config, is_bar_config};
use crate::laws::events::{
    binding_event_members, has_binding_event, has_mode_event, has_output_event,
    has_shutdown_event, has_window_event, has_workspace_event, is_binding_event, is_mode_event,
    is_output_event, is_shutdown_event, is_window_event, is_workspace_event, mode_event_members,
    output_event_members, shutdown_event_members, window_event_members, workspace_event_members,
};
use crate::laws::requests::number_of;
use crate::listener::{self, hand_out, Listener};
use crate::text::{lossy, lossy_keeps_text};

verus! {

/// First come six bytes, then twice four, then as many as the length says.
pub proof fn receiver_wants_the_next_part(receiver: &Receiver, r: usize)
    requires
        call_ensures(Receiver::wanted, (receiver,), r),
    ensures
        *receiver is Magic ==> r == 6,
        *receiver is Length ==> r == 4,
        *receiver is Type ==> r == 4,
        *receiver matches Receiver::Payload { length, .. } ==> r == length,
{
}

proof fn number_in_bytes(bytes: Seq<u8>)
    ensures
        le_u32(bytes) == number_of(bytes[0], bytes[1], bytes[2], bytes[3]),
{
    reveal(le_u32);
}

/// A message starts with the letters i3-ipc and is refused if it starts with anything else. Then
/// come its length and its type, each a number with its least significant byte first, and then its
/// text. The length and the type are kept until the text is there.
pub proof fn receiver_takes_the_next_part(receiver: Receiver, data: &[u8], r: Progress)
    requires
        call_ensures(Receiver::feed, (receiver, data), r),
        data@.len() == receiver.wants(),
    ensures
        receiver is Magic && data@ == seq![
            'i' as u8,
            '3' as u8,
            '-' as u8,
            'i' as u8,
            'p' as u8,
            'c' as u8,
        ] ==> r == Progress::More(Receiver::Length),
        receiver is Magic && data@ != seq![
            'i' as u8,
            '3' as u8,
            '-' as u8,
            'i' as u8,
            'p' as u8,
            'c' as u8,
        ] ==> (r matches Progress::Refused(reason) && reason@
            == "unexpected magic string: expected 'i3-ipc' but got "@ + lossy(data@)),
        receiver is Length ==> (r matches Progress::More(Receiver::Type { length }) && length
            == number_of(data@[0], data@[1], data@[2], data@[3])),
        receiver matches Receiver::Type { length: before } ==> (r matches Progress::More(
            Receiver::Payload { length, message_type },
        ) && length == before && message_type == number_of(
            data@[0],
            data@[1],
            data@[2],
            data@[3],
        )),
        receiver matches Receiver::Payload { message_type: before, .. } ==> (
        r matches Progress::Message(message_type, text) && message_type == before && text@ == lossy(
            data@,
        )),
{
    number_in_bytes(data@);
}

/// A text is received as it was sent.
pub proof fn receiver_keeps_the_text(receiver: Receiver, data: &[u8], text: Seq<char>, r: Progress)
    requires
        call_ensures(Receiver::feed, (receiver, data), r),
        receiver is Payload,
        data@ == encode_utf8(text),
    ensures
        r matches Progress::Message(_, received) && received@ == text,
{
    lossy_keeps_text(text);
}

/// What was read is the answer. A payload that is no JSON is an error, with the error of parsing
/// it, and i3 broke its protocol if the payload is anything else than it promised.
pub proof fn reading_is_settled<T>(read: Result<T, DecodeError>, r: Task<T>)
    requires
        call_ensures(settle::<T>, (read,), r),
    ensures
        read matches Ok(answer) ==> r == Task::Answer(answer),
        read matches Err(DecodeError::JsonCouldntParse(e)) ==> r == Task::<T>::GiveUp(
            MessageError::JsonCouldntParse(e),
        ),
        read matches Err(DecodeError::Unexpected) ==> r == Task::<T>::Broken(
            DecodeError::Unexpected,
        ),
        read matches Err(DecodeError::UnknownEvent(number)) ==> r == Task::<T>::Broken(
            DecodeError::UnknownEvent(number),
        ),
{
}

/// A request that could not be sent is an error of sending, and a reply that could not be received
/// one of receiving, each with the error that was reported. Nothing is done after that.
pub proof fn exchange_tells_failures<T: Reply>(
    exchange: Exchange<T>,
    e: std::io::Error,
    r: (Exchange<T>, Task<T>),
)
    requires
        call_ensures(Exchange::<T>::step, (exchange, Report::Failed(e)), r),
    ensures
        exchange.stage is Sending ==> r.1 == Task::<T>::GiveUp(MessageError::Send(e)),
        exchange.stage is Receiving ==> r.1 == Task::<T>::GiveUp(MessageError::Receive(e)),
        r.0.stage is Finished,
{
}

/// Once the request is sent, the six bytes with which a message starts are read.
pub proof fn exchange_awaits_the_reply<T: Reply>(
    exchange: Exchange<T>,
    r: (Exchange<T>, Task<T>),
)
    requires
        call_ensures(Exchange::<T>::step, (exchange, Report::Sent), r),
        exchange.stage is Sending,
    ensures
        r.0.message_type == exchange.message_type,
        r.0.stage == Stage::Receiving(Receiver::Magic),
        r.1 matches Task::Read(n) && n == 6,
{
}

/// An exchange goes on as its receiver does. It reads what the receiver wants, and is over once the
/// receiver has refused the message or has all of it. A message of another type than the request is
/// a mismatch, whatever its payload.
pub proof fn exchange_follows_its_receiver<T: Reply>(
    exchange: Exchange<T>,
    receiver: Receiver,
    data: Vec<u8>,
    slice: &[u8],
    progress: Progress,
    r: (Exchange<T>, Task<T>),
)
    requires
        call_ensures(Exchange::<T>::step, (exchange, Report::Read(data)), r),
        call_ensures(Receiver::feed, (receiver, slice), progress),
        exchange.stage == Stage::Receiving(receiver),
        slice@ == data@,
    ensures
        r.0.message_type == exchange.message_type,
        progress matches Progress::More(next) ==> r.0.stage == Stage::Receiving(next)
            && r.1 is Read && r.1->Read_0 == next.wants(),
        progress matches Progress::Refused(reason) ==> r.0.stage is Finished && r.1 == Task::<
            T,
        >::GiveUp(MessageError::Receive(other_error_of(reason@))),
        progress matches Progress::Message(message_type, _) ==> r.0.stage is Finished && (
        message_type != exchange.message_type ==> r.1 == Task::<T>::Mismatch(message_type)),
{
}

/// A reply of the type of the request is answered by what its text says: with the error of parsing
/// it if it is no JSON, as broken if it is JSON but not what i3 promises, and else by its value.
pub proof fn exchange_answers<T: Decode>(
    exchange: Exchange<T>,
    length: u32,
    data: Vec<u8>,
    text: Seq<char>,
    r: (Exchange<T>, Task<T>),
)
    requires
        call_ensures(Exchange::<T>::step, (exchange, Report::Read(data)), r),
        exchange.stage == Stage::Receiving(
            Receiver::Payload { length, message_type: exchange.message_type },
        ),
        data@ == encode_utf8(text),
    ensures
        parsed(text) matches Err(e) ==> r.1 == Task::<T>::GiveUp(MessageError::JsonCouldntParse(e)),
        parsed(text) matches Ok(tree) ==> (T::readable(tree) <==> r.1 is Answer),
        parsed(text) matches Ok(tree) ==> (!T::readable(tree) <==> r.1 == Task::<T>::Broken(
            DecodeError::Unexpected,
        )),
        r.1 matches Task::Answer(answer) ==> (parsed(text) matches Ok(tree) && answer.reads(tree)),
{
    lossy_keeps_text(text);
}

/// The same holds of every kind of reply: what is answered is what the text says, an error of
/// parsing is told as such, and any other error of reading means that i3 broke its protocol.
pub proof fn exchange_answers_what_the_text_says<T: Reply>(
    exchange: Exchange<T>,
    length: u32,
    data: Vec<u8>,
    text: Seq<char>,
    r: (Exchange<T>, Task<T>),
)
    requires
        call_ensures(Exchange::<T>::step, (exchange, Report::Read(data)), r),
        exchange.stage == Stage::Receiving(
            Receiver::Payload { length, message_type: exchange.message_type },
        ),
        data@ == encode_utf8(text),
    ensures
        r.1 is Answer || r.1 is GiveUp || r.1 is Broken,
        r.1 matches Task::Answer(answer) ==> T::answers(text, Ok(answer)),
        r.1 matches Task::GiveUp(e) ==> e is JsonCouldntParse && T::answers(
            text,
            Err(DecodeError::JsonCouldntParse(e->JsonCouldntParse_0)),
        ),
        r.1 matches Task::Broken(e) ==> !(e is JsonCouldntParse) && T::answers(text, Err(e)),
{
    lossy_keeps_text(text);
}

/// An exchange takes every report that its task can end in: that the request was sent or could not
/// be, that as many bytes were read as were wanted or that they could not be.
pub proof fn exchange_takes_reports<T: Reply>(
    exchange: Exchange<T>,
    receiver: Receiver,
    data: Vec<u8>,
    e: std::io::Error,
)
    ensures
        exchange.stage is Sending ==> call_requires(
            Exchange::<T>::step,
            (exchange, Report::Sent),
        ),
        exchange.stage is Sending || exchange.stage is Receiving ==> call_requires(
            Exchange::<T>::step,
            (exchange, Report::Failed(e)),
        ),
        exchange.stage == Stage::Receiving(receiver) && data@.len() == receiver.wants()
            ==> call_requires(Exchange::<T>::step, (exchange, Report::Read(data))),
{
}

/// A listener takes every report that its task can end in, at any time.
pub proof fn listener_takes_reports(before: Listener, data: Vec<u8>, e: std::io::Error)
    ensures
        call_requires(Listener::step, (before, listener::Report::Failed(e))),
        data@.len() == before.receiver.wants() ==> call_requires(
            Listener::step,
            (before, listener::Report::Read(data)),
        ),
{
}

/// An event is handed out as it is. An error of parsing is handed out with its cause. An event that
/// nobody can subscribe to, and one that lacks what i3 promises, are errors of receiving that say
/// so.
pub proof fn event_is_handed_out(event: Result<Event, DecodeError>, r: listener::Task)
    requires
        call_ensures(hand_out, (event,), r),
    ensures
        event matches Ok(event) ==> r == listener::Task::Event(event),
        event matches Err(DecodeError::JsonCouldntParse(e)) ==> r == listener::Task::Error(
            MessageError::JsonCouldntParse(e),
        ),
        event matches Err(DecodeError::UnknownEvent(_)) ==> r == listener::Task::Error(
            MessageError::Receive(other_error_of("received an event we aren't subscribed to!"@)),
        ),
        event matches Err(DecodeError::Unexpected) ==> r == listener::Task::Error(
            MessageError::Receive(
                other_error_of("received an event that lacks what i3 promises of it"@),
            ),
        ),
{
}

/// A listener starts with the six bytes with which a message starts.
pub proof fn listener_starts(r: (Listener, usize))
    requires
        call_ensures(Listener::start, (), r),
    ensures
        r.0.receiver is Magic,
        r.1 == 6,
{
}

/// A read that fails is handed out as an error of receiving, with the error that was reported. The
/// listener then waits for the start of a message.
pub proof fn listener_tells_failures(
    before: Listener,
    e: std::io::Error,
    r: (Listener, listener::Task),
)
    requires
        call_ensures(Listener::step, (before, listener::Report::Failed(e)), r),
    ensures
        r.1 == listener::Task::Error(MessageError::Receive(e)),
        r.0.receiver is Magic,
{
}

/// A listener goes on as its receiver does. It reads what the receiver wants, and waits for the
/// start of the next message once the receiver has refused the message or has all of it.
pub proof fn listener_follows_its_receiver(
    before: Listener,
    data: Vec<u8>,
    slice: &[u8],
    progress: Progress,
    r: (Listener, listener::Task),
)
    requires
        call_ensures(Listener::step, (before, listener::Report::Read(data)), r),
        call_ensures(Receiver::feed, (before.receiver, slice), progress),
        slice@ == data@,
    ensures
        progress matches Progress::More(next) ==> r.0.receiver == next && r.1 is Read
            && r.1->Read_0 == next.wants(),
        progress matches Progress::Refused(reason) ==> r.0.receiver is Magic && r.1
            == listener::Task::Error(MessageError::Receive(other_error_of(reason@))),
        progress is Message ==> r.0.receiver is Magic && !(r.1 is Read),
{
}

/// A message whose type is the number of an event, with or without the highest bit, is handed out
/// as that event: workspace, output, mode, window, bar, binding and shutdown events have the
/// numbers zero to six, in this order. One that lacks what i3 promises is an error that says so,
/// and so is one with any other number. One that is no JSON is an error with the error of parsing
/// it.
pub proof fn listener_hands_out_events(
    before: Listener,
    length: u32,
    message_type: u32,
    number: u32,
    data: Vec<u8>,
    text: Seq<char>,
    tree: Tree,
    r: (Listener, listener::Task),
)
    requires
        call_ensures(Listener::step, (before, listener::Report::Read(data)), r),
        before.receiver == (Receiver::Payload { length, message_type }),
        number < 0x8000_0000,
        message_type == number || message_type == number + 0x8000_0000,
        data@ == encode_utf8(text),
        tree.is_unambiguous(),
    ensures
        number > 6 ==> r.1 == listener::Task::Error(
            MessageError::Receive(other_error_of("received an event we aren't subscribed to!"@)),
        ),
        number <= 6 ==> (parsed(text) matches Err(e) ==> r.1 == listener::Task::Error(
            MessageError::JsonCouldntParse(e),
        )),
        parsed(text) == Ok::<Tree, serde_json::Error>(tree) && number == 0
            && has_workspace_event(tree)
            ==> (r.1 matches listener::Task::Event(Event::WorkspaceEvent(info))
            && is_workspace_event(
            info,
            tree,
        )),
        parsed(text) == Ok::<Tree, serde_json::Error>(tree) && number == 0
            && !has_workspace_event(tree)
            ==> r.1 == listener::Task::Error(
            MessageError::Receive(
                other_error_of("received an event that lacks what i3 promises of it"@),
            ),
        ),
        parsed(text) == Ok::<Tree, serde_json::Error>(tree) && number == 1 && has_output_event(tree)
            ==> (r.1 matches listener::Task::Event(Event::OutputEvent(info)) && is_output_event(
            info,
            tree,
        )),
        parsed(text) == Ok::<Tree, serde_json::Error>(tree) && number == 1
            && !has_output_event(tree)
            ==> r.1 == listener::Task::Error(
            MessageError::Receive(
                other_error_of("received an event that lacks what i3 promises of it"@),
            ),
        ),
        parsed(text) == Ok::<Tree, serde_json::Error>(tree) && number == 2 && has_mode_event(tree)
            ==> (r.1 matches listener::Task::Event(Event::ModeEvent(info)) && is_mode_event(
            info,
            tree,
        )),
        parsed(text) == Ok::<Tree, serde_json::Error>(tree) && number == 2 && !has_mode_event(tree)
            ==> r.1 == listener::Task::Error(
            MessageError::Receive(
                other_error_of("received an event that lacks what i3 promises of it"@),
            ),
        ),
        parsed(text) == Ok::<Tree, serde_json::Error>(tree) && number == 3 && has_window_event(tree)
            ==> (r.1 matches listener::Task::Event(Event::WindowEvent(info)) && is_window_event(
            info,
            tree,
        )),
        parsed(text) == Ok::<Tree, serde_json::Error>(tree) && number == 3
            && !has_window_event(tree)
            ==> r.1 == listener::Task::Error(
            MessageError::Receive(
                other_error_of("received an event that lacks what i3 promises of it"@),
            ),
        ),
        parsed(text) == Ok::<Tree, serde_json::Error>(tree) && number == 4 && has_bar_config(tree)
            ==> (r.1 matches listener::Task::Event(Event::BarConfigEvent(info)) && is_bar_config(
            info.bar_config,
            tree,
        )),
        parsed(text) == Ok::<Tree, serde_json::Error>(tree) && number == 4 && !has_bar_config(tree)
            ==> r.1 == listener::Task::Error(
            MessageError::Receive(
                other_error_of("received an event that lacks what i3 promises of it"@),
            ),
        ),
        parsed(text) == Ok::<Tree, serde_json::Error>(tree) && number == 5
            && has_binding_event(tree)
            ==> (r.1 matches listener::Task::Event(Event::BindingEvent(info)) && is_binding_event(
            info,
            tree,
        )),
        parsed(text) == Ok::<Tree, serde_json::Error>(tree) && number == 5
            && !has_binding_event(tree)
            ==> r.1 == listener::Task::Error(
            MessageError::Receive(
                other_error_of("received an event that lacks what i3 promises of it"@),
            ),
        ),
        parsed(text) == Ok::<Tree, serde_json::Error>(tree) && number == 6
            && has_shutdown_event(tree)
            ==> (r.1 matches listener::Task::Event(Event::ShutdownEvent(info)) && is_shutdown_event(
            info,
            tree,
        )),
        parsed(text) == Ok::<Tree, serde_json::Error>(tree) && number == 6
            && !has_shutdown_event(tree)
            ==> r.1 == listener::Task::Error(
            MessageError::Receive(
                other_error_of("received an event that lacks what i3 promises of it"@),
            ),
        ),
{
    lossy_keeps_text(text);
    workspace_event_members(tree);
    output_event_members(tree);
    mode_event_members(tree);
    window_event_members(tree);
    bar_config_members(tree);
    binding_event_members(tree);
    shutdown_event_members(tree);
}

} // verus!
