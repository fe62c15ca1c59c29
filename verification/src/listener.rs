//! Listening for events, one after the other and without an end.

use vstd::prelude::*;
use vstd::utf8::encode_utf8;

use crate::error::{other_error, other_error_of, DecodeError, MessageError};
use crate::event::{
    build_event, event_described, event_number, event_number_of, is_event, Event,
};
use crate::frame::{
    frame, frame_in_four_reads, frames, joined, joined_after_four, Progress, Receiver, Step,
};
use crate::json::{parsed, Tree};

verus! {

/// How far the next event has been received.
#[derive(Debug, Clone, Copy)]
pub struct Listener {
    pub receiver: Receiver,
}

/// What came of the last task.
#[derive(Debug)]
pub enum Report {
    /// These bytes were read.
    Read(Vec<u8>),
    /// The task failed.
    Failed(std::io::Error),
}

/// What has to be done next.
#[derive(Debug)]
pub enum Task {
    /// Read this many bytes, neither more nor fewer.
    Read(usize),
    /// Hand this event out, then go on with the next one.
    Event(Event),
    /// Hand this error out, then go on with the next event.
    Error(MessageError),
}

/// What is said of an event of a type that nobody can subscribe to.
pub open spec fn unknown_event_complaint() -> Seq<char> {
    "received an event we aren't subscribed to!"@
}

/// What is said of an event whose payload is JSON, but not what i3 promises.
pub open spec fn unexpected_event_complaint() -> Seq<char> {
    "received an event that lacks what i3 promises of it"@
}

/// Whether `task` is what comes of the event with this number whose payload parses to `document`:
/// the event itself, or an error if there is an issue with what i3 sent.
pub open spec fn delivers(
    task: Task,
    number: u32,
    document: Result<Tree, serde_json::Error>,
) -> bool {
    if !is_event(number) {
        task == Task::Error(MessageError::Receive(other_error_of(unknown_event_complaint())))
    } else {
        match document {
            Err(e) => task == Task::Error(MessageError::JsonCouldntParse(e)),
            Ok(tree) => if event_described(number, tree) {
                task is Event && task->Event_0.number() == number && task->Event_0.shows(tree)
            } else {
                task == Task::Error(
                    MessageError::Receive(other_error_of(unexpected_event_complaint())),
                )
            },
        }
    }
}

/// What to do with an event that has been read.
pub fn hand_out(event: Result<Event, DecodeError>) -> (r: Task)
    ensures
        r == match event {
            Ok(event) => Task::Event(event),
            Err(DecodeError::JsonCouldntParse(e)) => Task::Error(MessageError::JsonCouldntParse(e)),
            Err(DecodeError::UnknownEvent(_)) => Task::Error(
                MessageError::Receive(other_error_of(unknown_event_complaint())),
            ),
            Err(DecodeError::Unexpected) => Task::Error(
                MessageError::Receive(other_error_of(unexpected_event_complaint())),
            ),
        },
{
    match event {
        Ok(event) => Task::Event(event),
        Err(DecodeError::JsonCouldntParse(e)) => Task::Error(MessageError::JsonCouldntParse(e)),
        Err(DecodeError::UnknownEvent(_)) => {
            let e = other_error("received an event we aren't subscribed to!".to_owned());
            Task::Error(MessageError::Receive(e))
        },
        Err(DecodeError::Unexpected) => {
            let e = other_error("received an event that lacks what i3 promises of it".to_owned());
            Task::Error(MessageError::Receive(e))
        },
    }
}

impl Listener {
    /// A listener that waits for its first event, and how many bytes it wants.
    pub fn start() -> (r: (Listener, usize))
        ensures
            r.0.receiver == Receiver::Magic,
            r.1 == Receiver::Magic.wants(),
    {
        (Listener { receiver: Receiver::Magic }, Receiver::Magic.wanted())
    }

    /// Whether `report` is about the task at hand.
    pub open spec fn expects(self, report: Report) -> bool {
        report matches Report::Read(data) ==> data@.len() == self.receiver.wants()
    }

    /// Whether `report` leads to `next` and `task`.
    ///
    /// After an event or an error the listener waits for the next event.
    pub open spec fn leads_to(self, report: Report, next: Listener, task: Task) -> bool {
        match report {
            Report::Failed(e) => {
                &&& next.receiver == Receiver::Magic
                &&& task == Task::Error(MessageError::Receive(e))
            },
            Report::Read(data) => match self.receiver.after(data@) {
                Step::More(receiver) => {
                    &&& next.receiver == receiver
                    &&& task is Read
                    &&& task->Read_0 == receiver.wants()
                },
                Step::Refused(reason) => {
                    &&& next.receiver == Receiver::Magic
                    &&& task == Task::Error(MessageError::Receive(other_error_of(reason)))
                },
                Step::Message(message_type, payload) => {
                    &&& next.receiver == Receiver::Magic
                    &&& delivers(task, event_number(message_type), parsed(payload))
                },
            },
        }
    }

    /// Decides what to do next.
    pub fn step(self, report: Report) -> (r: (Listener, Task))
        requires
            self.expects(report),
        ensures
            self.leads_to(report, r.0, r.1),
    {
        match report {
            Report::Failed(e) => {
                (Listener { receiver: Receiver::Magic }, Task::Error(MessageError::Receive(e)))
            },
            Report::Read(data) => match self.receiver.feed(data.as_slice()) {
                Progress::More(next) => {
                    let wanted = next.wanted();
                    (Listener { receiver: next }, Task::Read(wanted))
                },
                Progress::Refused(reason) => {
                    let e = other_error(reason);
                    (Listener { receiver: Receiver::Magic }, Task::Error(MessageError::Receive(e)))
                },
                Progress::Message(message_type, payload) => {
                    let event = build_event(event_number_of(message_type), payload.as_str());
                    (Listener { receiver: Receiver::Magic }, hand_out(event))
                },
            },
        }
    }
}

/// Whatever is reported, the listener either wants more of the message that it is receiving, of
/// which less is then left, or it hands out an event or an error and waits for the next event, as
/// it did at its start. So a listener never ends, and what it hands out takes four reads at most.
pub proof fn listener_goes_on(listener: Listener, report: Report, next: Listener, task: Task)
    requires
        listener.expects(report),
        listener.leads_to(report, next, task),
    ensures
        task is Read ==> next.receiver.pieces_left() < listener.receiver.pieces_left()
            && task->Read_0 == next.receiver.wants(),
        !(task is Read) ==> (task is Event || task is Error) && next.receiver == Receiver::Magic,
{
}

/// Whether `tasks` and `states` are those of a listener that was told of `reads`: `states` are the
/// listener before and after each of the reads, `tasks` what it asked for after each of them.
pub open spec fn listens(reads: Seq<Vec<u8>>, states: Seq<Listener>, tasks: Seq<Task>) -> bool {
    &&& states.len() == reads.len() + 1
    &&& tasks.len() == reads.len()
    &&& forall|i: int|
        0 <= i < reads.len() ==> (#[trigger] states[i]).expects(Report::Read(reads[i]))
            && states[i].leads_to(Report::Read(reads[i]), states[i + 1], tasks[i])
}

/// The four reads that a waiting listener asks for, from a stream that starts with the frame of an
/// event.
proof fn first_event_arrives(
    message_type: u32,
    text: Seq<char>,
    reads: Seq<Vec<u8>>,
    states: Seq<Listener>,
    tasks: Seq<Task>,
    rest: Seq<u8>,
)
    requires
        encode_utf8(text).len() < 0x1_0000_0000,
        reads.len() >= 4,
        listens(reads, states, tasks),
        states[0].receiver == Receiver::Magic,
        joined(reads) == frame(message_type, encode_utf8(text)) + rest,
    ensures
        tasks[0] is Read && tasks[1] is Read && tasks[2] is Read,
        delivers(tasks[3], event_number(message_type), parsed(text)),
        states[4].receiver == Receiver::Magic,
        joined(reads.skip(4)) == rest,
{
    assert(states[0].expects(Report::Read(reads[0])));
    assert(states[1].expects(Report::Read(reads[1])));
    assert(states[2].expects(Report::Read(reads[2])));
    assert(states[3].expects(Report::Read(reads[3])));
    joined_after_four(reads);
    frame_in_four_reads(
        message_type,
        text,
        reads[0]@,
        reads[1]@,
        reads[2]@,
        reads[3]@,
        joined(reads.skip(4)),
        rest,
    );
}

/// If i3 sends an event with the payload `text`, then the four reads that a waiting listener asks
/// for end with this event, and the listener waits for the next one.
pub proof fn event_arrives(
    message_type: u32,
    text: Seq<char>,
    reads: Seq<Vec<u8>>,
    states: Seq<Listener>,
    tasks: Seq<Task>,
)
    requires
        encode_utf8(text).len() < 0x1_0000_0000,
        reads.len() == 4,
        listens(reads, states, tasks),
        states[0].receiver == Receiver::Magic,
        joined(reads) == frame(message_type, encode_utf8(text)),
    ensures
        tasks[0] is Read && tasks[1] is Read && tasks[2] is Read,
        delivers(tasks[3], event_number(message_type), parsed(text)),
        states[4] == states[0],
{
    let whole = frame(message_type, encode_utf8(text));
    assert(whole + Seq::<u8>::empty() =~= whole);
    first_event_arrives(message_type, text, reads, states, tasks, Seq::empty());
}

/// Whether message `j` of `messages` is what comes out after four reads for each message up to it,
/// and nothing comes out in between.
pub open spec fn handed_out(
    messages: Seq<(u32, Seq<char>)>,
    states: Seq<Listener>,
    tasks: Seq<Task>,
    j: int,
) -> bool {
    &&& tasks[4 * j] is Read && tasks[4 * j + 1] is Read && tasks[4 * j + 2] is Read
    &&& delivers(tasks[4 * j + 3], event_number(messages[j].0), parsed(messages[j].1))
    &&& states[4 * j + 4].receiver == Receiver::Magic
}

/// A listener hands out the messages of a stream for as long as there are any: each of them once,
/// in their order. After each it is as at its start, so that one who starts anew there goes on with
/// the next message.
///
/// The stream is the frames of `messages`, of any number, and was read in four reads for each.
pub proof fn events_arrive(
    messages: Seq<(u32, Seq<char>)>,
    reads: Seq<Vec<u8>>,
    states: Seq<Listener>,
    tasks: Seq<Task>,
)
    requires
        forall|j: int|
            0 <= j < messages.len() ==> encode_utf8((#[trigger] messages[j]).1).len()
                < 0x1_0000_0000,
        reads.len() == 4 * messages.len(),
        listens(reads, states, tasks),
        states[0].receiver == Receiver::Magic,
        joined(reads) == frames(messages),
    ensures
        forall|j: int|
            0 <= j < messages.len() ==> #[trigger] handed_out(messages, states, tasks, j),
    decreases messages.len(),
{
    if messages.len() > 0 {
        let later = messages.drop_first();
        first_event_arrives(
            messages[0].0,
            messages[0].1,
            reads,
            states,
            tasks,
            frames(later),
        );
        let (reads2, states2, tasks2) = (reads.skip(4), states.skip(4), tasks.skip(4));
        assert forall|i: int| 0 <= i < reads2.len() implies (#[trigger] states2[i]).expects(
            Report::Read(reads2[i]),
        ) && states2[i].leads_to(Report::Read(reads2[i]), states2[i + 1], tasks2[i]) by {
            assert(states[i + 4].expects(Report::Read(reads[i + 4])));
        }
        assert forall|j: int| 0 <= j < later.len() implies encode_utf8(
            (#[trigger] later[j]).1,
        ).len() < 0x1_0000_0000 by {
            assert(later[j] == messages[j + 1]);
        }
        events_arrive(later, reads2, states2, tasks2);
        assert forall|j: int| 0 <= j < messages.len() implies #[trigger] handed_out(
            messages,
            states,
            tasks,
            j,
        ) by {
            if j > 0 {
                assert(handed_out(later, states2, tasks2, j - 1));
                assert(later[j - 1] == messages[j]);
            }
        }
    }
}

} // verus!
