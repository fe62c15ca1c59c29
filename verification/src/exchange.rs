//! One request and its reply.

use std::marker::PhantomData;
use vstd::prelude::*;
use vstd::utf8::encode_utf8;

use crate::decode::Reply;
use crate::error::{other_error, other_error_of, DecodeError, MessageError};
use crate::frame::{encode_message, frame, frame_in_four_reads, Progress, Receiver, Step};
use crate::request::Request;

verus! {

/// How far an exchange has got.
#[derive(Debug, Clone, Copy)]
pub enum Stage {
    /// The request is being sent.
    Sending,
    /// The reply is being received.
    Receiving(Receiver),
    /// The exchange is over.
    Finished,
}

/// A request that has been made and awaits its reply, which is a `T`.
#[derive(Debug)]
pub struct Exchange<T> {
    /// The type of the request. The reply has the same one.
    pub message_type: u32,
    pub stage: Stage,
    pub answer: PhantomData<T>,
}

/// What came of the last task.
#[derive(Debug)]
pub enum Report {
    /// Everything was sent.
    Sent,
    /// These bytes were read.
    Read(Vec<u8>),
    /// The task failed.
    Failed(std::io::Error),
}

/// What has to be done next.
#[derive(Debug)]
pub enum Task<T> {
    /// Read this many bytes, neither more nor fewer.
    Read(usize),
    /// Nothing: this is the reply.
    Answer(T),
    /// Nothing: there is no reply.
    GiveUp(MessageError),
    /// Nothing: i3 answered a request of another type, this one.
    Mismatch(u32),
    /// Nothing: i3 broke its own protocol.
    Broken(DecodeError),
}

/// Whether `task` is what comes of a reply with this payload: the reply itself, an error if the
/// payload is no JSON.
pub open spec fn settled<T: Reply>(task: Task<T>, payload: Seq<char>) -> bool {
    match task {
        Task::Answer(answer) => T::answers(payload, Ok(answer)),
        Task::GiveUp(MessageError::JsonCouldntParse(e)) => T::answers(
            payload,
            Err(DecodeError::JsonCouldntParse(e)),
        ),
        Task::Broken(e) => !(e is JsonCouldntParse) && T::answers(payload, Err(e)),
        _ => false,
    }
}

/// What to do with a reply that has been read.
pub fn settle<T>(read: Result<T, DecodeError>) -> (r: Task<T>)
    ensures
        r == match read {
            Ok(answer) => Task::Answer(answer),
            Err(DecodeError::JsonCouldntParse(e)) => Task::GiveUp(
                MessageError::JsonCouldntParse(e),
            ),
            Err(e) => Task::Broken(e),
        },
{
    match read {
        Ok(answer) => Task::Answer(answer),
        Err(DecodeError::JsonCouldntParse(e)) => Task::GiveUp(MessageError::JsonCouldntParse(e)),
        Err(e) => Task::Broken(e),
    }
}

impl<T: Reply> Exchange<T> {
    fn at(message_type: u32, stage: Stage) -> (r: Exchange<T>)
        ensures
            r.message_type == message_type,
            r.stage == stage,
    {
        Exchange { message_type, stage, answer: PhantomData }
    }

    /// Starts an exchange. The bytes are to be sent.
    pub fn start(request: &Request<T>) -> (r: (Exchange<T>, Vec<u8>))
        ensures
            r.0.message_type == request.message_type,
            r.0.stage == Stage::Sending,
            r.1@ == frame(request.message_type, encode_utf8(request.payload@)),
    {
        let bytes = encode_message(request.message_type, request.payload.as_str());
        (Exchange::at(request.message_type, Stage::Sending), bytes)
    }

    /// Whether `report` is about the task at hand.
    pub open spec fn expects(self, report: Report) -> bool {
        match self.stage {
            Stage::Sending => report is Sent || report is Failed,
            Stage::Receiving(receiver) => match report {
                Report::Read(data) => data@.len() == receiver.wants(),
                Report::Failed(_) => true,
                Report::Sent => false,
            },
            Stage::Finished => false,
        }
    }

    /// Whether `report` leads to `next` and `task`.
    ///
    /// A request that could not be sent is a `Send` error, a reply that could not be received a
    /// `Receive` error. A reply counts only if it has the type of the request.
    pub open spec fn leads_to(self, report: Report, next: Exchange<T>, task: Task<T>) -> bool {
        &&& next.message_type == self.message_type
        &&& match (self.stage, report) {
            (Stage::Sending, Report::Failed(e)) => {
                next.stage == Stage::Finished && task == Task::<T>::GiveUp(MessageError::Send(e))
            },
            (_, Report::Failed(e)) => {
                next.stage == Stage::Finished && task == Task::<T>::GiveUp(MessageError::Receive(e))
            },
            (Stage::Receiving(receiver), Report::Read(data)) => match receiver.after(data@) {
                Step::More(receiver) => {
                    &&& next.stage == Stage::Receiving(receiver)
                    &&& task is Read
                    &&& task->Read_0 == receiver.wants()
                },
                Step::Refused(reason) => {
                    &&& next.stage == Stage::Finished
                    &&& task == Task::<T>::GiveUp(MessageError::Receive(other_error_of(reason)))
                },
                Step::Message(received_type, payload) => {
                    &&& next.stage == Stage::Finished
                    &&& if received_type == self.message_type {
                        settled(task, payload)
                    } else {
                        task == Task::<T>::Mismatch(received_type)
                    }
                },
            },
            _ => {
                &&& next.stage == Stage::Receiving(Receiver::Magic)
                &&& task is Read
                &&& task->Read_0 == Receiver::Magic.wants()
            },
        }
    }

    /// Decides what to do next.
    pub fn step(self, report: Report) -> (r: (Exchange<T>, Task<T>))
        requires
            self.expects(report),
        ensures
            self.leads_to(report, r.0, r.1),
    {
        let message_type = self.message_type;
        match (self.stage, report) {
            (Stage::Sending, Report::Failed(e)) => {
                (Exchange::at(message_type, Stage::Finished), Task::GiveUp(MessageError::Send(e)))
            },
            (_, Report::Failed(e)) => {
                (
                    Exchange::at(message_type, Stage::Finished),
                    Task::GiveUp(MessageError::Receive(e)),
                )
            },
            (Stage::Receiving(receiver), Report::Read(data)) => {
                match receiver.feed(data.as_slice()) {
                    Progress::More(next) => {
                        let wanted = next.wanted();
                        (Exchange::at(message_type, Stage::Receiving(next)), Task::Read(wanted))
                    },
                    Progress::Refused(reason) => {
                        let e = other_error(reason);
                        (
                            Exchange::at(message_type, Stage::Finished),
                            Task::GiveUp(MessageError::Receive(e)),
                        )
                    },
                    Progress::Message(received_type, payload) => {
                        let next = Exchange::at(message_type, Stage::Finished);
                        if received_type == message_type {
                            (next, settle(T::from_payload(payload.as_str())))
                        } else {
                            (next, Task::Mismatch(received_type))
                        }
                    },
                }
            },
            _ => {
                let wanted = Receiver::Magic.wanted();
                (
                    Exchange::at(message_type, Stage::Receiving(Receiver::Magic)),
                    Task::Read(wanted),
                )
            },
        }
    }
}

/// An exchange whose request was sent and whose reply is still to come.
pub open spec fn awaits_reply<T>(exchange: Exchange<T>) -> bool {
    exchange.stage == Stage::Receiving(Receiver::Magic)
}

/// If i3 answers with the text `text`, then the four reads that the exchange asks for end with what
/// this text says if the answer has the type of the request, and else with a mismatch.
///
/// `reads` are what was read, `states` the exchange before and after each of the reads, `tasks`
/// what it asked for after each of them.
pub proof fn reply_arrives<T: Reply>(
    answered_type: u32,
    text: Seq<char>,
    reads: Seq<Vec<u8>>,
    states: Seq<Exchange<T>>,
    tasks: Seq<Task<T>>,
)
    requires
        encode_utf8(text).len() < 0x1_0000_0000,
        reads.len() == 4 && states.len() == 5 && tasks.len() == 4,
        awaits_reply(states[0]),
        forall|i: int|
            0 <= i < 4 ==> (#[trigger] states[i]).expects(Report::Read(reads[i]))
                && states[i].leads_to(Report::Read(reads[i]), states[i + 1], tasks[i]),
        reads[0]@ + reads[1]@ + reads[2]@ + reads[3]@ == frame(answered_type, encode_utf8(text)),
    ensures
        tasks[0] is Read && tasks[1] is Read && tasks[2] is Read,
        answered_type == states[0].message_type ==> settled(tasks[3], text),
        answered_type != states[0].message_type ==> tasks[3] == Task::<T>::Mismatch(answered_type),
{
    assert(states[0].expects(Report::Read(reads[0])));
    assert(states[1].expects(Report::Read(reads[1])));
    assert(states[2].expects(Report::Read(reads[2])));
    assert(states[3].expects(Report::Read(reads[3])));
    let whole = frame(answered_type, encode_utf8(text));
    assert(whole + Seq::<u8>::empty() =~= whole);
    frame_in_four_reads(
        answered_type,
        text,
        reads[0]@,
        reads[1]@,
        reads[2]@,
        reads[3]@,
        Seq::empty(),
        Seq::empty(),
    );
}

} // verus!
