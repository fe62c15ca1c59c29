//! Message frames: the magic string, the payload's length, the message's type, the payload.

use byteorder::{ByteOrder, LittleEndian, WriteBytesExt};
use vstd::prelude::*;
use vstd::utf8::{
    decode_utf8_encode_utf8, encode_utf8, encode_utf8_decode_utf8, encode_utf8_valid_utf8,
    is_ascii_chars_encode_utf8,
};

use crate::text::{from_utf8_lossy, lossy, lossy_keeps_text, str_eq};

verus! {

/// The little-endian form of `n`.
#[verifier::opaque]
pub open spec fn u32_le(n: u32) -> Seq<u8> {
    seq![
        (n % 0x100) as u8,
        (n / 0x100 % 0x100) as u8,
        (n / 0x1_0000 % 0x100) as u8,
        (n / 0x100_0000) as u8,
    ]
}

/// The number whose little-endian form `bytes` starts with.
#[verifier::opaque]
pub open spec fn le_u32(bytes: Seq<u8>) -> u32 {
    (bytes[0] + bytes[1] * 0x100 + bytes[2] * 0x1_0000 + bytes[3] * 0x100_0000) as u32
}

/// `WriteBytesExt::write_u32` of byteorder, little-endian, on a byte vector: it appends the four
/// bytes of `n`, least significant first. Writing to a vector does not fail.
#[verifier::external_body]
fn write_u32_le(bytes: &mut Vec<u8>, n: u32)
    ensures
        final(bytes)@ == old(bytes)@ + u32_le(n),
{
    bytes.write_u32::<LittleEndian>(n).expect("a vector takes every write")
}

/// `ByteOrder::read_u32` of byteorder, little-endian: the number in the first four bytes, least
/// significant first. It panics on fewer than four.
#[verifier::external_body]
fn read_u32_le(bytes: &[u8]) -> (r: u32)
    requires
        bytes@.len() >= 4,
    ensures
        r == le_u32(bytes@),
{
    LittleEndian::read_u32(bytes)
}

/// Reading a number back from its little-endian form gives that number.
pub proof fn le_u32_of_u32_le(n: u32)
    ensures
        u32_le(n).len() == 4,
        le_u32(u32_le(n)) == n,
{
    reveal(u32_le);
    reveal(le_u32);
    assert((n % 0x100) + (n / 0x100 % 0x100) * 0x100 + (n / 0x1_0000 % 0x100) * 0x1_0000 + (n
        / 0x100_0000) * 0x100_0000 == n) by (bit_vector);
    assert(n / 0x100_0000 < 0x100) by (bit_vector);
}

/// The six bytes every frame starts with: "i3-ipc".
pub open spec fn magic() -> Seq<u8> {
    seq!['i' as u8, '3' as u8, '-' as u8, 'i' as u8, 'p' as u8, 'c' as u8]
}

/// What stands before the offending text where a frame starts with something else.
pub open spec fn magic_complaint() -> Seq<char> {
    "unexpected magic string: expected 'i3-ipc' but got "@
}

proof fn magic_is_encoded()
    ensures
        magic() == encode_utf8("i3-ipc"@),
        !"i3-ipc"@.contains('\u{FFFD}'),
{
    reveal_strlit("i3-ipc");
    is_ascii_chars_encode_utf8("i3-ipc"@);
    assert(magic() =~= encode_utf8("i3-ipc"@));
}

/// The frame of a message: the magic string, the payload's length in bytes and the message's type,
/// both as 32-bit little-endian numbers, then the payload. The length is taken modulo 2^32.
pub open spec fn frame(message_type: u32, payload: Seq<u8>) -> Seq<u8> {
    magic() + u32_le((payload.len() % 0x1_0000_0000) as u32) + u32_le(message_type) + payload
}

/// The frame in which i3 expects the message `payload` of type `message_type`.
pub fn encode_message(message_type: u32, payload: &str) -> (r: Vec<u8>)
    ensures
        r@ == frame(message_type, encode_utf8(payload@)),
{
    let text = payload.as_bytes();
    let len = text.len();
    let mut bytes: Vec<u8> = Vec::new();
    bytes.extend_from_slice("i3-ipc".as_bytes());
    proof {
        magic_is_encoded();
        assert(bytes@ =~= magic());
        let wide = len as u64;
        assert(wide as u32 == wide % 0x1_0000_0000) by (bit_vector);
    }
    write_u32_le(&mut bytes, #[verifier::truncate] (len as u32));
    write_u32_le(&mut bytes, message_type);
    let ghost header = bytes@;
    bytes.extend_from_slice(text);
    assert(bytes@ =~= header + text@);
    bytes
}

/// How far a message has been received: what the next bytes of the stream are.
#[derive(Debug, Clone, Copy)]
pub enum Receiver {
    /// The magic string.
    Magic,
    /// The payload's length.
    Length,
    /// The message's type.
    Type { length: u32 },
    /// The payload.
    Payload { length: u32, message_type: u32 },
}

/// What has become of a message once more of it has been received.
#[derive(Debug)]
pub enum Progress {
    /// The message goes on.
    More(Receiver),
    /// The message is complete: its type and its payload.
    Message(u32, String),
    /// This is no message, for the reason given.
    Refused(String),
}

/// What a `Progress` says.
pub ghost enum Step {
    More(Receiver),
    Message(u32, Seq<char>),
    Refused(Seq<char>),
}

impl View for Progress {
    type V = Step;

    open spec fn view(&self) -> Step {
        match *self {
            Progress::More(next) => Step::More(next),
            Progress::Message(message_type, payload) => Step::Message(message_type, payload@),
            Progress::Refused(reason) => Step::Refused(reason@),
        }
    }
}

impl Receiver {
    /// How many bytes come next.
    pub open spec fn wants(self) -> nat {
        match self {
            Receiver::Magic => 6,
            Receiver::Length => 4,
            Receiver::Type { .. } => 4,
            Receiver::Payload { length, .. } => length as nat,
        }
    }

    /// What has become of the message once the bytes that come next are `data`.
    pub open spec fn after(self, data: Seq<u8>) -> Step {
        match self {
            Receiver::Magic => if data == magic() {
                Step::More(Receiver::Length)
            } else {
                Step::Refused(magic_complaint() + lossy(data))
            },
            Receiver::Length => Step::More(Receiver::Type { length: le_u32(data) }),
            Receiver::Type { length } => Step::More(
                Receiver::Payload { length, message_type: le_u32(data) },
            ),
            Receiver::Payload { message_type, .. } => Step::Message(message_type, lossy(data)),
        }
    }

    /// How many bytes come next.
    pub fn wanted(&self) -> (r: usize)
        ensures
            r == self.wants(),
    {
        match *self {
            Receiver::Magic => 6,
            Receiver::Length => 4,
            Receiver::Type { .. } => 4,
            Receiver::Payload { length, .. } => length as usize,
        }
    }

    /// Takes the bytes that come next.
    pub fn feed(self, data: &[u8]) -> (r: Progress)
        requires
            data@.len() == self.wants(),
        ensures
            r@ == self.after(data@),
    {
        match self {
            Receiver::Magic => {
                let text = from_utf8_lossy(data);
                proof {
                    magic_is_encoded();
                    encode_utf8_valid_utf8("i3-ipc"@);
                    encode_utf8_decode_utf8("i3-ipc"@);
                    if vstd::utf8::valid_utf8(data@) {
                        decode_utf8_encode_utf8(data@);
                    }
                }
                if str_eq(text.as_str(), "i3-ipc") {
                    Progress::More(Receiver::Length)
                } else {
                    let mut reason: String =
                        "unexpected magic string: expected 'i3-ipc' but got ".to_owned();
                    reason.append(text.as_str());
                    Progress::Refused(reason)
                }
            },
            Receiver::Length => Progress::More(Receiver::Type { length: read_u32_le(data) }),
            Receiver::Type { length } => {
                Progress::More(Receiver::Payload { length, message_type: read_u32_le(data) })
            },
            Receiver::Payload { message_type, .. } => {
                Progress::Message(message_type, from_utf8_lossy(data))
            },
        }
    }
}

/// What a receiver makes of a stream from which it takes what it wants, piece after piece.
pub ghost enum Received {
    /// The stream ends before the message does.
    Starved,
    /// The stream holds no message, for the reason given.
    Refused(Seq<char>),
    /// The stream starts with this message, and goes on with `rest`.
    Message { message_type: u32, payload: Seq<char>, rest: Seq<u8> },
}

impl Receiver {
    /// How many pieces come after the next one.
    pub open spec fn pieces_left(self) -> nat {
        match self {
            Receiver::Magic => 3,
            Receiver::Length => 2,
            Receiver::Type { .. } => 1,
            Receiver::Payload { .. } => 0,
        }
    }

    /// What this receiver makes of `stream`.
    pub open spec fn run(self, stream: Seq<u8>) -> Received
        decreases self.pieces_left(),
    {
        if stream.len() < self.wants() {
            Received::Starved
        } else {
            let rest = stream.skip(self.wants() as int);
            match self.after(stream.take(self.wants() as int)) {
                Step::More(next) => next.run(rest),
                Step::Message(message_type, payload) => Received::Message {
                    message_type,
                    payload,
                    rest,
                },
                Step::Refused(reason) => Received::Refused(reason),
            }
        }
    }
}

/// A stream of at least fourteen bytes that starts with the magic string, taken apart.
proof fn run_past_header(stream: Seq<u8>)
    requires
        stream.len() >= 14,
        stream.take(6) == magic(),
    ensures
        Receiver::Magic.run(stream) == (Receiver::Payload {
            length: le_u32(stream.subrange(6, 10)),
            message_type: le_u32(stream.subrange(10, 14)),
        }).run(stream.skip(14)),
{
    reveal_with_fuel(Receiver::run, 4);
    assert(stream.skip(6).take(4) =~= stream.subrange(6, 10));
    assert(stream.skip(6).skip(4).take(4) =~= stream.subrange(10, 14));
    assert(stream.skip(6).skip(4).skip(4) =~= stream.skip(14));
}

/// The parts of a stream that starts with a frame.
proof fn frame_parts(message_type: u32, payload: Seq<u8>, rest: Seq<u8>)
    ensures
        ({
            let stream = frame(message_type, payload) + rest;
            &&& stream.len() == 14 + payload.len() + rest.len()
            &&& stream.take(6) == magic()
            &&& stream.subrange(6, 10) == u32_le((payload.len() % 0x1_0000_0000) as u32)
            &&& stream.subrange(10, 14) == u32_le(message_type)
            &&& stream.skip(14) == payload + rest
        }),
{
    let stream = frame(message_type, payload) + rest;
    le_u32_of_u32_le((payload.len() % 0x1_0000_0000) as u32);
    le_u32_of_u32_le(message_type);
    assert(stream.take(6) =~= magic());
    assert(stream.subrange(6, 10) =~= u32_le((payload.len() % 0x1_0000_0000) as u32));
    assert(stream.subrange(10, 14) =~= u32_le(message_type));
    assert(stream.skip(14) =~= payload + rest);
}

/// A frame is fourteen bytes longer than its payload.
pub proof fn frame_length(message_type: u32, payload: Seq<u8>)
    ensures
        frame(message_type, payload).len() == 14 + payload.len(),
{
    le_u32_of_u32_le((payload.len() % 0x1_0000_0000) as u32);
    le_u32_of_u32_le(message_type);
}

/// What is received from a frame is what went into it, and no byte beyond the frame is touched.
/// The payload may be anything whose length the frame can hold; one that is no UTF-8 arrives with
/// its invalid parts replaced.
pub proof fn frame_is_received(message_type: u32, payload: Seq<u8>, rest: Seq<u8>)
    requires
        payload.len() < 0x1_0000_0000,
    ensures
        Receiver::Magic.run(frame(message_type, payload) + rest) == (Received::Message {
            message_type,
            payload: lossy(payload),
            rest,
        }),
{
    let stream = frame(message_type, payload) + rest;
    assert(Receiver::Magic.run(stream) == (Receiver::Payload {
        length: payload.len() as u32,
        message_type,
    }).run(payload + rest)) by {
        frame_parts(message_type, payload, rest);
        run_past_header(stream);
        le_u32_of_u32_le(payload.len() as u32);
        le_u32_of_u32_le(message_type);
    }
    assert((payload + rest).take(payload.len() as int) =~= payload);
    assert((payload + rest).skip(payload.len() as int) =~= rest);
}

/// A text that was sent is received as it was, whatever follows it in the stream.
pub proof fn text_is_received(message_type: u32, text: Seq<char>, rest: Seq<u8>)
    requires
        encode_utf8(text).len() < 0x1_0000_0000,
    ensures
        Receiver::Magic.run(frame(message_type, encode_utf8(text)) + rest) == (Received::Message {
            message_type,
            payload: text,
            rest,
        }),
{
    frame_is_received(message_type, encode_utf8(text), rest);
    lossy_keeps_text(text);
}

/// Two messages with the same frame are the same message.
pub proof fn frames_differ(t1: u32, text1: Seq<char>, t2: u32, text2: Seq<char>)
    requires
        encode_utf8(text1).len() < 0x1_0000_0000,
        encode_utf8(text2).len() < 0x1_0000_0000,
        frame(t1, encode_utf8(text1)) == frame(t2, encode_utf8(text2)),
    ensures
        t1 == t2,
        text1 == text2,
{
    text_is_received(t1, text1, Seq::empty());
    text_is_received(t2, text2, Seq::empty());
}

/// A stream too short for a header starves, unless it is refused.
proof fn short_stream_starves(stream: Seq<u8>)
    requires
        stream.len() < 14,
        stream.len() >= 6 ==> stream.take(6) == magic(),
    ensures
        Receiver::Magic.run(stream) == Received::Starved,
{
    reveal_with_fuel(Receiver::run, 4);
}

/// No part of a frame short of the whole is taken for a message or refused.
pub proof fn cut_frame_starves(message_type: u32, payload: Seq<u8>, n: int)
    requires
        payload.len() < 0x1_0000_0000,
        0 <= n < frame(message_type, payload).len(),
    ensures
        Receiver::Magic.run(frame(message_type, payload).take(n)) == Received::Starved,
{
    let whole = frame(message_type, payload);
    let part = whole.take(n);
    frame_length(message_type, payload);
    assert(whole.take(6) == magic() && whole.subrange(6, 10) == u32_le(payload.len() as u32)) by {
        frame_parts(message_type, payload, Seq::empty());
        assert(whole + Seq::<u8>::empty() =~= whole);
    }
    if n >= 14 {
        assert(part.take(6) =~= whole.take(6));
        assert(part.subrange(6, 10) =~= whole.subrange(6, 10));
        let length = le_u32(part.subrange(6, 10));
        assert(length == payload.len()) by {
            le_u32_of_u32_le(payload.len() as u32);
        }
        run_past_header(part);
    } else {
        if n >= 6 {
            assert(part.take(6) =~= whole.take(6));
        }
        short_stream_starves(part);
    }
}

/// A stream is refused exactly if its first six bytes are there and are not the magic string.
pub proof fn refused_iff_magic_is_wrong(stream: Seq<u8>)
    ensures
        Receiver::Magic.run(stream) is Refused <==> stream.len() >= 6 && stream.take(6) != magic(),
        stream.len() >= 6 && stream.take(6) != magic() ==> Receiver::Magic.run(stream)
            == Received::Refused(magic_complaint() + lossy(stream.take(6))),
{
    reveal_with_fuel(Receiver::run, 4);
}

/// A message is received only from a stream that is long enough for a header and starts with the
/// magic string.
proof fn message_has_header(stream: Seq<u8>)
    requires
        Receiver::Magic.run(stream) is Message,
    ensures
        stream.len() >= 14,
        stream.take(6) == magic(),
{
    reveal_with_fuel(Receiver::run, 4);
}

/// Whatever is received as a message stood in the stream as the frame of a payload: the bytes
/// between the header and what is left.
pub proof fn received_was_framed(stream: Seq<u8>)
    requires
        Receiver::Magic.run(stream) is Message,
    ensures
        ({
            let received = Receiver::Magic.run(stream);
            let bytes = stream.subrange(14, stream.len() - received->rest.len());
            &&& bytes.len() < 0x1_0000_0000
            &&& received->payload == lossy(bytes)
            &&& stream == frame(received->message_type, bytes) + received->rest
        }),
{
    message_has_header(stream);
    run_past_header(stream);
    let message_type = le_u32(stream.subrange(10, 14));
    let length = le_u32(stream.subrange(6, 10));
    let rest = stream.skip(14).skip(length as int);
    let bytes = stream.subrange(14, stream.len() - rest.len());
    assert(bytes =~= stream.skip(14).take(length as int));
    assert(stream.subrange(6, 10) == u32_le(length) && stream.subrange(10, 14) == u32_le(
        message_type,
    )) by {
        u32_le_of_le_u32(stream.subrange(6, 10));
        u32_le_of_le_u32(stream.subrange(10, 14));
    }
    assert(stream =~= stream.take(6) + stream.subrange(6, 10) + stream.subrange(10, 14) + bytes
        + rest);
}

/// Writing the number that four bytes stand for gives those bytes.
pub proof fn u32_le_of_le_u32(bytes: Seq<u8>)
    requires
        bytes.len() == 4,
    ensures
        u32_le(le_u32(bytes)) == bytes,
{
    reveal(u32_le);
    reveal(le_u32);
    let (b0, b1, b2, b3) = (bytes[0], bytes[1], bytes[2], bytes[3]);
    let n = le_u32(bytes);
    assert(n == b0 + b1 * 0x100 + b2 * 0x1_0000 + b3 * 0x100_0000);
    assert(n % 0x100 == b0 && n / 0x100 % 0x100 == b1 && n / 0x1_0000 % 0x100 == b2 && n
        / 0x100_0000 == b3) by (bit_vector)
        requires
            n == b0 + b1 * 0x100 + b2 * 0x1_0000 + b3 * 0x100_0000,
    ;
    assert(u32_le(n) =~= bytes);
}

/// Four reads of the lengths that a receiver wants, from a stream that starts with the frame of a
/// text, are the parts of that frame, and what is read after them is what comes after the frame.
pub proof fn frame_in_four_reads(
    message_type: u32,
    text: Seq<char>,
    d0: Seq<u8>,
    d1: Seq<u8>,
    d2: Seq<u8>,
    d3: Seq<u8>,
    later: Seq<u8>,
    rest: Seq<u8>,
)
    requires
        encode_utf8(text).len() < 0x1_0000_0000,
        d0.len() == 6,
        d0 == magic() ==> d1.len() == 4 && d2.len() == 4 && d3.len() == le_u32(d1),
        d0 + d1 + d2 + d3 + later == frame(message_type, encode_utf8(text)) + rest,
    ensures
        d0 == magic(),
        le_u32(d1) == encode_utf8(text).len(),
        le_u32(d2) == message_type,
        lossy(d3) == text,
        d0 + d1 + d2 + d3 == frame(message_type, encode_utf8(text)),
        later == rest,
{
    let payload = encode_utf8(text);
    let whole = frame(message_type, payload) + rest;
    let length = (payload.len() % 0x1_0000_0000) as u32;
    frame_parts(message_type, payload, rest);
    assert(d0 =~= whole.take(6));
    assert(d1 =~= whole.subrange(6, 10));
    assert(d2 =~= whole.subrange(10, 14));
    le_u32_of_u32_le(length);
    le_u32_of_u32_le(message_type);
    let body = payload + rest;
    assert(d3 + later =~= whole.skip(14));
    assert(d3 =~= body.take(payload.len() as int));
    assert(d3 =~= payload);
    assert(later =~= body.skip(payload.len() as int));
    assert(later =~= rest);
    lossy_keeps_text(text);
}

/// The frames of `messages`, each a type and a text, one after the other.
pub open spec fn frames(messages: Seq<(u32, Seq<char>)>) -> Seq<u8>
    decreases messages.len(),
{
    if messages.len() == 0 {
        Seq::empty()
    } else {
        frame(messages[0].0, encode_utf8(messages[0].1)) + frames(messages.drop_first())
    }
}

/// What was read in all, one read after the other.
pub open spec fn joined(reads: Seq<Vec<u8>>) -> Seq<u8>
    decreases reads.len(),
{
    if reads.len() == 0 {
        Seq::empty()
    } else {
        reads[0]@ + joined(reads.drop_first())
    }
}

/// Four reads and what was read after them.
pub proof fn joined_after_four(reads: Seq<Vec<u8>>)
    requires
        reads.len() >= 4,
    ensures
        joined(reads) == reads[0]@ + reads[1]@ + reads[2]@ + reads[3]@ + joined(reads.skip(4)),
{
    reveal_with_fuel(joined, 5);
    let (r1, r2) = (reads.drop_first(), reads.drop_first().drop_first());
    let r3 = r2.drop_first();
    assert(r3.drop_first() =~= reads.skip(4));
    assert(r1[0] == reads[1] && r2[0] == reads[2] && r3[0] == reads[3]);
    assert(joined(reads) =~= reads[0]@ + reads[1]@ + reads[2]@ + reads[3]@ + joined(reads.skip(4)));
}

} // verus!
