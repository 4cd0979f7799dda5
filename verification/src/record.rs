//! The record carried by one call, and its wire form.

use vstd::prelude::*;
use vstd::utf8::*;

verus! {

/// A log record: one message, carried as it was given.
#[derive(Debug, Clone)]
pub struct LogMessage {
    pub message: String,
}

impl View for LogMessage {
    type V = Seq<char>;

    open spec fn view(&self) -> Seq<char> {
        self.message@
    }
}

/// The wire form of a message: its UTF-8 encoding and nothing else.
pub open spec fn wire_bytes(message: Seq<char>) -> Seq<u8> {
    encode_utf8(message)
}

impl LogMessage {
    /// A record holding `message` unchanged.
    pub fn new(message: &str) -> (record: LogMessage)
        ensures
            record@ == message@,
    {
        LogMessage { message: message.to_owned() }
    }

    /// The bytes that go on the wire for this record.
    pub fn payload(&self) -> (bytes: Vec<u8>)
        ensures
            bytes@ == wire_bytes(self@),
    {
        self.message.as_str().as_bytes_vec()
    }
}

/// A payload decodes back to exactly the message it was made from.
pub proof fn lemma_wire_round_trip(message: Seq<char>)
    ensures
        valid_utf8(wire_bytes(message)),
        decode_utf8(wire_bytes(message)) == message,
{
    encode_utf8_valid_utf8(message);
    encode_utf8_decode_utf8(message);
}

/// Different messages never share a payload.
pub proof fn lemma_wire_injective(a: Seq<char>, b: Seq<char>)
    requires
        wire_bytes(a) == wire_bytes(b),
    ensures
        a == b,
{
    lemma_wire_round_trip(a);
    lemma_wire_round_trip(b);
}

} // verus!
