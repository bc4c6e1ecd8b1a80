//! Packet handling: one datagram payload becomes one log message, or is
//! discarded when it is not UTF-8 text.

use vstd::prelude::*;
use vstd::utf8::{decode_utf8, encode_utf8, valid_utf8};
use crate::writer::{decoration, rendered, Level, Template};

verus! {

/// Largest payload the listener receives in one datagram.
pub const MAX_DATAGRAM_LEN: usize = 1500;

/// Relies on `std::str::from_utf8`: it accepts exactly the well-formed UTF-8
/// byte sequences, and the text it returns is the characters they encode.
#[verifier::external_body]
fn utf8_text(bytes: &[u8]) -> (r: Option<&str>)
    ensures
        r is Some <==> valid_utf8(bytes@),
        r matches Some(s) ==> s@ == decode_utf8(bytes@),
{
    std::str::from_utf8(bytes).ok()
}

/// Why a datagram was discarded.
#[derive(Debug, Clone, Copy, PartialEq, Eq, Structural)]
pub enum DecodeError {
    /// The payload is not well-formed UTF-8.
    InvalidUtf8,
}

/// Decoded text of a datagram, paired with the sender's address.
pub struct LogMessage {
    pub text: String,
    pub source: String,
}

/// Decodes a datagram payload as UTF-8 text.
pub fn decode_payload(payload: &[u8]) -> (r: Result<String, DecodeError>)
    ensures
        r is Ok <==> valid_utf8(payload@),
        r matches Ok(s) ==> s@ == decode_utf8(payload@),
        r matches Err(e) ==> e == DecodeError::InvalidUtf8,
{
    match utf8_text(payload) {
        Some(s) => Ok(String::from_str(s)),
        None => Err(DecodeError::InvalidUtf8),
    }
}

/// Turns one received datagram into the message to publish; a payload that
/// is not UTF-8 yields an error and no message.
pub fn handle_datagram(payload: &[u8], source: String) -> (r: Result<LogMessage, DecodeError>)
    ensures
        r is Ok <==> valid_utf8(payload@),
        r matches Ok(m) ==> m.text@ == decode_utf8(payload@) && m.source@ == source@,
        r matches Err(e) ==> e == DecodeError::InvalidUtf8,
{
    match decode_payload(payload) {
        Ok(text) => Ok(LogMessage { text, source }),
        Err(e) => Err(e),
    }
}

/// Decodes the first `len` bytes of a receive buffer.
pub fn handle_received(buf: &[u8], len: usize, source: String) -> (r: Result<LogMessage, DecodeError>)
    requires
        len <= buf@.len(),
    ensures
        r is Ok <==> valid_utf8(buf@.take(len as int)),
        r matches Ok(m) ==> m.text@ == decode_utf8(buf@.take(len as int)) && m.source@ == source@,
        r matches Err(e) ==> e == DecodeError::InvalidUtf8,
{
    let payload = vstd::slice::slice_subrange(buf, 0, len);
    proof {
        assert(payload@ =~= buf@.take(len as int));
    }
    handle_datagram(payload, source)
}

/// A text sent as the UTF-8 bytes of a datagram is accepted by the handler
/// and decodes to that very text, and every template renders it as the
/// template's decoration, the text itself, and a newline.
pub proof fn lemma_round_trip(text: Seq<char>, template: Template, level: Level, stamp: Seq<char>)
    ensures
        valid_utf8(encode_utf8(text)),
        decode_utf8(encode_utf8(text)) == text,
        rendered(template, level, stamp, text) == decoration(template, level, stamp) + text + "\n"@,
{
    vstd::utf8::encode_utf8_valid_utf8(text);
    vstd::utf8::encode_utf8_decode_utf8(text);
    assert(Seq::<char>::empty() + text =~= text);
}

/// The lines that a sequence of payloads yields, in order: one rendered line
/// for each UTF-8 payload, none for any other.
pub open spec fn pipeline_lines(template: Template, level: Level, stamp: Seq<char>, payloads: Seq<Seq<u8>>) -> Seq<Seq<char>>
    decreases payloads.len(),
{
    if payloads.len() == 0 {
        seq![]
    } else {
        let rest = pipeline_lines(template, level, stamp, payloads.drop_last());
        if valid_utf8(payloads.last()) {
            rest.push(rendered(template, level, stamp, decode_utf8(payloads.last())))
        } else {
            rest
        }
    }
}

/// A payload that is not UTF-8, wherever it arrives, yields no line and
/// leaves the lines of all the payloads around it exactly as they would be
/// without it.
pub proof fn lemma_malformed_yields_nothing(
    template: Template,
    level: Level,
    stamp: Seq<char>,
    before: Seq<Seq<u8>>,
    bad: Seq<u8>,
    after: Seq<Seq<u8>>,
)
    requires
        !valid_utf8(bad),
    ensures
        pipeline_lines(template, level, stamp, before + seq![bad] + after) == pipeline_lines(
            template,
            level,
            stamp,
            before + after,
        ),
    decreases after.len(),
{
    let with = before + seq![bad] + after;
    let without = before + after;
    if after.len() == 0 {
        assert(with.drop_last() =~= before);
        assert(without =~= before);
    } else {
        lemma_malformed_yields_nothing(template, level, stamp, before, bad, after.drop_last());
        assert(with.drop_last() =~= before + seq![bad] + after.drop_last());
        assert(without.drop_last() =~= before + after.drop_last());
        assert(with.last() == after.last());
        assert(without.last() == after.last());
    }
}

} // verus!
