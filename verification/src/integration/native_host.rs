//! Native messaging host: the framing of the Chrome/Firefox native messaging
//! protocol, and the reply to each message.

use vstd::prelude::*;
use crate::text::owned;
use super::messaging::Message;

verus! {

/// The largest message body the host reads (1 MiB).
pub const MAX_MESSAGE_LEN: u32 = 1048576;

/// The number that four bytes denote in little-endian order.
pub open spec fn le_value(b: Seq<u8>) -> nat {
    (b[0] as nat) + 256 * (b[1] as nat) + 65536 * (b[2] as nat) + 16777216 * (b[3] as nat)
}

/// The four little-endian bytes of a 32-bit number.
pub open spec fn le_bytes(x: u32) -> Seq<u8> {
    seq![
        (x % 256) as u8,
        ((x / 256) % 256) as u8,
        ((x / 65536) % 256) as u8,
        (x / 16777216) as u8,
    ]
}

/// `u32::from_le_bytes`: the length that prefixes a message.
pub fn message_length(b: [u8; 4]) -> (r: u32)
    ensures
        r == le_value(b@),
{
    let r = b[0] as u32 + 256 * (b[1] as u32) + 65536 * (b[2] as u32) + 16777216 * (b[3] as u32);
    r
}

/// Whether a message of this length is read: longer ones are refused (and
/// the host goes on to the next length prefix).
pub fn accept_length(len: u32) -> (r: bool)
    ensures
        r == (len <= MAX_MESSAGE_LEN),
{
    len <= MAX_MESSAGE_LEN
}

/// A response body framed for the extension: its length, as a `u32` (the
/// length cast to 32 bits), in little-endian order, then the body.
pub fn frame(body: &Vec<u8>) -> (r: Vec<u8>)
    ensures
        r@ == le_bytes(body@.len() as u32) + body@,
{
    let len = body.len() as u32;
    let mut r: Vec<u8> = Vec::new();
    r.push((len % 256) as u8);
    r.push(((len / 256) % 256) as u8);
    r.push(((len / 65536) % 256) as u8);
    r.push((len / 16777216) as u8);
    let ghost head = r@;
    assert(head =~= le_bytes(len));
    let n = body.len();
    for i in 0..n
        invariant
            n == body@.len(),
            r@ == head + body@.take(i as int),
    {
        r.push(body[i]);
        assert(body@.take(i + 1) =~= body@.take(i as int).push(body@[i as int]));
        assert(head + body@.take(i + 1) =~= (head + body@.take(i as int)).push(body@[i as int]));
    }
    assert(body@.take(n as int) =~= body@);
    r
}

/// The length prefix of a frame reads back as the length of its body, for
/// every body shorter than 2^32 bytes.
pub proof fn lemma_frame_round_trip(len: u32)
    ensures
        le_value(le_bytes(len)) == len,
{
    let x = len as int;
    let b0 = x % 256;
    let b1 = (x / 256) % 256;
    let b2 = (x / 65536) % 256;
    let b3 = x / 16777216;
    assert(b3 < 256) by (nonlinear_arith)
        requires
            0 <= x < 0x1_0000_0000,
            b3 == x / 16777216,
    ;
    assert(x == b0 + 256 * b1 + 65536 * b2 + 16777216 * b3) by (nonlinear_arith)
        requires
            0 <= x,
            b0 == x % 256,
            b1 == (x / 256) % 256,
            b2 == (x / 65536) % 256,
            b3 == x / 16777216,
    {
        vstd::arithmetic::div_mod::lemma_fundamental_div_mod(x, 256);
        vstd::arithmetic::div_mod::lemma_fundamental_div_mod(x / 256, 256);
        vstd::arithmetic::div_mod::lemma_fundamental_div_mod(x / 65536, 256);
        vstd::arithmetic::div_mod::lemma_div_denominator(x, 256, 256);
        vstd::arithmetic::div_mod::lemma_div_denominator(x, 65536, 256);
    }
}

/// What the host answers to a message.
#[derive(Debug)]
pub enum Reply {
    /// Answer to a ping.
    Pong,
    /// A download request was acknowledged as queued.
    Queued { url: String },
    /// Download counts.
    Status { active: u64, queued: u64, completed: u64 },
    /// The host's version.
    Config { version: String },
    /// A message could not be understood.
    Error { message: String },
}

/// Handle an incoming message from the browser extension: a ping is answered
/// with a pong, a download request is acknowledged as queued with its URL,
/// a status request with zero counts, a configuration request with the
/// host's `version`.
pub fn handle_message(message: Message, version: &str) -> (r: Reply)
    ensures
        match message {
            Message::Ping => r is Pong,
            Message::AddDownload { url, .. } => r matches Reply::Queued { url: u } && u@ == url@,
            Message::GetStatus => r matches Reply::Status { active, queued, completed } && active
                == 0 && queued == 0 && completed == 0,
            Message::GetConfig => r matches Reply::Config { version: v } && v@ == version@,
        },
{
    match message {
        Message::Ping => Reply::Pong,
        Message::AddDownload { url, .. } => Reply::Queued { url },
        Message::GetStatus => Reply::Status { active: 0, queued: 0, completed: 0 },
        Message::GetConfig => Reply::Config { version: owned(version) },
    }
}

/// The reply to a message body that does not parse.
pub fn invalid_message() -> (r: Reply)
    ensures
        r matches Reply::Error { message } && message@ == "Invalid message format"@,
{
    Reply::Error { message: owned("Invalid message format") }
}

} // verus!
