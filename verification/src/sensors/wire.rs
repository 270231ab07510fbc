//! What drivers and the owner of the transports say to each other.
//!
//! A driver never performs a transfer. It names the transfer it needs as a
//! [`Request`]; whoever owns the line carries it out and reports a [`Response`].

use vstd::prelude::*;

verus! {

/// A transfer that a driver needs done before it can go on.
#[derive(Debug)]
pub enum Request {
    /// Fill exactly this many bytes from the line.
    Read(usize),
    /// Send all of these bytes.
    Write(Vec<u8>),
    /// Let this many milliseconds pass.
    Delay(u32),
}

/// What a [`Request`] asks for, as plain values.
pub enum Transfer {
    Read(nat),
    Write(Seq<u8>),
    Delay(nat),
}

impl View for Request {
    type V = Transfer;

    open spec fn view(&self) -> Transfer {
        match *self {
            Request::Read(n) => Transfer::Read(n as nat),
            Request::Write(bytes) => Transfer::Write(bytes@),
            Request::Delay(ms) => Transfer::Delay(ms as nat),
        }
    }
}

/// What came of a transfer.
#[derive(Debug, Clone, Copy)]
pub enum Response<'a> {
    /// The bytes that a read delivered.
    Data(&'a [u8]),
    /// A write went out in full, or a delay has passed.
    Done,
    /// The transport reported an error.
    Failed,
}

/// What a [`Response`] reports, as plain values.
pub enum Outcome {
    Data(Seq<u8>),
    Done,
    Failed,
}

impl<'a> View for Response<'a> {
    type V = Outcome;

    open spec fn view(&self) -> Outcome {
        match *self {
            Response::Data(bytes) => Outcome::Data(bytes@),
            Response::Done => Outcome::Done,
            Response::Failed => Outcome::Failed,
        }
    }
}

/// The bytes of `outcome` where it is a delivery of exactly `n` bytes.
pub open spec fn delivered(outcome: Outcome, n: nat) -> Option<Seq<u8>> {
    match outcome {
        Outcome::Data(bytes) => if bytes.len() == n {
            Some(bytes)
        } else {
            None
        },
        _ => None,
    }
}

/// Whether `outcome` reports that a write or a delay was carried out.
pub open spec fn completed(outcome: Outcome) -> bool {
    outcome is Done
}

impl<'a> Response<'a> {
    /// The delivered bytes, where this is a delivery of exactly `n` bytes.
    pub fn data_of_len(&self, n: usize) -> (bytes: Option<&'a [u8]>)
        ensures
            match bytes {
                Some(b) => delivered(self@, n as nat) == Some(b@),
                None => delivered(self@, n as nat) is None,
            },
    {
        match *self {
            Response::Data(b) => if b.len() == n {
                Some(b)
            } else {
                None
            },
            _ => None,
        }
    }

    /// Whether a write or a delay was carried out.
    pub fn is_done(&self) -> (done: bool)
        ensures
            done == completed(self@),
    {
        match *self {
            Response::Done => true,
            _ => false,
        }
    }
}

/// The number that two bytes spell, most significant byte first.
pub open spec fn be16(hi: u8, lo: u8) -> int {
    hi as int * 256 + lo as int
}

/// The number that two bytes spell as a sixteen-bit two's complement value,
/// most significant byte first.
pub open spec fn be16_signed(hi: u8, lo: u8) -> int {
    if be16(hi, lo) >= 32768 {
        be16(hi, lo) - 65536
    } else {
        be16(hi, lo)
    }
}

/// Reads two bytes as an unsigned big-endian number.
pub fn u16_from_be(hi: u8, lo: u8) -> (value: u16)
    ensures
        value == be16(hi, lo),
{
    (hi as u16) * 256 + (lo as u16)
}

/// Reads two bytes as a signed big-endian number.
pub fn i16_from_be(hi: u8, lo: u8) -> (value: i16)
    ensures
        value == be16_signed(hi, lo),
{
    let raw: i32 = (hi as i32) * 256 + (lo as i32);
    if raw >= 32768 {
        (raw - 65536) as i16
    } else {
        raw as i16
    }
}

/// The more significant byte of a sixteen-bit number.
pub fn high_byte(value: u16) -> (hi: u8)
    ensures
        hi == value / 256,
{
    (value / 256) as u8
}

/// The less significant byte of a sixteen-bit number.
pub fn low_byte(value: u16) -> (lo: u8)
    ensures
        lo == value % 256,
{
    (value % 256) as u8
}

} // verus!
