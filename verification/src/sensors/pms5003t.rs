//! Particulate-matter line: framed readings on a byte stream that may start
//! anywhere.
//!
//! A frame is two sync bytes, a two-byte big-endian length that must be 28,
//! 26 bytes of payload and a two-byte big-endian checksum over everything
//! before it. One read makes up to [`MAX_SYNC_ATTEMPTS`] attempts at a frame;
//! an attempt that fails gives up where it stands and the next one starts at
//! the byte that follows.

use vstd::prelude::*;
use crate::sensors::wire::{be16, be16_signed, delivered, i16_from_be, u16_from_be, Outcome, Request, Response, Transfer};

verus! {

/// First sync byte of a frame.
pub const FRAME_START_1: u8 = 0x42;

/// Second sync byte of a frame.
pub const FRAME_START_2: u8 = 0x4D;

/// The only length a frame may declare: payload and checksum.
pub const EXPECTED_FRAME_LEN: u16 = 28;

/// Bytes of the body that the checksum covers.
pub const DATA_PAYLOAD_LEN: usize = 26;

/// Bytes that follow the length field: payload and checksum.
pub const FRAME_BODY_LEN: usize = 28;

/// Bytes of a whole frame on the wire.
pub const FRAME_LEN: usize = 32;

/// Attempts that one read may spend before it gives up.
pub const MAX_SYNC_ATTEMPTS: u32 = 2048;

/// Why an attempt at a frame, or a whole read, failed.
#[derive(Debug, Copy, Clone, PartialEq, Eq, Structural)]
pub enum PmsError {
    /// The transport failed, or a sync byte was not where it had to be.
    Read,
    /// The frame's checksum does not match its bytes.
    Checksum,
    /// The frame declares a length other than 28.
    FrameLen,
    /// Every attempt of the read's budget failed.
    MaxAttemptsExceeded,
}

/// One decoded frame. Temperature and humidity are in tenths of a degree
/// Celsius and tenths of a percent, as the sensor sends them.
#[derive(Debug, Clone, Copy, PartialEq, Eq, Structural)]
pub struct PmsData {
    pub pm1_ae: u16,
    pub pm25_ae: u16,
    pub pm10_ae: u16,
    pub pm03_count: u16,
    pub pm05_count: u16,
    pub pm10_count: u16,
    pub pm25_count: u16,
    pub temp: i16,
    pub humidity: u16,
}

/// Sum of the bytes of `bytes` from index `from` up to `to`.
pub open spec fn byte_sum(bytes: Seq<u8>, from: int, to: int) -> int
    decreases to - from,
{
    if to <= from {
        0
    } else {
        byte_sum(bytes, from, to - 1) + bytes[to - 1] as int
    }
}

/// The checksum that belongs to a frame with these length bytes and this body:
/// sync bytes, length bytes and payload summed, modulo 65536.
pub open spec fn frame_checksum(len_hi: u8, len_lo: u8, body: Seq<u8>) -> int {
    (FRAME_START_1 as int + FRAME_START_2 as int + len_hi as int + len_lo as int + byte_sum(
        body,
        0,
        DATA_PAYLOAD_LEN as int,
    )) % 65536
}

/// Whether the checksum at the end of `body` is the one that belongs to the frame.
pub open spec fn checksum_matches(len_hi: u8, len_lo: u8, body: Seq<u8>) -> bool {
    frame_checksum(len_hi, len_lo, body) == be16(body[26], body[27])
}

/// The reading that a frame's 28-byte body holds.
pub open spec fn decode_body(body: Seq<u8>) -> PmsData {
    PmsData {
        pm1_ae: be16(body[6], body[7]) as u16,
        pm25_ae: be16(body[8], body[9]) as u16,
        pm10_ae: be16(body[10], body[11]) as u16,
        pm03_count: be16(body[12], body[13]) as u16,
        pm05_count: be16(body[14], body[15]) as u16,
        pm10_count: be16(body[16], body[17]) as u16,
        pm25_count: be16(body[18], body[19]) as u16,
        temp: be16_signed(body[20], body[21]) as i16,
        humidity: be16(body[22], body[23]) as u16,
    }
}

/// Whether the checksum field at the end of a 28-byte body matches the frame.
fn body_checksum_matches(len_hi: u8, len_lo: u8, body: &[u8]) -> (ok: bool)
    requires
        body@.len() == FRAME_BODY_LEN,
    ensures
        ok == checksum_matches(len_hi, len_lo, body@),
{
    let mut sum: u32 = FRAME_START_1 as u32 + FRAME_START_2 as u32 + len_hi as u32 + len_lo as u32;
    let mut i: usize = 0;
    while i < DATA_PAYLOAD_LEN
        invariant
            i <= DATA_PAYLOAD_LEN,
            body@.len() == FRAME_BODY_LEN,
            sum == FRAME_START_1 as int + FRAME_START_2 as int + len_hi as int + len_lo as int
                + byte_sum(body@, 0, i as int),
            sum <= 143 + 510 + 255 * i,
        decreases DATA_PAYLOAD_LEN - i,
    {
        sum = sum + body[i] as u32;
        i = i + 1;
    }
    let expected: u16 = u16_from_be(body[26], body[27]);
    sum % 65536 == expected as u32
}

/// Decodes a 28-byte body.
fn parse_body(data_buf: &[u8]) -> (data: PmsData)
    requires
        data_buf@.len() == FRAME_BODY_LEN,
    ensures
        data == decode_body(data_buf@),
{
    PmsData {
        pm1_ae: u16_from_be(data_buf[6], data_buf[7]),
        pm25_ae: u16_from_be(data_buf[8], data_buf[9]),
        pm10_ae: u16_from_be(data_buf[10], data_buf[11]),
        pm03_count: u16_from_be(data_buf[12], data_buf[13]),
        pm05_count: u16_from_be(data_buf[14], data_buf[15]),
        pm10_count: u16_from_be(data_buf[16], data_buf[17]),
        pm25_count: u16_from_be(data_buf[18], data_buf[19]),
        temp: i16_from_be(data_buf[20], data_buf[21]),
        humidity: u16_from_be(data_buf[22], data_buf[23]),
    }
}

/// Where an attempt at a frame stands: what it waits for next.
#[derive(Debug, Clone, Copy, PartialEq, Eq, Structural)]
pub enum PmsStage {
    /// The first sync byte.
    Sync1,
    /// The second sync byte.
    Sync2,
    /// The two bytes of the declared length.
    Length,
    /// Payload and checksum.
    Body,
}

/// A read in progress.
#[derive(Debug, Clone, Copy, PartialEq, Eq)]
pub struct PmsRead {
    /// Attempts of this read that have failed.
    pub failed: u32,
    /// What the current attempt waits for.
    pub stage: PmsStage,
    /// First byte of the declared length, once it has been read.
    pub len_hi: u8,
    /// Second byte of the declared length, once it has been read.
    pub len_lo: u8,
    /// Why the latest failed attempt failed.
    pub last_error: Option<PmsError>,
}

/// What a read does after it was handed the outcome of a transfer.
#[derive(Debug, Clone, Copy, PartialEq, Eq)]
pub enum PmsStep {
    /// The read goes on and needs another transfer.
    Continue(PmsRead),
    /// The read is over.
    Finished(Result<PmsData, PmsError>),
}

impl PmsRead {
    /// A read that has not asked for anything yet.
    pub open spec fn fresh() -> PmsRead {
        PmsRead { failed: 0, stage: PmsStage::Sync1, len_hi: 0, len_lo: 0, last_error: None }
    }

    /// Begins a read.
    pub fn start() -> (read: PmsRead)
        ensures
            read == Self::fresh(),
    {
        PmsRead { failed: 0, stage: PmsStage::Sync1, len_hi: 0, len_lo: 0, last_error: None }
    }

    /// Number of bytes that the read waits for.
    pub open spec fn wanted(self) -> nat {
        match self.stage {
            PmsStage::Sync1 => 1,
            PmsStage::Sync2 => 1,
            PmsStage::Length => 2,
            PmsStage::Body => FRAME_BODY_LEN as nat,
        }
    }

    /// Number of bytes that the read waits for.
    pub fn wanted_len(&self) -> (n: usize)
        ensures
            n == self.wanted(),
    {
        match self.stage {
            PmsStage::Sync1 => 1,
            PmsStage::Sync2 => 1,
            PmsStage::Length => 2,
            PmsStage::Body => FRAME_BODY_LEN,
        }
    }

    /// The transfer that the read needs next: always a read of
    /// [`wanted`](Self::wanted) bytes.
    pub fn request(&self) -> (request: Request)
        ensures
            request@ == Transfer::Read(self.wanted()),
    {
        Request::Read(self.wanted_len())
    }

    /// The read with the current attempt moved on to `stage`.
    pub open spec fn at(self, stage: PmsStage) -> PmsRead {
        PmsRead { stage, ..self }
    }

    /// What becomes of the read when the current attempt fails for `why`: the
    /// next attempt starts at the first sync byte, unless this was the last
    /// attempt of the budget.
    pub open spec fn failing(self, why: PmsError) -> PmsStep {
        if self.failed + 1 >= MAX_SYNC_ATTEMPTS {
            PmsStep::Finished(Err(PmsError::MaxAttemptsExceeded))
        } else {
            PmsStep::Continue(
                PmsRead {
                    failed: (self.failed + 1) as u32,
                    stage: PmsStage::Sync1,
                    len_hi: 0,
                    len_lo: 0,
                    last_error: Some(why),
                },
            )
        }
    }

    /// What the read does with the outcome of the transfer it asked for.
    ///
    /// Anything but a delivery of exactly the wanted number of bytes fails the
    /// attempt as a transport error.
    pub open spec fn next(self, outcome: Outcome) -> PmsStep {
        match delivered(outcome, self.wanted()) {
            None => self.failing(PmsError::Read),
            Some(bytes) => match self.stage {
                PmsStage::Sync1 => if bytes[0] == FRAME_START_1 {
                    PmsStep::Continue(self.at(PmsStage::Sync2))
                } else {
                    self.failing(PmsError::Read)
                },
                PmsStage::Sync2 => if bytes[0] == FRAME_START_2 {
                    PmsStep::Continue(self.at(PmsStage::Length))
                } else {
                    self.failing(PmsError::Read)
                },
                PmsStage::Length => if be16(bytes[0], bytes[1]) == EXPECTED_FRAME_LEN {
                    PmsStep::Continue(
                        PmsRead { stage: PmsStage::Body, len_hi: bytes[0], len_lo: bytes[1], ..self },
                    )
                } else {
                    self.failing(PmsError::FrameLen)
                },
                PmsStage::Body => if checksum_matches(self.len_hi, self.len_lo, bytes) {
                    PmsStep::Finished(Ok(decode_body(bytes)))
                } else {
                    self.failing(PmsError::Checksum)
                },
            },
        }
    }

    fn fail(self, why: PmsError) -> (step: PmsStep)
        ensures
            step == self.failing(why),
    {
        if self.failed >= MAX_SYNC_ATTEMPTS - 1 {
            PmsStep::Finished(Err(PmsError::MaxAttemptsExceeded))
        } else {
            PmsStep::Continue(
                PmsRead {
                    failed: self.failed + 1,
                    stage: PmsStage::Sync1,
                    len_hi: 0,
                    len_lo: 0,
                    last_error: Some(why),
                },
            )
        }
    }

    /// Hands the read the outcome of the transfer it asked for.
    pub fn advance(self, response: &Response) -> (step: PmsStep)
        ensures
            step == self.next(response@),
    {
        match response.data_of_len(self.wanted_len()) {
            None => self.fail(PmsError::Read),
            Some(bytes) => match self.stage {
                PmsStage::Sync1 => if bytes[0] == FRAME_START_1 {
                    PmsStep::Continue(PmsRead { stage: PmsStage::Sync2, ..self })
                } else {
                    self.fail(PmsError::Read)
                },
                PmsStage::Sync2 => if bytes[0] == FRAME_START_2 {
                    PmsStep::Continue(PmsRead { stage: PmsStage::Length, ..self })
                } else {
                    self.fail(PmsError::Read)
                },
                PmsStage::Length => if u16_from_be(bytes[0], bytes[1]) == EXPECTED_FRAME_LEN {
                    PmsStep::Continue(
                        PmsRead { stage: PmsStage::Body, len_hi: bytes[0], len_lo: bytes[1], ..self },
                    )
                } else {
                    self.fail(PmsError::FrameLen)
                },
                PmsStage::Body => if body_checksum_matches(self.len_hi, self.len_lo, bytes) {
                    PmsStep::Finished(Ok(parse_body(bytes)))
                } else {
                    self.fail(PmsError::Checksum)
                },
            },
        }
    }
}

impl PmsRead {
    /// An upper bound on the transfers that the read may still ask for: four
    /// for every attempt that is left, less those that the current attempt
    /// has behind it.
    pub open spec fn transfers_left(self) -> int {
        4 * (MAX_SYNC_ATTEMPTS - self.failed) - match self.stage {
            PmsStage::Sync1 => 0int,
            PmsStage::Sync2 => 1int,
            PmsStage::Length => 2int,
            PmsStage::Body => 3int,
        }
    }
}

/// A read cannot go on for ever: whatever the line delivers, every step that
/// does not end the read leaves it with fewer transfers to ask for. A read
/// asks for at most 8192 transfers in all.
pub proof fn lemma_read_makes_progress(read: PmsRead, outcome: Outcome)
    requires
        read.failed < MAX_SYNC_ATTEMPTS,
    ensures
        PmsRead::fresh().transfers_left() == 8192,
        match read.next(outcome) {
            PmsStep::Continue(following) => {
                &&& following.failed < MAX_SYNC_ATTEMPTS
                &&& 0 < following.transfers_left() < read.transfers_left()
            },
            PmsStep::Finished(_) => true,
        },
{
}

/// How a read ended when it was fed from a stream of bytes.
#[derive(Debug, Clone, Copy, PartialEq, Eq)]
pub struct PmsReport {
    /// What the read returned.
    pub result: Result<PmsData, PmsError>,
    /// Bytes of the stream that the read took.
    pub consumed: usize,
    /// Attempts that failed before the read ended.
    pub failed: u32,
}

/// [`PmsReport`] over unbounded numbers.
pub struct PmsRun {
    pub result: Result<PmsData, PmsError>,
    pub consumed: nat,
    pub failed: nat,
}

impl PmsRead {
    /// How the read ends on a line that delivers the bytes of `stream` in
    /// order and fails every transfer once they run out. A transfer that the
    /// stream cannot fill takes what is left of it.
    pub open spec fn run(self, stream: Seq<u8>) -> PmsRun
        decreases stream.len(), MAX_SYNC_ATTEMPTS - self.failed,
    {
        let n = self.wanted();
        if stream.len() >= n {
            match self.next(Outcome::Data(stream.take(n as int))) {
                PmsStep::Continue(read) => {
                    let rest = read.run(stream.skip(n as int));
                    PmsRun { consumed: rest.consumed + n, ..rest }
                },
                PmsStep::Finished(result) => PmsRun {
                    result,
                    consumed: n,
                    failed: if result is Ok {
                        self.failed as nat
                    } else {
                        (self.failed + 1) as nat
                    },
                },
            }
        } else {
            match self.next(Outcome::Failed) {
                PmsStep::Continue(read) => {
                    let rest = read.run(Seq::empty());
                    PmsRun { consumed: rest.consumed + stream.len(), ..rest }
                },
                PmsStep::Finished(result) => PmsRun {
                    result,
                    consumed: stream.len(),
                    failed: (self.failed + 1) as nat,
                },
            }
        }
    }
}

/// Whether `frame` is a frame as the sensor sends it: both sync bytes, a
/// declared length of 28, and the checksum that belongs to its bytes.
pub open spec fn well_formed_frame(frame: Seq<u8>) -> bool {
    &&& frame.len() == FRAME_LEN
    &&& frame[0] == FRAME_START_1
    &&& frame[1] == FRAME_START_2
    &&& be16(frame[2], frame[3]) == EXPECTED_FRAME_LEN
    &&& checksum_matches(frame[2], frame[3], frame.skip(4))
}

/// The reading that a whole frame holds.
pub open spec fn decode_frame(frame: Seq<u8>) -> PmsData {
    decode_body(frame.skip(4))
}

/// Reads one frame from bytes held in memory, as a read does on a line that
/// delivers them in order and fails once they run out.
pub fn read_from(stream: &[u8]) -> (report: PmsReport)
    ensures
        report.result == PmsRead::fresh().run(stream@).result,
        report.consumed == PmsRead::fresh().run(stream@).consumed,
        report.failed == PmsRead::fresh().run(stream@).failed,
{
    let mut read: PmsRead = PmsRead::start();
    let mut pos: usize = 0;
    let ghost whole: PmsRun = PmsRead::fresh().run(stream@);
    proof {
        assert(stream@.skip(0) =~= stream@);
    }
    loop
        invariant
            pos <= stream@.len(),
            read.failed < MAX_SYNC_ATTEMPTS,
            whole == PmsRead::fresh().run(stream@),
            whole.result == read.run(stream@.skip(pos as int)).result,
            whole.consumed == read.run(stream@.skip(pos as int)).consumed + pos,
            whole.failed == read.run(stream@.skip(pos as int)).failed,
        decreases stream@.len() - pos, MAX_SYNC_ATTEMPTS - read.failed,
    {
        let n: usize = read.wanted_len();
        let left: usize = stream.len() - pos;
        let ghost tail: Seq<u8> = stream@.skip(pos as int);
        if left >= n {
            let chunk: &[u8] = vstd::slice::slice_subrange(stream, pos, pos + n);
            proof {
                assert(chunk@ =~= tail.take(n as int));
                assert(tail.skip(n as int) =~= stream@.skip(pos + n));
            }
            match read.advance(&Response::Data(chunk)) {
                PmsStep::Continue(following) => {
                    read = following;
                    pos = pos + n;
                },
                PmsStep::Finished(result) => {
                    let failed: u32 = match result {
                        Ok(_) => read.failed,
                        Err(_) => read.failed + 1,
                    };
                    return PmsReport { result, consumed: pos + n, failed };
                },
            }
        } else {
            proof {
                assert(stream@.skip(stream@.len() as int) =~= Seq::<u8>::empty());
            }
            match read.advance(&Response::Failed) {
                PmsStep::Continue(following) => {
                    read = following;
                    pos = stream.len();
                },
                PmsStep::Finished(result) => {
                    return PmsReport { result, consumed: stream.len(), failed: read.failed + 1 };
                },
            }
        }
    }
}

/// Whether a well-formed frame lies in `stream` at offset `k`.
pub open spec fn frame_at(stream: Seq<u8>, k: int) -> bool {
    &&& 0 <= k
    &&& k + FRAME_LEN <= stream.len()
    &&& well_formed_frame(stream.subrange(k, k + FRAME_LEN))
}

/// What every read that starts at a frame boundary comes to: it returns the
/// reading of a well-formed frame that lies in the stream and has taken the
/// stream up to that frame's end, or it has failed as often as the budget
/// allows and says so.
pub open spec fn ends_in_frame_or_budget(read: PmsRead, stream: Seq<u8>) -> bool {
    let run = read.run(stream);
    &&& run.consumed <= stream.len()
    &&& match run.result {
        Ok(data) => {
            &&& read.failed <= run.failed < MAX_SYNC_ATTEMPTS
            &&& exists|k: int|
                {
                    &&& #[trigger] frame_at(stream, k)
                    &&& data == decode_frame(stream.subrange(k, k + FRAME_LEN))
                    &&& run.consumed == k + FRAME_LEN
                }
        },
        Err(e) => e == PmsError::MaxAttemptsExceeded && run.failed == MAX_SYNC_ATTEMPTS,
    }
}

/// A read that waits for a first sync byte and finds a well-formed frame at
/// the head of the stream returns that frame's reading, takes exactly the
/// frame, and adds no failed attempt.
pub proof fn lemma_frame_at_head_is_decoded(read: PmsRead, stream: Seq<u8>)
    requires
        read.stage == PmsStage::Sync1,
        frame_at(stream, 0),
    ensures
        read.run(stream) == (PmsRun {
            result: Ok(decode_frame(stream.subrange(0, FRAME_LEN as int))),
            consumed: FRAME_LEN as nat,
            failed: read.failed as nat,
        }),
{
    let frame = stream.subrange(0, FRAME_LEN as int);
    let s1 = stream.skip(1);
    let s2 = s1.skip(1);
    let s4 = s2.skip(2);
    let r2 = read.at(PmsStage::Sync2);
    let r3 = read.at(PmsStage::Length);
    let r4 = PmsRead { stage: PmsStage::Body, len_hi: stream[2], len_lo: stream[3], ..read };
    let done = PmsRun {
        result: Ok(decode_body(frame.skip(4))),
        consumed: FRAME_BODY_LEN as nat,
        failed: read.failed as nat,
    };
    assert(stream.take(1)[0] == frame[0]);
    assert(s1.take(1)[0] == frame[1]);
    assert(s2.take(2)[0] == frame[2]);
    assert(s2.take(2)[1] == frame[3]);
    assert(s4.take(FRAME_BODY_LEN as int) =~= frame.skip(4));
    assert(r4.run(s4) == done);
    assert(r3.run(s2) == PmsRun { consumed: 30, ..done });
    assert(r2.run(s1) == PmsRun { consumed: 31, ..done });
}

/// A well-formed frame at the start of the line is decoded to exactly the
/// values it holds, whatever follows it.
pub proof fn lemma_well_formed_frame_decodes(frame: Seq<u8>, rest: Seq<u8>)
    requires
        well_formed_frame(frame),
    ensures
        PmsRead::fresh().run(frame + rest) == (PmsRun {
            result: Ok(decode_frame(frame)),
            consumed: FRAME_LEN as nat,
            failed: 0,
        }),
{
    let stream = frame + rest;
    assert(stream.subrange(0, FRAME_LEN as int) =~= frame);
    lemma_frame_at_head_is_decoded(PmsRead::fresh(), stream);
}

/// The read that follows a failed attempt of `read`, where the budget allows one.
pub open spec fn retry(read: PmsRead, why: PmsError) -> PmsRead {
    PmsRead {
        failed: (read.failed + 1) as u32,
        stage: PmsStage::Sync1,
        len_hi: 0,
        len_lo: 0,
        last_error: Some(why),
    }
}

proof fn lemma_retry_ends(read: PmsRead, why: PmsError, stream: Seq<u8>, c: int)
    requires
        read.failed < MAX_SYNC_ATTEMPTS,
        0 <= c <= stream.len(),
        read.failed + 1 < MAX_SYNC_ATTEMPTS ==> ends_in_frame_or_budget(
            retry(read, why),
            stream.skip(c),
        ),
        read.failed + 1 < MAX_SYNC_ATTEMPTS ==> read.run(stream) == (PmsRun {
            consumed: (retry(read, why).run(stream.skip(c)).consumed + c) as nat,
            ..retry(read, why).run(stream.skip(c))
        }),
        read.failed + 1 >= MAX_SYNC_ATTEMPTS ==> read.run(stream) == (PmsRun {
            result: Err(PmsError::MaxAttemptsExceeded),
            consumed: c as nat,
            failed: (read.failed + 1) as nat,
        }),
    ensures
        ends_in_frame_or_budget(read, stream),
{
    if read.failed + 1 < MAX_SYNC_ATTEMPTS {
        let tail = stream.skip(c);
        let rest = retry(read, why).run(tail);
        match rest.result {
            Ok(data) => {
                let k = choose|k: int|
                    {
                        &&& #[trigger] frame_at(tail, k)
                        &&& data == decode_frame(tail.subrange(k, k + FRAME_LEN))
                        &&& rest.consumed == k + FRAME_LEN
                    };
                assert(tail.subrange(k, k + FRAME_LEN) =~= stream.subrange(
                    k + c,
                    k + c + FRAME_LEN,
                ));
                assert(frame_at(stream, k + c));
            },
            Err(_) => {},
        }
    }
}

/// Whatever the line delivers, a read that starts at a frame boundary ends in
/// one of two ways: with the reading of a well-formed frame found in the
/// stream, or, after exactly [`MAX_SYNC_ATTEMPTS`] failed attempts, with
/// [`PmsError::MaxAttemptsExceeded`]. No other error leaves a read.
pub proof fn lemma_read_ends_in_frame_or_budget(read: PmsRead, stream: Seq<u8>)
    requires
        read.stage == PmsStage::Sync1,
        read.failed < MAX_SYNC_ATTEMPTS,
    ensures
        ends_in_frame_or_budget(read, stream),
    decreases stream.len(), MAX_SYNC_ATTEMPTS - read.failed,
{
    let more = read.failed + 1 < MAX_SYNC_ATTEMPTS;
    let len = stream.len() as int;
    let none = Seq::<u8>::empty();
    assert(stream.skip(len) =~= none);
    let r2 = read.at(PmsStage::Sync2);
    let r3 = read.at(PmsStage::Length);
    let s1 = stream.skip(1);
    let s2 = s1.skip(1);
    let s4 = s2.skip(2);
    let s32 = s4.skip(FRAME_BODY_LEN as int);
    if len < 1 {
        let why = PmsError::Read;
        if more {
            lemma_read_ends_in_frame_or_budget(retry(read, why), none);
        }
        lemma_retry_ends(read, why, stream, len);
    } else if stream[0] != FRAME_START_1 {
        let why = PmsError::Read;
        assert(stream.take(1)[0] == stream[0]);
        if more {
            lemma_read_ends_in_frame_or_budget(retry(read, why), s1);
        }
        lemma_retry_ends(read, why, stream, 1);
    } else if len < 2 {
        let why = PmsError::Read;
        assert(stream.take(1)[0] == stream[0]);
        if more {
            lemma_read_ends_in_frame_or_budget(retry(read, why), none);
            assert(r2.run(s1).consumed == retry(read, why).run(none).consumed + s1.len());
        }
        lemma_retry_ends(read, why, stream, len);
    } else if stream[1] != FRAME_START_2 {
        let why = PmsError::Read;
        assert(stream.take(1)[0] == stream[0]);
        assert(s1.take(1)[0] == stream[1]);
        assert(s2 =~= stream.skip(2));
        if more {
            lemma_read_ends_in_frame_or_budget(retry(read, why), s2);
            assert(r2.run(s1).consumed == retry(read, why).run(s2).consumed + 1);
        }
        lemma_retry_ends(read, why, stream, 2);
    } else if len < 4 {
        let why = PmsError::Read;
        assert(stream.take(1)[0] == stream[0]);
        assert(s1.take(1)[0] == stream[1]);
        if more {
            lemma_read_ends_in_frame_or_budget(retry(read, why), none);
            assert(r3.run(s2).consumed == retry(read, why).run(none).consumed + s2.len());
            assert(r2.run(s1).consumed == r3.run(s2).consumed + 1);
        } else {
            assert(r3.run(s2).consumed == s2.len());
            assert(r2.run(s1).consumed == r3.run(s2).consumed + 1);
        }
        lemma_retry_ends(read, why, stream, len);
    } else if be16(stream[2], stream[3]) != EXPECTED_FRAME_LEN {
        let why = PmsError::FrameLen;
        assert(stream.take(1)[0] == stream[0]);
        assert(s1.take(1)[0] == stream[1]);
        assert(s2.take(2)[0] == stream[2]);
        assert(s2.take(2)[1] == stream[3]);
        assert(s4 =~= stream.skip(4));
        if more {
            lemma_read_ends_in_frame_or_budget(retry(read, why), s4);
            assert(r3.run(s2).consumed == retry(read, why).run(s4).consumed + 2);
            assert(r2.run(s1).consumed == r3.run(s2).consumed + 1);
        } else {
            assert(r3.run(s2).consumed == 2);
            assert(r2.run(s1).consumed == r3.run(s2).consumed + 1);
        }
        lemma_retry_ends(read, why, stream, 4);
    } else {
        let r4 = PmsRead { stage: PmsStage::Body, len_hi: stream[2], len_lo: stream[3], ..read };
        assert(stream.take(1)[0] == stream[0]);
        assert(s1.take(1)[0] == stream[1]);
        assert(s2.take(2)[0] == stream[2]);
        assert(s2.take(2)[1] == stream[3]);
        assert(r3.run(s2).result == r4.run(s4).result);
        assert(r3.run(s2).failed == r4.run(s4).failed);
        assert(r3.run(s2).consumed == r4.run(s4).consumed + 2);
        assert(r2.run(s1).result == r3.run(s2).result);
        assert(r2.run(s1).failed == r3.run(s2).failed);
        assert(r2.run(s1).consumed == r3.run(s2).consumed + 1);
        if len < FRAME_LEN {
            let why = PmsError::Read;
            if more {
                lemma_read_ends_in_frame_or_budget(retry(read, why), none);
                assert(r4.run(s4).consumed == retry(read, why).run(none).consumed + s4.len());
            }
            lemma_retry_ends(read, why, stream, len);
        } else if !checksum_matches(stream[2], stream[3], s4.take(FRAME_BODY_LEN as int)) {
            let why = PmsError::Checksum;
            assert(s32 =~= stream.skip(FRAME_LEN as int));
            if more {
                lemma_read_ends_in_frame_or_budget(retry(read, why), s32);
                assert(r4.run(s4).consumed == retry(read, why).run(s32).consumed + 28);
            }
            lemma_retry_ends(read, why, stream, FRAME_LEN as int);
        } else {
            let frame = stream.subrange(0, FRAME_LEN as int);
            assert(frame.skip(4) =~= s4.take(FRAME_BODY_LEN as int));
            assert(frame_at(stream, 0));
            lemma_frame_at_head_is_decoded(read, stream);
        }
    }
}

/// A frame whose only fault is its checksum costs one attempt and exactly its
/// own 32 bytes: the read goes on at the byte after it, as a read with one
/// more failed attempt would on the rest of the stream.
pub proof fn lemma_bad_checksum_costs_one_attempt(read: PmsRead, frame: Seq<u8>, rest: Seq<u8>)
    requires
        read.stage == PmsStage::Sync1,
        read.failed + 1 < MAX_SYNC_ATTEMPTS,
        frame.len() == FRAME_LEN,
        frame[0] == FRAME_START_1,
        frame[1] == FRAME_START_2,
        be16(frame[2], frame[3]) == EXPECTED_FRAME_LEN,
        !checksum_matches(frame[2], frame[3], frame.skip(4)),
    ensures
        read.run(frame + rest) == (PmsRun {
            consumed: retry(read, PmsError::Checksum).run(rest).consumed + FRAME_LEN as nat,
            ..retry(read, PmsError::Checksum).run(rest)
        }),
{
    let stream = frame + rest;
    let s1 = stream.skip(1);
    let s2 = s1.skip(1);
    let s4 = s2.skip(2);
    let r2 = read.at(PmsStage::Sync2);
    let r3 = read.at(PmsStage::Length);
    let r4 = PmsRead { stage: PmsStage::Body, len_hi: stream[2], len_lo: stream[3], ..read };
    let after = retry(read, PmsError::Checksum).run(rest);
    assert(stream.take(1)[0] == frame[0]);
    assert(s1.take(1)[0] == frame[1]);
    assert(s2.take(2)[0] == frame[2]);
    assert(s2.take(2)[1] == frame[3]);
    assert(s4.take(FRAME_BODY_LEN as int) =~= frame.skip(4));
    assert(s4.skip(FRAME_BODY_LEN as int) =~= rest);
    assert(r4.run(s4) == PmsRun { consumed: after.consumed + 28, ..after });
    assert(r3.run(s2) == PmsRun { consumed: after.consumed + 30, ..after });
    assert(r2.run(s1) == PmsRun { consumed: after.consumed + 31, ..after });
}

/// Resynchronisation recovers: after a frame whose checksum is wrong, a
/// well-formed frame that follows it directly is decoded, at the cost of one
/// failed attempt.
pub proof fn lemma_recovers_after_bad_checksum(frame: Seq<u8>, good: Seq<u8>, rest: Seq<u8>)
    requires
        frame.len() == FRAME_LEN,
        frame[0] == FRAME_START_1,
        frame[1] == FRAME_START_2,
        be16(frame[2], frame[3]) == EXPECTED_FRAME_LEN,
        !checksum_matches(frame[2], frame[3], frame.skip(4)),
        well_formed_frame(good),
    ensures
        PmsRead::fresh().run(frame + (good + rest)) == (PmsRun {
            result: Ok(decode_frame(good)),
            consumed: 2 * FRAME_LEN as nat,
            failed: 1,
        }),
{
    let tail = good + rest;
    lemma_bad_checksum_costs_one_attempt(PmsRead::fresh(), frame, tail);
    assert(tail.subrange(0, FRAME_LEN as int) =~= good);
    lemma_frame_at_head_is_decoded(retry(PmsRead::fresh(), PmsError::Checksum), tail);
}

/// The particulate-matter line: the transport that its frames arrive on.
pub struct Pms5003t<UART> {
    uart: UART,
}

impl<UART> Pms5003t<UART> {
    /// The transport that the driver holds.
    pub closed spec fn transport(&self) -> UART {
        self.uart
    }

    /// A driver on `uart`.
    pub fn new(uart: UART) -> (driver: Self)
        ensures
            driver.transport() == uart,
    {
        Self { uart }
    }

    /// Begins a read of one frame. The caller carries out each transfer that
    /// the read asks for on [`uart`](Self::uart) and hands the outcome to
    /// [`PmsRead::advance`].
    pub fn read(&self) -> (read: PmsRead)
        ensures
            read == PmsRead::fresh(),
    {
        PmsRead::start()
    }

    /// The transport, for carrying out a transfer.
    pub fn uart(&mut self) -> (uart: &mut UART)
        ensures
            *uart == old(self).transport(),
            final(self).transport() == *final(uart),
    {
        &mut self.uart
    }
}

/// Whether the checksum field of a frame's body matches the frame.
pub fn verify_checksum(len_buf: &[u8; 2], data_buf: &[u8; 28]) -> (ok: bool)
    ensures
        ok == checksum_matches(len_buf@[0], len_buf@[1], data_buf@),
{
    body_checksum_matches(len_buf[0], len_buf[1], data_buf.as_slice())
}

/// Decodes the body of a frame.
pub fn parse_frame(data_buf: &[u8; 28]) -> (data: PmsData)
    ensures
        data == decode_body(data_buf@),
{
    parse_body(data_buf.as_slice())
}

} // verus!
