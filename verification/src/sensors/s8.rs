//! CO2 line: one fixed Modbus request, one seven-byte reply.

use vstd::prelude::*;
use crate::sensors::wire::{be16, completed, delivered, high_byte, low_byte, u16_from_be, Outcome, Request, Response, Transfer};

verus! {

/// Address every sensor answers to.
pub const MODBUS_ADDR_ANY: u8 = 0xFE;

/// Function code "read input register".
pub const MODBUS_FUNC_READ_INPUT: u8 = 0x04;

/// High byte of the register that holds the CO2 reading.
pub const MODBUS_IR4_CO2_HIGH: u8 = 0x00;

/// Low byte of the register that holds the CO2 reading.
pub const MODBUS_IR4_CO2_LOW: u8 = 0x03;

/// High byte of the number of registers asked for.
pub const MODBUS_READ_LEN_HIGH: u8 = 0x00;

/// Low byte of the number of registers asked for.
pub const MODBUS_READ_LEN_LOW: u8 = 0x01;

/// Byte count that a reply to the request announces.
pub const RESPONSE_BYTE_COUNT: u8 = 0x02;

/// Length of a reply on the wire.
pub const RESPONSE_LEN: usize = 7;

/// Why a CO2 reading could not be had.
#[derive(Debug, Copy, Clone, PartialEq, Eq, Structural)]
pub enum S8Error {
    ReadError,
    WriteError,
    ChecksumError,
    InvalidHeader,
}

/// One conditional shift of the Modbus CRC register: shift right, and fold the
/// reflected polynomial in when a one fell out.
pub open spec fn crc16_shift(crc: u16) -> u16 {
    if crc & 1 != 0 {
        (crc >> 1) ^ 0xA001
    } else {
        crc >> 1
    }
}

/// `rounds` conditional shifts in a row.
pub open spec fn crc16_shifts(crc: u16, rounds: nat) -> u16
    decreases rounds,
{
    if rounds == 0 {
        crc
    } else {
        crc16_shift(crc16_shifts(crc, (rounds - 1) as nat))
    }
}

/// The CRC register after one more message byte.
pub open spec fn crc16_update(crc: u16, byte: u8) -> u16 {
    crc16_shifts(crc ^ (byte as u16), 8)
}

/// Modbus CRC16 of a message: register preset to 0xFFFF, bytes folded in from
/// first to last.
pub open spec fn crc16_modbus_spec(data: Seq<u8>) -> u16
    decreases data.len(),
{
    if data.len() == 0 {
        0xFFFF
    } else {
        crc16_update(crc16_modbus_spec(data.drop_last()), data.last())
    }
}

/// Modbus CRC16 of the first `n` bytes of `data`.
fn crc16_modbus_prefix(data: &[u8], n: usize) -> (crc: u16)
    requires
        n <= data@.len(),
    ensures
        crc == crc16_modbus_spec(data@.take(n as int)),
{
    let mut crc: u16 = 0xFFFF;
    let mut i: usize = 0;
    while i < n
        invariant
            i <= n <= data@.len(),
            crc == crc16_modbus_spec(data@.take(i as int)),
        decreases n - i,
    {
        crc = crc ^ (data[i] as u16);
        let ghost mixed: u16 = crc;
        let mut round: u8 = 0;
        while round < 8
            invariant
                round <= 8,
                crc == crc16_shifts(mixed, round as nat),
            decreases 8 - round,
        {
            if crc & 1 != 0 {
                crc = (crc >> 1) ^ 0xA001;
            } else {
                crc = crc >> 1;
            }
            round = round + 1;
        }
        proof {
            let next = data@.take(i + 1);
            assert(next.drop_last() =~= data@.take(i as int));
            assert(next.last() == data@[i as int]);
        }
        i = i + 1;
    }
    crc
}

/// Modbus CRC16 of a message.
pub fn crc16_modbus(data: &[u8]) -> (crc: u16)
    ensures
        crc == crc16_modbus_spec(data@),
{
    proof {
        assert(data@.take(data@.len() as int) =~= data@);
    }
    crc16_modbus_prefix(data, data.len())
}

/// The six bytes of the request that the CRC covers: address, function,
/// register, register count.
pub open spec fn request_header() -> Seq<u8> {
    seq![
        MODBUS_ADDR_ANY,
        MODBUS_FUNC_READ_INPUT,
        MODBUS_IR4_CO2_HIGH,
        MODBUS_IR4_CO2_LOW,
        MODBUS_READ_LEN_HIGH,
        MODBUS_READ_LEN_LOW,
    ]
}

/// The request on the wire: the header, then its CRC, low byte first.
pub open spec fn request_frame() -> Seq<u8> {
    request_header().push((crc16_modbus_spec(request_header()) % 256) as u8).push(
        (crc16_modbus_spec(request_header()) / 256) as u8,
    )
}

/// Whether a reply starts with the address, function code and byte count that
/// answer the request.
pub open spec fn header_matches(buf: Seq<u8>) -> bool {
    &&& buf[0] == MODBUS_ADDR_ANY
    &&& buf[1] == MODBUS_FUNC_READ_INPUT
    &&& buf[2] == RESPONSE_BYTE_COUNT
}

/// The CRC that a reply carries: its last two bytes, low byte first.
pub open spec fn received_crc(buf: Seq<u8>) -> int {
    be16(buf[6], buf[5])
}

/// What is wrong with a seven-byte reply, if anything. The header is judged
/// before the CRC.
pub open spec fn check_response(buf: Seq<u8>) -> Result<(), S8Error> {
    if !header_matches(buf) {
        Err(S8Error::InvalidHeader)
    } else if crc16_modbus_spec(buf.take(5)) != received_crc(buf) {
        Err(S8Error::ChecksumError)
    } else {
        Ok(())
    }
}

/// The CO2 concentration in ppm that a seven-byte reply reports, or what is
/// wrong with the reply.
pub open spec fn decode_response(buf: Seq<u8>) -> Result<u16, S8Error> {
    match check_response(buf) {
        Err(e) => Err(e),
        Ok(_) => Ok(be16(buf[3], buf[4]) as u16),
    }
}

/// Builds the request.
pub fn build_request() -> (cmd: Vec<u8>)
    ensures
        cmd@ == request_frame(),
{
    let mut cmd: Vec<u8> = vec![
        MODBUS_ADDR_ANY,
        MODBUS_FUNC_READ_INPUT,
        MODBUS_IR4_CO2_HIGH,
        MODBUS_IR4_CO2_LOW,
        MODBUS_READ_LEN_HIGH,
        MODBUS_READ_LEN_LOW,
    ];
    proof {
        assert(cmd@ =~= request_header());
    }
    let crc: u16 = crc16_modbus(cmd.as_slice());
    cmd.push(low_byte(crc));
    cmd.push(high_byte(crc));
    cmd
}

fn check_reply(buf: &[u8]) -> (checked: Result<(), S8Error>)
    requires
        buf@.len() == RESPONSE_LEN,
    ensures
        checked == check_response(buf@),
{
    if buf[0] != MODBUS_ADDR_ANY || buf[1] != MODBUS_FUNC_READ_INPUT || buf[2]
        != RESPONSE_BYTE_COUNT {
        return Err(S8Error::InvalidHeader);
    }
    let received: u16 = u16_from_be(buf[6], buf[5]);
    let calculated: u16 = crc16_modbus_prefix(buf, 5);
    if calculated != received {
        return Err(S8Error::ChecksumError);
    }
    Ok(())
}

fn decode_reply(buf: &[u8]) -> (decoded: Result<u16, S8Error>)
    requires
        buf@.len() == RESPONSE_LEN,
    ensures
        decoded == decode_response(buf@),
{
    match check_reply(buf) {
        Err(e) => Err(e),
        Ok(_) => Ok(u16_from_be(buf[3], buf[4])),
    }
}

/// Checks the header and the CRC of a reply.
pub fn validate_response(buf: &[u8; 7]) -> (checked: Result<(), S8Error>)
    ensures
        checked == check_response(buf@),
{
    check_reply(buf.as_slice())
}

/// Where an exchange with the sensor stands.
#[derive(Debug, Clone, Copy, PartialEq, Eq, Structural)]
pub enum S8Exchange {
    /// The request has to go out.
    Sending,
    /// The request is out and the reply is awaited.
    Receiving,
}

/// What an exchange does after it was handed the outcome of a transfer.
#[derive(Debug, Clone, Copy, PartialEq, Eq)]
pub enum S8Step {
    /// The exchange goes on and needs another transfer.
    Continue(S8Exchange),
    /// The exchange is over.
    Finished(Result<u16, S8Error>),
}

impl S8Exchange {
    /// The transfer that the exchange needs next.
    pub open spec fn wanted(self) -> Transfer {
        match self {
            S8Exchange::Sending => Transfer::Write(request_frame()),
            S8Exchange::Receiving => Transfer::Read(RESPONSE_LEN as nat),
        }
    }

    /// The transfer that the exchange needs next.
    pub fn request(&self) -> (request: Request)
        ensures
            request@ == self.wanted(),
    {
        match self {
            S8Exchange::Sending => Request::Write(build_request()),
            S8Exchange::Receiving => Request::Read(RESPONSE_LEN),
        }
    }

    /// What the exchange does with the outcome of the transfer it asked for.
    ///
    /// A request that did not go out ends the exchange with
    /// [`S8Error::WriteError`] and nothing is read. Anything but a delivery of
    /// seven bytes ends it with [`S8Error::ReadError`]. There is no retry.
    pub open spec fn next(self, outcome: Outcome) -> S8Step {
        match self {
            S8Exchange::Sending => if completed(outcome) {
                S8Step::Continue(S8Exchange::Receiving)
            } else {
                S8Step::Finished(Err(S8Error::WriteError))
            },
            S8Exchange::Receiving => match delivered(outcome, RESPONSE_LEN as nat) {
                Some(buf) => S8Step::Finished(decode_response(buf)),
                None => S8Step::Finished(Err(S8Error::ReadError)),
            },
        }
    }

    /// The number of transfers that the exchange may still ask for.
    pub open spec fn transfers_left(self) -> int {
        match self {
            S8Exchange::Sending => 2,
            S8Exchange::Receiving => 1,
        }
    }

    /// Hands the exchange the outcome of the transfer it asked for.
    pub fn advance(self, response: &Response) -> (step: S8Step)
        ensures
            step == self.next(response@),
    {
        match self {
            S8Exchange::Sending => if response.is_done() {
                S8Step::Continue(S8Exchange::Receiving)
            } else {
                S8Step::Finished(Err(S8Error::WriteError))
            },
            S8Exchange::Receiving => match response.data_of_len(RESPONSE_LEN) {
                Some(buf) => S8Step::Finished(decode_reply(buf)),
                None => S8Step::Finished(Err(S8Error::ReadError)),
            },
        }
    }
}

/// The CO2 line: the transport that the exchange runs on.
pub struct S8<UART> {
    uart: UART,
}

impl<UART> S8<UART> {
    /// The transport that the driver holds.
    pub closed spec fn transport(&self) -> UART {
        self.uart
    }

    /// A driver on `uart`.
    pub fn new(uart: UART) -> (driver: Self)
        ensures
            driver.transport() == uart,
    {
        Self { uart }
    }

    /// Begins one exchange for the CO2 concentration. The caller carries out
    /// each transfer that the exchange asks for on [`uart`](Self::uart) and
    /// hands the outcome to [`S8Exchange::advance`].
    pub fn get_co2(&self) -> (exchange: S8Exchange)
        ensures
            exchange == S8Exchange::Sending,
    {
        S8Exchange::Sending
    }

    /// The transport, for carrying out a transfer.
    pub fn uart(&mut self) -> (uart: &mut UART)
        ensures
            *uart == old(self).transport(),
            final(self).transport() == *final(uart),
    {
        &mut self.uart
    }
}

} // verus!
