//! Gas line: VOC and NOx over I2C, behind a warm-up gate.
//!
//! Every exchange with the sensor is a command write, a settle delay and a
//! reply read; each 16-bit word on the wire is followed by its CRC8. The
//! driver keeps the sensor's lifecycle and the two running gas-index
//! algorithms, which live as long as the driver does.

use vstd::prelude::*;
use gas_index_algorithm::{AlgorithmType, GasIndexAlgorithm};
use crate::sensors::wire::{be16, completed, delivered, high_byte, low_byte, u16_from_be, Outcome, Request, Response, Transfer};

verus! {

/// I2C address of the sensor.
pub const SGP41_ADDRESS: u8 = 0x59;

/// First byte of the command "measure raw signals".
pub const CMD_MEASURE_RAW_0: u8 = 0x26;

/// Second byte of the command "measure raw signals".
pub const CMD_MEASURE_RAW_1: u8 = 0x19;

/// First byte of the command "run the self-test".
pub const CMD_SELF_TEST_0: u8 = 0x28;

/// Second byte of the command "run the self-test".
pub const CMD_SELF_TEST_1: u8 = 0x0E;

/// First byte of the command "turn the heater off".
pub const CMD_HEATER_OFF_0: u8 = 0x36;

/// Second byte of the command "turn the heater off".
pub const CMD_HEATER_OFF_1: u8 = 0x15;

/// Humidity compensation that stands for 50 % relative humidity.
pub const DEFAULT_RH_TICKS: u16 = 0x8000;

/// Temperature compensation that stands for 25 degrees Celsius.
pub const DEFAULT_TEMP_TICKS: u16 = 0x6666;

/// Milliseconds between a measurement command and its reply.
pub const MEASURE_DELAY_MS: u32 = 50;

/// Milliseconds between the self-test command and its reply.
pub const SELF_TEST_DELAY_MS: u32 = 320;

/// Milliseconds of conditioning, the conditioning measurement included.
pub const CONDITIONING_DELAY_MS: u32 = 10_000;

/// Bytes of a measurement reply: two words, each with its CRC.
pub const RESPONSE_SIZE: usize = 6;

/// Bytes of a self-test reply: one word with its CRC.
pub const SELF_TEST_RESPONSE_SIZE: usize = 3;

/// The self-test result that means "all tests passed".
pub const SELF_TEST_OK: u16 = 0xD400;

/// Largest value of a gas index.
pub const GAS_INDEX_MAX: i32 = 500;

/// Why an operation on the gas sensor failed.
#[derive(Debug, Copy, Clone, PartialEq, Eq)]
pub enum Sgp41Error {
    /// A transfer on the bus failed.
    I2cError,
    /// A word of a reply does not match its CRC.
    CrcError,
    /// The self-test reported this result instead of [`SELF_TEST_OK`].
    SelfTestFailed(u16),
    /// The operation needs a sensor that is further along its lifecycle.
    NotInitialized,
}

/// One conditional shift of the CRC8 register: shift left, and fold the
/// polynomial 0x31 in when a one fell out.
pub open spec fn crc8_shift(crc: u8) -> u8 {
    if crc & 0x80 != 0 {
        (crc << 1) ^ 0x31
    } else {
        crc << 1
    }
}

/// `rounds` conditional shifts in a row.
pub open spec fn crc8_shifts(crc: u8, rounds: nat) -> u8
    decreases rounds,
{
    if rounds == 0 {
        crc
    } else {
        crc8_shift(crc8_shifts(crc, (rounds - 1) as nat))
    }
}

/// CRC8 of a message: register preset to 0xFF, bytes folded in from first to
/// last, most significant bit first.
pub open spec fn crc8_spec(data: Seq<u8>) -> u8
    decreases data.len(),
{
    if data.len() == 0 {
        0xFF
    } else {
        crc8_shifts(crc8_spec(data.drop_last()) ^ data.last(), 8)
    }
}

/// CRC8 of a message.
pub fn crc8(data: &[u8]) -> (crc: u8)
    ensures
        crc == crc8_spec(data@),
{
    let mut crc: u8 = 0xFF;
    let mut i: usize = 0;
    while i < data.len()
        invariant
            i <= data@.len(),
            crc == crc8_spec(data@.take(i as int)),
        decreases data@.len() - i,
    {
        crc = crc ^ data[i];
        let ghost mixed: u8 = crc;
        let mut round: u8 = 0;
        while round < 8
            invariant
                round <= 8,
                crc == crc8_shifts(mixed, round as nat),
            decreases 8 - round,
        {
            if crc & 0x80 != 0 {
                crc = (crc << 1) ^ 0x31;
            } else {
                crc = crc << 1;
            }
            round = round + 1;
        }
        proof {
            let next = data@.take(i + 1);
            assert(next.drop_last() =~= data@.take(i as int));
            assert(next.last() == data@[i as int]);
        }
        i = i + 1;
    }
    proof {
        assert(data@.take(data@.len() as int) =~= data@);
    }
    crc
}

/// CRC8 of one 16-bit word as it travels, most significant byte first.
pub open spec fn word_crc(hi: u8, lo: u8) -> u8 {
    crc8_spec(seq![hi, lo])
}

fn crc8_word(hi: u8, lo: u8) -> (crc: u8)
    ensures
        crc == word_crc(hi, lo),
{
    let word: [u8; 2] = [hi, lo];
    proof {
        assert(word@ =~= seq![hi, lo]);
    }
    crc8(word.as_slice())
}

/// Checks received data against the CRC that came with it.
pub fn validate_crc(data: &[u8], expected_crc: u8) -> (checked: Result<(), Sgp41Error>)
    ensures
        checked == if crc8_spec(data@) == expected_crc {
            Ok::<(), Sgp41Error>(())
        } else {
            Err::<(), Sgp41Error>(Sgp41Error::CrcError)
        },
{
    if crc8(data) == expected_crc {
        Ok(())
    } else {
        Err(Sgp41Error::CrcError)
    }
}

/// Humidity compensation word for a relative humidity given in tenths of a
/// percent: the humidity, held to 0 ..= 100 %, on a scale where 100 % is 65535,
/// rounded down.
pub open spec fn humidity_ticks(humidity: int) -> int {
    let held = if humidity < 0 {
        0
    } else if humidity > 1000 {
        1000
    } else {
        humidity
    };
    held * 65535 / 1000
}

/// Temperature compensation word for a temperature given in tenths of a
/// degree Celsius: the temperature, held to -45 ..= 130 degrees, on a scale
/// where -45 degrees is 0 and 130 degrees is 65535, rounded down.
pub open spec fn temperature_ticks(temp: int) -> int {
    let held = if temp < -450 {
        -450
    } else if temp > 1300 {
        1300
    } else {
        temp
    };
    (held + 450) * 65535 / 1750
}

/// Converts a relative humidity in tenths of a percent to a compensation word.
pub fn humidity_to_ticks(humidity: i32) -> (ticks: u16)
    ensures
        ticks == humidity_ticks(humidity as int),
{
    let held: i64 = if humidity < 0 {
        0
    } else if humidity > 1000 {
        1000
    } else {
        humidity as i64
    };
    (held * 65535 / 1000) as u16
}

/// Converts a temperature in tenths of a degree Celsius to a compensation word.
pub fn temperature_to_ticks(temp: i32) -> (ticks: u16)
    ensures
        ticks == temperature_ticks(temp as int),
{
    let held: i64 = if temp < -450 {
        -450
    } else if temp > 1300 {
        1300
    } else {
        temp as i64
    };
    ((held + 450) * 65535 / 1750) as u16
}

/// Inputs outside 0 ..= 100 % are held to the nearest end of that range before
/// they are scaled.
pub proof fn lemma_humidity_is_clamped(humidity: int)
    ensures
        humidity <= 0 ==> humidity_ticks(humidity) == humidity_ticks(0) == 0,
        humidity >= 1000 ==> humidity_ticks(humidity) == humidity_ticks(1000) == 65535,
        0 <= humidity_ticks(humidity) <= 65535,
{
}

/// A higher humidity never gives a lower compensation word.
pub proof fn lemma_humidity_is_monotonic(lower: int, higher: int)
    requires
        lower <= higher,
    ensures
        humidity_ticks(lower) <= humidity_ticks(higher),
{
}

/// Inputs outside -45 ..= 130 degrees are held to the nearest end of that range
/// before they are scaled.
pub proof fn lemma_temperature_is_clamped(temp: int)
    ensures
        temp <= -450 ==> temperature_ticks(temp) == temperature_ticks(-450) == 0,
        temp >= 1300 ==> temperature_ticks(temp) == temperature_ticks(1300) == 65535,
        0 <= temperature_ticks(temp) <= 65535,
{
}

/// A higher temperature never gives a lower compensation word.
pub proof fn lemma_temperature_is_monotonic(lower: int, higher: int)
    requires
        lower <= higher,
    ensures
        temperature_ticks(lower) <= temperature_ticks(higher),
{
}

/// The running gas-index algorithm of the `gas-index-algorithm` crate. Its
/// state cannot be seen from here.
#[verifier::external_type_specification]
#[verifier::external_body]
pub struct ExGasIndexAlgorithm(GasIndexAlgorithm);

/// Which gas an algorithm instance follows.
#[derive(Debug, Clone, Copy, PartialEq, Eq, Structural)]
pub enum GasKind {
    Voc,
    Nox,
}

/// `GasIndexAlgorithm::new`: a fresh algorithm instance for one gas, set up
/// for samples that arrive every `sampling_interval_secs` seconds. Nothing is
/// claimed of the instance.
#[verifier::external_body]
fn new_algorithm(kind: GasKind, sampling_interval_secs: u16) -> GasIndexAlgorithm {
    let algorithm_type = match kind {
        GasKind::Voc => AlgorithmType::Voc,
        GasKind::Nox => AlgorithmType::Nox,
    };
    GasIndexAlgorithm::new(algorithm_type, sampling_interval_secs.into())
}

/// `GasIndexAlgorithm::process`: feeds one raw signal to the running
/// algorithm and returns the gas index it now stands at. The crate documents
/// the index as zero during the initial blackout and 1 to 500 afterwards; that
/// range is all that is claimed.
#[verifier::external_body]
fn process_sample(algorithm: &mut GasIndexAlgorithm, sraw: i32) -> (index: i32)
    ensures
        0 <= index <= GAS_INDEX_MAX,
{
    algorithm.process(sraw)
}

/// Where the sensor stands between power-on and trusted readings.
#[derive(Debug, Clone, Copy, PartialEq, Eq, Structural)]
pub enum GasState {
    /// Powered on, or switched off again; nothing has been checked.
    Uninitialized,
    /// Initialisation has begun and the self-test has not passed yet.
    SelfTesting,
    /// The self-test has passed and the sensor is warming up.
    Conditioning,
    /// The sensor may be measured.
    Ready,
}

/// Whether the outcome of a transfer may take the lifecycle from `before` to
/// `after`: it stays, moves one stage towards [`GasState::Ready`], or falls
/// back to [`GasState::Uninitialized`].
pub open spec fn lifecycle_step(before: GasState, after: GasState) -> bool {
    ||| after == before
    ||| after == GasState::Uninitialized
    ||| before == GasState::SelfTesting && after == GasState::Conditioning
    ||| before == GasState::Conditioning && after == GasState::Ready
}

/// The part of an exchange that is under way.
#[derive(Debug, Clone, Copy, PartialEq, Eq, Structural)]
pub enum Leg {
    /// The command has to go out.
    Command,
    /// The sensor is working on the command.
    Settle,
    /// The reply has to be read.
    Reply,
}

/// An operation in progress.
#[derive(Debug, Clone, Copy, PartialEq, Eq, Structural)]
pub enum GasOp {
    /// A self-test on its own.
    SelfTest(Leg),
    /// Initialisation, at its self-test.
    InitSelfTest(Leg),
    /// Initialisation, at its conditioning measurement.
    InitConditioning(Leg),
    /// Initialisation, waiting out the rest of the conditioning time.
    InitWarmup,
    /// A measurement with these compensation words; `indices` says whether
    /// the raw signals go on to the gas-index algorithms.
    Measure { leg: Leg, rh_ticks: u16, t_ticks: u16, indices: bool },
    /// Switching the heater off.
    HeaterOff,
}

/// What a finished operation hands back.
#[derive(Debug, Clone, Copy, PartialEq, Eq, Structural)]
pub enum GasOutput {
    /// The operation has nothing to report but its success.
    Done,
    /// Raw VOC and NOx signals.
    Raw(u16, u16),
    /// VOC and NOx indices.
    Indices(i32, i32),
}

/// What an operation does after it was handed the outcome of a transfer.
#[derive(Debug, Clone, Copy, PartialEq, Eq)]
pub enum GasStep {
    /// The operation goes on and needs another transfer.
    Continue(GasOp),
    /// The operation is over.
    Finished(Result<GasOutput, Sgp41Error>),
}

/// What the driver has to do next, before the gas-index algorithms have had
/// their say.
pub enum GasPlan {
    /// Go on with the operation.
    Continue(GasOp),
    /// End the operation with this result.
    Finished(Result<GasOutput, Sgp41Error>),
    /// Feed these raw VOC and NOx signals to the algorithms and end the
    /// operation with the indices they return.
    Process(u16, u16),
}

/// The lifecycle after a step, and what the driver has to do next.
pub struct GasTurn {
    pub state: GasState,
    pub plan: GasPlan,
}

impl GasTurn {
    /// The operation ends with `e`; the lifecycle stays at `state`.
    pub open spec fn failed(state: GasState, e: Sgp41Error) -> GasTurn {
        GasTurn { state, plan: GasPlan::Finished(Err(e)) }
    }

    /// Initialisation ends with `e`; the sensor is uninitialised again.
    pub open spec fn aborted(e: Sgp41Error) -> GasTurn {
        GasTurn { state: GasState::Uninitialized, plan: GasPlan::Finished(Err(e)) }
    }

    /// The operation goes on as `op`; the lifecycle stays at `state`.
    pub open spec fn go_on(state: GasState, op: GasOp) -> GasTurn {
        GasTurn { state, plan: GasPlan::Continue(op) }
    }
}

/// The self-test command on the wire.
pub open spec fn self_test_command() -> Seq<u8> {
    seq![CMD_SELF_TEST_0, CMD_SELF_TEST_1]
}

/// The heater-off command on the wire.
pub open spec fn heater_off_command() -> Seq<u8> {
    seq![CMD_HEATER_OFF_0, CMD_HEATER_OFF_1]
}

/// The measurement command on the wire: the command word, then the humidity
/// and the temperature compensation word, each followed by its CRC.
pub open spec fn measure_command(rh_ticks: u16, t_ticks: u16) -> Seq<u8> {
    seq![
        CMD_MEASURE_RAW_0,
        CMD_MEASURE_RAW_1,
        (rh_ticks / 256) as u8,
        (rh_ticks % 256) as u8,
        word_crc((rh_ticks / 256) as u8, (rh_ticks % 256) as u8),
        (t_ticks / 256) as u8,
        (t_ticks % 256) as u8,
        word_crc((t_ticks / 256) as u8, (t_ticks % 256) as u8),
    ]
}

/// What a three-byte self-test reply says: a CRC fault, a pass, or the result
/// code of a failed test.
pub open spec fn decode_self_test(buf: Seq<u8>) -> Result<(), Sgp41Error> {
    if word_crc(buf[0], buf[1]) != buf[2] {
        Err(Sgp41Error::CrcError)
    } else if be16(buf[0], buf[1]) == SELF_TEST_OK {
        Ok(())
    } else {
        Err(Sgp41Error::SelfTestFailed(be16(buf[0], buf[1]) as u16))
    }
}

/// What a six-byte measurement reply says: a CRC fault in either word, or the
/// raw VOC and NOx signals.
pub open spec fn decode_measurement(buf: Seq<u8>) -> Result<(u16, u16), Sgp41Error> {
    if word_crc(buf[0], buf[1]) != buf[2] || word_crc(buf[3], buf[4]) != buf[5] {
        Err(Sgp41Error::CrcError)
    } else {
        Ok((be16(buf[0], buf[1]) as u16, be16(buf[3], buf[4]) as u16))
    }
}

/// The compensation word for an optional humidity in tenths of a percent.
pub open spec fn humidity_word(humidity: Option<i32>) -> u16 {
    match humidity {
        Some(h) => humidity_ticks(h as int) as u16,
        None => DEFAULT_RH_TICKS,
    }
}

/// The compensation word for an optional temperature in tenths of a degree.
pub open spec fn temperature_word(temp: Option<i32>) -> u16 {
    match temp {
        Some(t) => temperature_ticks(t as int) as u16,
        None => DEFAULT_TEMP_TICKS,
    }
}

/// How far one leg of an exchange got with an outcome.
pub enum LegResult {
    /// The exchange moves on to this leg.
    Next(Leg),
    /// The reply is in.
    Reply(Seq<u8>),
    /// The transfer failed, or was not the one asked for.
    Broken,
}

/// What an exchange whose reply has `reply_len` bytes makes of an outcome.
pub open spec fn leg_result(leg: Leg, reply_len: nat, outcome: Outcome) -> LegResult {
    match leg {
        Leg::Command => if completed(outcome) {
            LegResult::Next(Leg::Settle)
        } else {
            LegResult::Broken
        },
        Leg::Settle => if completed(outcome) {
            LegResult::Next(Leg::Reply)
        } else {
            LegResult::Broken
        },
        Leg::Reply => match delivered(outcome, reply_len) {
            Some(buf) => LegResult::Reply(buf),
            None => LegResult::Broken,
        },
    }
}

impl GasOp {
    /// The transfer that the operation needs next.
    pub open spec fn wanted(self) -> Transfer {
        match self {
            GasOp::SelfTest(leg) | GasOp::InitSelfTest(leg) => match leg {
                Leg::Command => Transfer::Write(self_test_command()),
                Leg::Settle => Transfer::Delay(SELF_TEST_DELAY_MS as nat),
                Leg::Reply => Transfer::Read(SELF_TEST_RESPONSE_SIZE as nat),
            },
            GasOp::InitConditioning(leg) => match leg {
                Leg::Command => Transfer::Write(
                    measure_command(DEFAULT_RH_TICKS, DEFAULT_TEMP_TICKS),
                ),
                Leg::Settle => Transfer::Delay(MEASURE_DELAY_MS as nat),
                Leg::Reply => Transfer::Read(RESPONSE_SIZE as nat),
            },
            GasOp::InitWarmup => Transfer::Delay(
                (CONDITIONING_DELAY_MS - MEASURE_DELAY_MS) as nat,
            ),
            GasOp::Measure { leg, rh_ticks, t_ticks, indices } => match leg {
                Leg::Command => Transfer::Write(measure_command(rh_ticks, t_ticks)),
                Leg::Settle => Transfer::Delay(MEASURE_DELAY_MS as nat),
                Leg::Reply => Transfer::Read(RESPONSE_SIZE as nat),
            },
            GasOp::HeaterOff => Transfer::Write(heater_off_command()),
        }
    }

    /// An upper bound on the transfers that the operation may still ask for.
    pub open spec fn transfers_left(self) -> int {
        let of_leg = |leg: Leg|
            match leg {
                Leg::Command => 3int,
                Leg::Settle => 2int,
                Leg::Reply => 1int,
            };
        match self {
            GasOp::SelfTest(leg) => of_leg(leg),
            GasOp::InitSelfTest(leg) => 4 + of_leg(leg),
            GasOp::InitConditioning(leg) => 1 + of_leg(leg),
            GasOp::InitWarmup => 1,
            GasOp::Measure { leg, rh_ticks, t_ticks, indices } => of_leg(leg),
            GasOp::HeaterOff => 1,
        }
    }

    /// The lifecycle stage that the operation needs the sensor to be at: a
    /// step of initialisation its own stage, a measurement
    /// [`GasState::Ready`]; `None` for an operation that runs at any stage.
    pub open spec fn stage(self) -> Option<GasState> {
        match self {
            GasOp::InitSelfTest(_) => Some(GasState::SelfTesting),
            GasOp::InitConditioning(_) => Some(GasState::Conditioning),
            GasOp::InitWarmup => Some(GasState::Conditioning),
            GasOp::Measure { .. } => Some(GasState::Ready),
            _ => None,
        }
    }

    /// Whether the operation is a step of initialisation.
    pub open spec fn is_init(self) -> bool {
        self is InitSelfTest || self is InitConditioning || self is InitWarmup
    }

    /// What a sensor at lifecycle `state` does when the operation is handed
    /// the outcome of the transfer it asked for.
    ///
    /// An operation that meets a sensor at another stage than the one it
    /// needs ends with [`Sgp41Error::NotInitialized`] and changes nothing: a
    /// measurement goes no further on a sensor that is not
    /// [`GasState::Ready`], whichever of its transfers is due. A transfer
    /// that failed, or was not the one asked for, ends the operation with
    /// [`Sgp41Error::I2cError`]. Whatever ends initialisation early leaves
    /// the sensor [`GasState::Uninitialized`]; other operations leave the
    /// lifecycle alone when they fail.
    pub open spec fn next(self, state: GasState, outcome: Outcome) -> GasTurn {
        if self.stage() is Some && self.stage() != Some(state) {
            GasTurn::failed(state, Sgp41Error::NotInitialized)
        } else {
            match self {
                GasOp::SelfTest(leg) => match leg_result(
                    leg,
                    SELF_TEST_RESPONSE_SIZE as nat,
                    outcome,
                ) {
                    LegResult::Next(following) => GasTurn::go_on(state, GasOp::SelfTest(following)),
                    LegResult::Broken => GasTurn::failed(state, Sgp41Error::I2cError),
                    LegResult::Reply(buf) => match decode_self_test(buf) {
                        Ok(_) => GasTurn { state, plan: GasPlan::Finished(Ok(GasOutput::Done)) },
                        Err(e) => GasTurn::failed(state, e),
                    },
                },
                GasOp::InitSelfTest(leg) => match leg_result(
                    leg,
                    SELF_TEST_RESPONSE_SIZE as nat,
                    outcome,
                ) {
                    LegResult::Next(following) => GasTurn::go_on(state, GasOp::InitSelfTest(following)),
                    LegResult::Broken => GasTurn::aborted(Sgp41Error::I2cError),
                    LegResult::Reply(buf) => match decode_self_test(buf) {
                        Ok(_) => GasTurn {
                            state: GasState::Conditioning,
                            plan: GasPlan::Continue(GasOp::InitConditioning(Leg::Command)),
                        },
                        Err(e) => GasTurn::aborted(e),
                    },
                },
                GasOp::InitConditioning(leg) => match leg_result(
                    leg,
                    RESPONSE_SIZE as nat,
                    outcome,
                ) {
                    LegResult::Next(following) => GasTurn::go_on(state, GasOp::InitConditioning(following)),
                    LegResult::Broken => GasTurn::aborted(Sgp41Error::I2cError),
                    LegResult::Reply(buf) => match decode_measurement(buf) {
                        Ok(_) => GasTurn::go_on(state, GasOp::InitWarmup),
                        Err(e) => GasTurn::aborted(e),
                    },
                },
                GasOp::InitWarmup => if completed(outcome) {
                    GasTurn { state: GasState::Ready, plan: GasPlan::Finished(Ok(GasOutput::Done)) }
                } else {
                    GasTurn::aborted(Sgp41Error::I2cError)
                },
                GasOp::Measure { leg, rh_ticks, t_ticks, indices } => match leg_result(
                    leg,
                    RESPONSE_SIZE as nat,
                    outcome,
                ) {
                    LegResult::Next(following) => GasTurn::go_on(state, 
                        GasOp::Measure { leg: following, rh_ticks, t_ticks, indices },
                    ),
                    LegResult::Broken => GasTurn::failed(state, Sgp41Error::I2cError),
                    LegResult::Reply(buf) => match decode_measurement(buf) {
                        Ok((voc_raw, nox_raw)) => if indices {
                            GasTurn { state, plan: GasPlan::Process(voc_raw, nox_raw) }
                        } else {
                            GasTurn {
                                state,
                                plan: GasPlan::Finished(Ok(GasOutput::Raw(voc_raw, nox_raw))),
                            }
                        },
                        Err(e) => GasTurn::failed(state, e),
                    },
                },
                GasOp::HeaterOff => if completed(outcome) {
                    GasTurn {
                        state: GasState::Uninitialized,
                        plan: GasPlan::Finished(Ok(GasOutput::Done)),
                    }
                } else {
                    GasTurn::failed(state, Sgp41Error::I2cError)
                },
            }
        }
    }
}

/// The lifecycle moves only along its stages: whatever operation is handed
/// whatever outcome, the sensor stays where it is, moves one stage on, or falls
/// back to uninitialised.
pub proof fn lemma_lifecycle_moves_by_stages(op: GasOp, state: GasState, outcome: Outcome)
    ensures
        lifecycle_step(state, op.next(state, outcome).state),
{
}

/// No operation goes on for ever: a step that does not end the operation
/// leaves it with fewer transfers to ask for. Initialisation takes seven
/// transfers, a measurement or a self-test three, switching the heater off
/// one.
pub proof fn lemma_operation_makes_progress(op: GasOp, state: GasState, outcome: Outcome)
    ensures
        GasOp::InitSelfTest(Leg::Command).transfers_left() == 7,
        match op.next(state, outcome).plan {
            GasPlan::Continue(following) => 0 < following.transfers_left() < op.transfers_left(),
            _ => true,
        },
{
}

/// The warm-up gate: a sensor that was not ready becomes ready in one way
/// only, when the last wait of an initialisation has passed on a sensor that
/// is conditioning.
pub proof fn lemma_ready_only_after_warmup(op: GasOp, state: GasState, outcome: Outcome)
    requires
        state != GasState::Ready,
        op.next(state, outcome).state == GasState::Ready,
    ensures
        op == GasOp::InitWarmup,
        state == GasState::Conditioning,
        completed(outcome),
        op.next(state, outcome).plan == GasPlan::Finished(Ok(GasOutput::Done)),
{
}

/// A failure never makes a sensor ready, and a failure of initialisation
/// leaves it uninitialised.
pub proof fn lemma_failure_never_readies(op: GasOp, state: GasState, outcome: Outcome, e: Sgp41Error)
    requires
        op.next(state, outcome).plan == GasPlan::Finished(Err(e)),
    ensures
        op.next(state, outcome).state == state || op.next(state, outcome).state
            == GasState::Uninitialized,
        op.is_init() && op.stage() == Some(state) ==> op.next(state, outcome).state
            == GasState::Uninitialized,
{
}

/// A measurement never touches a sensor that is not ready: whichever of its
/// transfers is due and whatever came of it, the operation ends with
/// [`Sgp41Error::NotInitialized`], asks for no further transfer, and leaves
/// the lifecycle as it was.
pub proof fn lemma_measurement_needs_ready(
    leg: Leg,
    rh_ticks: u16,
    t_ticks: u16,
    indices: bool,
    state: GasState,
    outcome: Outcome,
)
    requires
        state != GasState::Ready,
    ensures
        (GasOp::Measure { leg, rh_ticks, t_ticks, indices }).next(state, outcome) == GasTurn::failed(
            state,
            Sgp41Error::NotInitialized,
        ),
{
}

/// Whether `step` is what `plan` asks for. Where the plan hands raw signals to
/// the gas-index algorithms, the step ends the operation with two indices in
/// 0 ..= 500; which ones is up to the algorithms.
pub open spec fn carries_out(plan: GasPlan, step: GasStep) -> bool {
    match plan {
        GasPlan::Continue(op) => step == GasStep::Continue(op),
        GasPlan::Finished(result) => step == GasStep::Finished(result),
        GasPlan::Process(_, _) => match step {
            GasStep::Finished(Ok(GasOutput::Indices(voc, nox))) => {
                &&& 0 <= voc <= GAS_INDEX_MAX
                &&& 0 <= nox <= GAS_INDEX_MAX
            },
            _ => false,
        },
    }
}

impl GasStep {
    /// The step that ends a measurement with the indices that the algorithms
    /// returned.
    pub fn from_indices(voc_index: i32, nox_index: i32) -> (step: GasStep)
        ensures
            step == GasStep::Finished(Ok(GasOutput::Indices(voc_index, nox_index))),
    {
        GasStep::Finished(Ok(GasOutput::Indices(voc_index, nox_index)))
    }
}

/// Builds the measurement command for two compensation words.
pub fn build_measure_command(rh_ticks: u16, t_ticks: u16) -> (cmd: Vec<u8>)
    ensures
        cmd@ == measure_command(rh_ticks, t_ticks),
{
    let rh_hi: u8 = high_byte(rh_ticks);
    let rh_lo: u8 = low_byte(rh_ticks);
    let t_hi: u8 = high_byte(t_ticks);
    let t_lo: u8 = low_byte(t_ticks);
    let cmd: Vec<u8> = vec![
        CMD_MEASURE_RAW_0,
        CMD_MEASURE_RAW_1,
        rh_hi,
        rh_lo,
        crc8_word(rh_hi, rh_lo),
        t_hi,
        t_lo,
        crc8_word(t_hi, t_lo),
    ];
    proof {
        assert(cmd@ =~= measure_command(rh_ticks, t_ticks));
    }
    cmd
}

fn build_command(first: u8, second: u8) -> (cmd: Vec<u8>)
    ensures
        cmd@ == seq![first, second],
{
    let cmd: Vec<u8> = vec![first, second];
    proof {
        assert(cmd@ =~= seq![first, second]);
    }
    cmd
}

fn decode_self_test_reply(buf: &[u8]) -> (decoded: Result<(), Sgp41Error>)
    requires
        buf@.len() == SELF_TEST_RESPONSE_SIZE,
    ensures
        decoded == decode_self_test(buf@),
{
    if crc8_word(buf[0], buf[1]) != buf[2] {
        return Err(Sgp41Error::CrcError);
    }
    let test_result: u16 = u16_from_be(buf[0], buf[1]);
    if test_result == SELF_TEST_OK {
        Ok(())
    } else {
        Err(Sgp41Error::SelfTestFailed(test_result))
    }
}

fn decode_measurement_reply(buf: &[u8]) -> (decoded: Result<(u16, u16), Sgp41Error>)
    requires
        buf@.len() == RESPONSE_SIZE,
    ensures
        decoded == decode_measurement(buf@),
{
    if crc8_word(buf[0], buf[1]) != buf[2] {
        return Err(Sgp41Error::CrcError);
    }
    if crc8_word(buf[3], buf[4]) != buf[5] {
        return Err(Sgp41Error::CrcError);
    }
    Ok((u16_from_be(buf[0], buf[1]), u16_from_be(buf[3], buf[4])))
}

enum LegProgress<'a> {
    Next(Leg),
    Reply(&'a [u8]),
    Broken,
}

fn leg_progress<'a>(leg: Leg, reply_len: usize, response: &Response<'a>) -> (progress:
    LegProgress<'a>)
    ensures
        match progress {
            LegProgress::Next(following) => leg_result(leg, reply_len as nat, response@)
                == LegResult::Next(following),
            LegProgress::Reply(buf) => leg_result(leg, reply_len as nat, response@)
                == LegResult::Reply(buf@) && buf@.len() == reply_len,
            LegProgress::Broken => leg_result(leg, reply_len as nat, response@) is Broken,
        },
{
    match leg {
        Leg::Command => if response.is_done() {
            LegProgress::Next(Leg::Settle)
        } else {
            LegProgress::Broken
        },
        Leg::Settle => if response.is_done() {
            LegProgress::Next(Leg::Reply)
        } else {
            LegProgress::Broken
        },
        Leg::Reply => match response.data_of_len(reply_len) {
            Some(buf) => LegProgress::Reply(buf),
            None => LegProgress::Broken,
        },
    }
}

impl GasOp {
    /// The transfer that the operation needs next.
    pub fn request(&self) -> (request: Request)
        ensures
            request@ == self.wanted(),
    {
        match *self {
            GasOp::SelfTest(leg) | GasOp::InitSelfTest(leg) => match leg {
                Leg::Command => Request::Write(build_command(CMD_SELF_TEST_0, CMD_SELF_TEST_1)),
                Leg::Settle => Request::Delay(SELF_TEST_DELAY_MS),
                Leg::Reply => Request::Read(SELF_TEST_RESPONSE_SIZE),
            },
            GasOp::InitConditioning(leg) => match leg {
                Leg::Command => Request::Write(
                    build_measure_command(DEFAULT_RH_TICKS, DEFAULT_TEMP_TICKS),
                ),
                Leg::Settle => Request::Delay(MEASURE_DELAY_MS),
                Leg::Reply => Request::Read(RESPONSE_SIZE),
            },
            GasOp::InitWarmup => Request::Delay(CONDITIONING_DELAY_MS - MEASURE_DELAY_MS),
            GasOp::Measure { leg, rh_ticks, t_ticks, indices } => match leg {
                Leg::Command => Request::Write(build_measure_command(rh_ticks, t_ticks)),
                Leg::Settle => Request::Delay(MEASURE_DELAY_MS),
                Leg::Reply => Request::Read(RESPONSE_SIZE),
            },
            GasOp::HeaterOff => Request::Write(build_command(CMD_HEATER_OFF_0, CMD_HEATER_OFF_1)),
        }
    }
}

/// The gas line: its transport, the sensor's lifecycle, and the two
/// gas-index algorithms that run for as long as the driver lives.
pub struct Sgp41<I2C> {
    i2c: I2C,
    state: GasState,
    voc_algorithm: GasIndexAlgorithm,
    nox_algorithm: GasIndexAlgorithm,
}

impl<I2C> Sgp41<I2C> {
    /// The transport that the driver holds.
    pub closed spec fn transport(&self) -> I2C {
        self.i2c
    }

    /// Where the sensor stands in its lifecycle.
    pub closed spec fn lifecycle(&self) -> GasState {
        self.state
    }

    /// The two running gas-index algorithms, for VOC and for NOx. Their state
    /// lives as long as the driver and changes only when a measurement feeds
    /// them.
    pub closed spec fn algorithms(&self) -> (GasIndexAlgorithm, GasIndexAlgorithm) {
        (self.voc_algorithm, self.nox_algorithm)
    }

    /// A driver on `i2c` for a sensor that is sampled every
    /// `sampling_interval_secs` seconds. The sensor starts uninitialised and
    /// both algorithms start afresh.
    pub fn new(i2c: I2C, sampling_interval_secs: u16) -> (driver: Self)
        ensures
            driver.transport() == i2c,
            driver.lifecycle() == GasState::Uninitialized,
    {
        Self {
            i2c,
            state: GasState::Uninitialized,
            voc_algorithm: new_algorithm(GasKind::Voc, sampling_interval_secs),
            nox_algorithm: new_algorithm(GasKind::Nox, sampling_interval_secs),
        }
    }

    /// The bus address of the sensor.
    pub fn address(&self) -> (address: u8)
        ensures
            address == SGP41_ADDRESS,
    {
        SGP41_ADDRESS
    }

    /// The transport, for carrying out a transfer.
    pub fn i2c(&mut self) -> (i2c: &mut I2C)
        ensures
            *i2c == old(self).transport(),
            final(self).transport() == *final(i2c),
            final(self).lifecycle() == old(self).lifecycle(),
            final(self).algorithms() == old(self).algorithms(),
    {
        &mut self.i2c
    }

    /// Where the sensor stands in its lifecycle.
    pub fn state(&self) -> (state: GasState)
        ensures
            state == self.lifecycle(),
    {
        self.state
    }

    /// Whether the sensor may be measured.
    pub fn is_initialized(&self) -> (ready: bool)
        ensures
            ready == (self.lifecycle() == GasState::Ready),
    {
        self.state == GasState::Ready
    }

    /// Begins initialisation: self-test, one conditioning measurement with
    /// default compensation, then the rest of the conditioning time. The
    /// sensor is [`GasState::SelfTesting`] from here on, whatever it was.
    pub fn init(&mut self) -> (op: GasOp)
        ensures
            op == GasOp::InitSelfTest(Leg::Command),
            final(self).lifecycle() == GasState::SelfTesting,
            final(self).transport() == old(self).transport(),
            final(self).algorithms() == old(self).algorithms(),
    {
        self.state = GasState::SelfTesting;
        GasOp::InitSelfTest(Leg::Command)
    }

    /// Begins a self-test on its own. It leaves the lifecycle alone.
    pub fn self_test(&self) -> (op: GasOp)
        ensures
            op == GasOp::SelfTest(Leg::Command),
    {
        GasOp::SelfTest(Leg::Command)
    }

    /// Begins switching the heater off. Once the command is out the sensor is
    /// [`GasState::Uninitialized`].
    pub fn heater_off(&self) -> (op: GasOp)
        ensures
            op == GasOp::HeaterOff,
    {
        GasOp::HeaterOff
    }

    /// Begins a measurement of the raw signals. `humidity` is in tenths of a
    /// percent and `temp` in tenths of a degree Celsius; a missing one is
    /// replaced by 50 % and 25 degrees. On a sensor that is not
    /// [`GasState::Ready`] it ends at once with
    /// [`Sgp41Error::NotInitialized`], before any transfer.
    pub fn measure_internal(&self, humidity: Option<i32>, temp: Option<i32>) -> (step: GasStep)
        ensures
            step == if self.lifecycle() == GasState::Ready {
                GasStep::Continue(
                    GasOp::Measure {
                        leg: Leg::Command,
                        rh_ticks: humidity_word(humidity),
                        t_ticks: temperature_word(temp),
                        indices: false,
                    },
                )
            } else {
                GasStep::Finished(Err(Sgp41Error::NotInitialized))
            },
    {
        if !self.is_initialized() {
            return GasStep::Finished(Err(Sgp41Error::NotInitialized));
        }
        let rh_ticks: u16 = match humidity {
            Some(h) => humidity_to_ticks(h),
            None => DEFAULT_RH_TICKS,
        };
        let t_ticks: u16 = match temp {
            Some(t) => temperature_to_ticks(t),
            None => DEFAULT_TEMP_TICKS,
        };
        GasStep::Continue(GasOp::Measure { leg: Leg::Command, rh_ticks, t_ticks, indices: false })
    }

    /// Begins a measurement of the raw signals. On a sensor that is not
    /// [`GasState::Ready`] it ends at once with
    /// [`Sgp41Error::NotInitialized`], before any transfer.
    pub fn measure(&self, humidity: Option<i32>, temp: Option<i32>) -> (step: GasStep)
        ensures
            step == if self.lifecycle() == GasState::Ready {
                GasStep::Continue(
                    GasOp::Measure {
                        leg: Leg::Command,
                        rh_ticks: humidity_word(humidity),
                        t_ticks: temperature_word(temp),
                        indices: false,
                    },
                )
            } else {
                GasStep::Finished(Err(Sgp41Error::NotInitialized))
            },
    {
        self.measure_internal(humidity, temp)
    }

    /// Begins a measurement whose raw signals go through the gas-index
    /// algorithms. On a sensor that is not [`GasState::Ready`] it ends at
    /// once with [`Sgp41Error::NotInitialized`], before any transfer.
    pub fn measure_indices(&self, humidity: Option<i32>, temp: Option<i32>) -> (step: GasStep)
        ensures
            step == if self.lifecycle() == GasState::Ready {
                GasStep::Continue(
                    GasOp::Measure {
                        leg: Leg::Command,
                        rh_ticks: humidity_word(humidity),
                        t_ticks: temperature_word(temp),
                        indices: true,
                    },
                )
            } else {
                GasStep::Finished(Err(Sgp41Error::NotInitialized))
            },
    {
        match self.measure(humidity, temp) {
            GasStep::Continue(GasOp::Measure { leg, rh_ticks, t_ticks, indices }) => {
                GasStep::Continue(GasOp::Measure { leg, rh_ticks, t_ticks, indices: true })
            },
            other => other,
        }
    }

    /// Hands the operation `op` the outcome of the transfer it asked for.
    ///
    /// The lifecycle moves as [`GasOp::next`] says, and the step returned is
    /// the one it plans. Only where the plan is to run the gas-index
    /// algorithms does the step hold something that `next` does not fix: the
    /// two indices, each in 0 ..= 500. Nothing else touches the algorithms:
    /// on every other step, switching the heater off and a failed
    /// initialisation included, they are left exactly as they were.
    pub fn advance(&mut self, op: GasOp, response: &Response) -> (step: GasStep)
        ensures
            final(self).transport() == old(self).transport(),
            final(self).lifecycle() == op.next(old(self).lifecycle(), response@).state,
            carries_out(op.next(old(self).lifecycle(), response@).plan, step),
            lifecycle_step(old(self).lifecycle(), final(self).lifecycle()),
            !(op.next(old(self).lifecycle(), response@).plan is Process)
                ==> final(self).algorithms() == old(self).algorithms(),
    {
        let in_stage: bool = match op {
            GasOp::InitSelfTest(_) => self.state == GasState::SelfTesting,
            GasOp::InitConditioning(_) => self.state == GasState::Conditioning,
            GasOp::InitWarmup => self.state == GasState::Conditioning,
            GasOp::Measure { .. } => self.state == GasState::Ready,
            _ => true,
        };
        if !in_stage {
            return GasStep::Finished(Err(Sgp41Error::NotInitialized));
        }
        match op {
            GasOp::SelfTest(leg) => match leg_progress(leg, SELF_TEST_RESPONSE_SIZE, response) {
                LegProgress::Next(following) => GasStep::Continue(GasOp::SelfTest(following)),
                LegProgress::Broken => GasStep::Finished(Err(Sgp41Error::I2cError)),
                LegProgress::Reply(buf) => match decode_self_test_reply(buf) {
                    Ok(_) => GasStep::Finished(Ok(GasOutput::Done)),
                    Err(e) => GasStep::Finished(Err(e)),
                },
            },
            GasOp::InitSelfTest(leg) => match leg_progress(leg, SELF_TEST_RESPONSE_SIZE, response) {
                LegProgress::Next(following) => GasStep::Continue(GasOp::InitSelfTest(following)),
                LegProgress::Broken => {
                    self.state = GasState::Uninitialized;
                    GasStep::Finished(Err(Sgp41Error::I2cError))
                },
                LegProgress::Reply(buf) => match decode_self_test_reply(buf) {
                    Ok(_) => {
                        self.state = GasState::Conditioning;
                        GasStep::Continue(GasOp::InitConditioning(Leg::Command))
                    },
                    Err(e) => {
                        self.state = GasState::Uninitialized;
                        GasStep::Finished(Err(e))
                    },
                },
            },
            GasOp::InitConditioning(leg) => match leg_progress(leg, RESPONSE_SIZE, response) {
                LegProgress::Next(following) => GasStep::Continue(
                    GasOp::InitConditioning(following),
                ),
                LegProgress::Broken => {
                    self.state = GasState::Uninitialized;
                    GasStep::Finished(Err(Sgp41Error::I2cError))
                },
                LegProgress::Reply(buf) => match decode_measurement_reply(buf) {
                    Ok(_) => GasStep::Continue(GasOp::InitWarmup),
                    Err(e) => {
                        self.state = GasState::Uninitialized;
                        GasStep::Finished(Err(e))
                    },
                },
            },
            GasOp::InitWarmup => if response.is_done() {
                self.state = GasState::Ready;
                GasStep::Finished(Ok(GasOutput::Done))
            } else {
                self.state = GasState::Uninitialized;
                GasStep::Finished(Err(Sgp41Error::I2cError))
            },
            GasOp::Measure { leg, rh_ticks, t_ticks, indices } => match leg_progress(
                leg,
                RESPONSE_SIZE,
                response,
            ) {
                LegProgress::Next(following) => GasStep::Continue(
                    GasOp::Measure { leg: following, rh_ticks, t_ticks, indices },
                ),
                LegProgress::Broken => GasStep::Finished(Err(Sgp41Error::I2cError)),
                LegProgress::Reply(buf) => match decode_measurement_reply(buf) {
                    Ok((voc_raw, nox_raw)) => if indices {
                        let voc_index: i32 = process_sample(&mut self.voc_algorithm, voc_raw as i32);
                        let nox_index: i32 = process_sample(&mut self.nox_algorithm, nox_raw as i32);
                        GasStep::from_indices(voc_index, nox_index)
                    } else {
                        GasStep::Finished(Ok(GasOutput::Raw(voc_raw, nox_raw)))
                    },
                    Err(e) => GasStep::Finished(Err(e)),
                },
            },
            GasOp::HeaterOff => if response.is_done() {
                self.state = GasState::Uninitialized;
                GasStep::Finished(Ok(GasOutput::Done))
            } else {
                GasStep::Finished(Err(Sgp41Error::I2cError))
            },
        }
    }
}

} // verus!
