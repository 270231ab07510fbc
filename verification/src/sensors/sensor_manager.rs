//! One acquisition cycle over the three lines, the snapshot it produces, and
//! the single slot that holds the latest snapshot.
//!
//! A cycle reads the particulate line first, because its temperature and
//! humidity compensate the gas measurement of the same cycle; the gas line
//! second; the CO2 line last. A line that fails is written down and the cycle
//! goes on with the next one.

use vstd::prelude::*;
use crate::sensors::pms5003t::{Pms5003t, PmsData, PmsError, PmsRead, PmsStep, MAX_SYNC_ATTEMPTS};
use crate::sensors::s8::{S8Error, S8Exchange, S8Step, S8};
use crate::sensors::sgp41::{carries_out, humidity_word, temperature_word, GasOp, GasOutput, GasPlan, GasState, GasStep, Leg, Sgp41, Sgp41Error};
use crate::sensors::wire::{Outcome, Request, Response, Transfer};

verus! {

/// The errors of one cycle, at most one per line.
#[derive(Debug, Clone, Copy, PartialEq, Eq)]
pub struct SensorErrors {
    pub pms: Option<PmsError>,
    pub sgp: Option<Sgp41Error>,
    pub s8: Option<S8Error>,
}

/// One aggregated reading of all three lines. Temperature is in tenths of a
/// degree Celsius, humidity in tenths of a percent, `last_updated` in ticks of
/// the monotonic clock.
#[derive(Debug, Clone, Copy, PartialEq, Eq)]
pub struct SensorData {
    pub pm1: u16,
    pub pm25: u16,
    pub pm10: u16,
    pub pm03_count: u16,
    pub pm05_count: u16,
    pub pm10_count: u16,
    pub pm25_count: u16,
    pub co2: u16,
    pub voc: i32,
    pub nox: i32,
    pub temp: i16,
    pub humidity: u16,
    pub initialized: bool,
    pub errors: Option<SensorErrors>,
    pub last_updated: u64,
}

/// The error of a line's result, if it failed.
pub open spec fn error_of<T, E>(result: Result<T, E>) -> Option<E> {
    match result {
        Ok(_) => None,
        Err(e) => Some(e),
    }
}

/// The reading of the particulate line, or all zeros where the line failed.
pub open spec fn pms_or_zero(pms: Result<PmsData, PmsError>) -> PmsData {
    match pms {
        Ok(data) => data,
        Err(_) => PmsData {
            pm1_ae: 0,
            pm25_ae: 0,
            pm10_ae: 0,
            pm03_count: 0,
            pm05_count: 0,
            pm10_count: 0,
            pm25_count: 0,
            temp: 0,
            humidity: 0,
        },
    }
}

/// The VOC and NOx indices that the gas line delivered, or zeros where it
/// delivered none.
pub open spec fn indices_or_zero(gas: Result<GasOutput, Sgp41Error>) -> (i32, i32) {
    match gas {
        Ok(GasOutput::Indices(voc, nox)) => (voc, nox),
        _ => (0, 0),
    }
}

/// The snapshot of a cycle with these three line results, completed at `now`
/// on a gas sensor whose readiness is `initialized`.
///
/// Each line fills its own fields and no others; the fields of a failed line
/// are zero. The error record is there exactly when a line failed.
pub open spec fn snapshot(
    pms: Result<PmsData, PmsError>,
    gas: Result<GasOutput, Sgp41Error>,
    co2: Result<u16, S8Error>,
    initialized: bool,
    now: u64,
) -> SensorData {
    SensorData {
        pm1: pms_or_zero(pms).pm1_ae,
        pm25: pms_or_zero(pms).pm25_ae,
        pm10: pms_or_zero(pms).pm10_ae,
        pm03_count: pms_or_zero(pms).pm03_count,
        pm05_count: pms_or_zero(pms).pm05_count,
        pm10_count: pms_or_zero(pms).pm10_count,
        pm25_count: pms_or_zero(pms).pm25_count,
        co2: match co2 {
            Ok(ppm) => ppm,
            Err(_) => 0,
        },
        voc: indices_or_zero(gas).0,
        nox: indices_or_zero(gas).1,
        temp: pms_or_zero(pms).temp,
        humidity: pms_or_zero(pms).humidity,
        initialized,
        errors: if pms is Err || gas is Err || co2 is Err {
            Some(SensorErrors { pms: error_of(pms), sgp: error_of(gas), s8: error_of(co2) })
        } else {
            None
        },
        last_updated: now,
    }
}

impl SensorData {
    /// The snapshot before any cycle has run: every reading zero, not
    /// initialised, no errors, stamped `now`.
    pub open spec fn blank(now: u64) -> SensorData {
        SensorData {
            pm1: 0,
            pm25: 0,
            pm10: 0,
            pm03_count: 0,
            pm05_count: 0,
            pm10_count: 0,
            pm25_count: 0,
            co2: 0,
            voc: 0,
            nox: 0,
            temp: 0,
            humidity: 0,
            initialized: false,
            errors: None,
            last_updated: now,
        }
    }

    /// The snapshot before any cycle has run, stamped `now`.
    pub fn new(now: u64) -> (data: SensorData)
        ensures
            data == SensorData::blank(now),
    {
        SensorData {
            pm1: 0,
            pm25: 0,
            pm10: 0,
            pm03_count: 0,
            pm05_count: 0,
            pm10_count: 0,
            pm25_count: 0,
            co2: 0,
            voc: 0,
            nox: 0,
            temp: 0,
            humidity: 0,
            initialized: false,
            errors: None,
            last_updated: now,
        }
    }

    /// Puts the results of the three lines together.
    pub fn assemble(
        pms: Result<PmsData, PmsError>,
        gas: Result<GasOutput, Sgp41Error>,
        co2: Result<u16, S8Error>,
        initialized: bool,
        now: u64,
    ) -> (data: SensorData)
        ensures
            data == snapshot(pms, gas, co2, initialized, now),
    {
        let mut data: SensorData = SensorData::new(now);
        let mut error_flags: SensorErrors = SensorErrors { pms: None, sgp: None, s8: None };
        let mut has_error: bool = false;
        match pms {
            Ok(pms_data) => {
                data.pm1 = pms_data.pm1_ae;
                data.pm25 = pms_data.pm25_ae;
                data.pm10 = pms_data.pm10_ae;
                data.pm03_count = pms_data.pm03_count;
                data.pm05_count = pms_data.pm05_count;
                data.pm10_count = pms_data.pm10_count;
                data.pm25_count = pms_data.pm25_count;
                data.temp = pms_data.temp;
                data.humidity = pms_data.humidity;
            },
            Err(e) => {
                error_flags.pms = Some(e);
                has_error = true;
            },
        }
        match gas {
            Ok(GasOutput::Indices(voc_idx, nox_idx)) => {
                data.voc = voc_idx;
                data.nox = nox_idx;
            },
            Ok(_) => {},
            Err(e) => {
                error_flags.sgp = Some(e);
                has_error = true;
            },
        }
        match co2 {
            Ok(ppm) => {
                data.co2 = ppm;
            },
            Err(e) => {
                error_flags.s8 = Some(e);
                has_error = true;
            },
        }
        if has_error {
            data.errors = Some(error_flags);
        }
        data.initialized = initialized;
        data
    }
}

/// When only the CO2 line fails, the error record names that line alone,
/// `co2` stays zero, and every other field holds what the two other lines
/// read.
pub proof fn lemma_co2_failure_is_isolated(
    pms: PmsData,
    voc: i32,
    nox: i32,
    e: S8Error,
    initialized: bool,
    now: u64,
)
    ensures
        snapshot(Ok(pms), Ok(GasOutput::Indices(voc, nox)), Err(e), initialized, now) == (
        SensorData {
            pm1: pms.pm1_ae,
            pm25: pms.pm25_ae,
            pm10: pms.pm10_ae,
            pm03_count: pms.pm03_count,
            pm05_count: pms.pm05_count,
            pm10_count: pms.pm10_count,
            pm25_count: pms.pm25_count,
            co2: 0,
            voc,
            nox,
            temp: pms.temp,
            humidity: pms.humidity,
            initialized,
            errors: Some(SensorErrors { pms: None, sgp: None, s8: Some(e) }),
            last_updated: now,
        }),
{
}

/// No line can spoil another: the fields that a line owns are the same
/// whatever the two other lines returned, and a line is named in the error
/// record exactly when it failed itself.
pub proof fn lemma_lines_are_independent(
    pms: Result<PmsData, PmsError>,
    gas: Result<GasOutput, Sgp41Error>,
    co2: Result<u16, S8Error>,
    other_pms: Result<PmsData, PmsError>,
    other_gas: Result<GasOutput, Sgp41Error>,
    other_co2: Result<u16, S8Error>,
    initialized: bool,
    now: u64,
)
    ensures
        ({
            let a = snapshot(pms, gas, co2, initialized, now);
            let b = snapshot(pms, other_gas, other_co2, initialized, now);
            &&& a.pm1 == b.pm1 && a.pm25 == b.pm25 && a.pm10 == b.pm10
            &&& a.pm03_count == b.pm03_count && a.pm05_count == b.pm05_count
            &&& a.pm10_count == b.pm10_count && a.pm25_count == b.pm25_count
            &&& a.temp == b.temp && a.humidity == b.humidity
        }),
        ({
            let a = snapshot(pms, gas, co2, initialized, now);
            let b = snapshot(other_pms, gas, other_co2, initialized, now);
            a.voc == b.voc && a.nox == b.nox
        }),
        snapshot(pms, gas, co2, initialized, now).co2 == snapshot(
            other_pms,
            other_gas,
            co2,
            initialized,
            now,
        ).co2,
        ({
            let a = snapshot(pms, gas, co2, initialized, now);
            match a.errors {
                None => pms is Ok && gas is Ok && co2 is Ok,
                Some(errors) => {
                    &&& errors.pms == error_of(pms)
                    &&& errors.sgp == error_of(gas)
                    &&& errors.s8 == error_of(co2)
                    &&& (pms is Err || gas is Err || co2 is Err)
                },
            }
        }),
{
}

/// The single slot that holds the latest snapshot. Whoever shares it between
/// tasks guards it with one lock and holds that lock for one call only.
#[derive(Debug, Clone, Copy)]
pub struct SharedSensorData {
    slot: SensorData,
}

impl View for SharedSensorData {
    type V = SensorData;

    closed spec fn view(&self) -> SensorData {
        self.slot
    }
}

impl SharedSensorData {
    /// A slot that holds the blank snapshot stamped `now`.
    pub fn new(now: u64) -> (shared: Self)
        ensures
            shared@ == SensorData::blank(now),
    {
        Self { slot: SensorData::new(now) }
    }

    /// The snapshot in the slot, for reading in place.
    pub fn lock(&self) -> (held: &SensorData)
        ensures
            *held == self@,
    {
        &self.slot
    }

    /// A copy of the snapshot in the slot.
    pub fn get(&self) -> (copy: SensorData)
        ensures
            copy == self@,
    {
        self.slot
    }

    /// Replaces the snapshot in the slot as a whole. Nothing of the old
    /// snapshot is left.
    pub fn update(&mut self, data: SensorData)
        ensures
            final(self)@ == data,
    {
        self.slot = data;
    }
}

/// One access to the slot, as the lock lets them through: one at a time.
pub enum Access {
    /// A whole snapshot goes in.
    Write(SensorData),
    /// The snapshot is copied out.
    Read,
}

/// The snapshot in a slot that started with `initial`, after `accesses`.
pub open spec fn slot_after(initial: SensorData, accesses: Seq<Access>) -> SensorData
    decreases accesses.len(),
{
    if accesses.len() == 0 {
        initial
    } else {
        match accesses.last() {
            Access::Write(data) => data,
            Access::Read => slot_after(initial, accesses.drop_last()),
        }
    }
}

/// What the access at position `at` copies out, where it is a read.
pub open spec fn observed(initial: SensorData, accesses: Seq<Access>, at: int) -> SensorData {
    slot_after(initial, accesses.take(at))
}

/// A reader never sees a mixture. What a read copies out is, field for field,
/// the initial snapshot or one snapshot that a writer put in before it; and it
/// is the latest of them.
pub proof fn lemma_reader_sees_one_whole_snapshot(
    initial: SensorData,
    accesses: Seq<Access>,
    at: int,
)
    requires
        0 <= at < accesses.len(),
        accesses[at] is Read,
    ensures
        ({
            let seen = observed(initial, accesses, at);
            ||| seen == initial && forall|j: int| 0 <= j < at ==> accesses[j] is Read
            ||| exists|j: int|
                {
                    &&& 0 <= j < at
                    &&& #[trigger] accesses[j] == Access::Write(seen)
                    &&& forall|k: int| j < k < at ==> accesses[k] is Read
                }
        }),
    decreases at,
{
    let before = accesses.take(at);
    if at > 0 {
        match before.last() {
            Access::Write(data) => {
                assert(accesses[at - 1] == Access::Write(data));
            },
            Access::Read => {
                lemma_reader_sees_one_whole_snapshot(initial, accesses, at - 1);
                assert(before.drop_last() =~= accesses.take(at - 1));
                let seen = observed(initial, accesses, at);
                if !(seen == initial && forall|j: int| 0 <= j < at - 1 ==> accesses[j] is Read) {
                    let j = choose|j: int|
                        {
                            &&& 0 <= j < at - 1
                            &&& #[trigger] accesses[j] == Access::Write(seen)
                            &&& forall|k: int| j < k < at - 1 ==> accesses[k] is Read
                        };
                    assert(accesses[j] == Access::Write(seen));
                }
            },
        }
    }
}

/// Which line a cycle is at, and so whose transport its next transfer is for.
#[derive(Debug, Clone, Copy, PartialEq, Eq, Structural)]
pub enum Line {
    Pms,
    Sgp,
    S8,
}

/// A cycle in progress: the line it is at, what that line is doing, and what
/// the lines before it returned.
#[derive(Debug, Clone, Copy, PartialEq, Eq)]
pub enum Cycle {
    /// The particulate line is being read.
    Pms(PmsRead),
    /// The gas line is being measured.
    Sgp { pms: Result<PmsData, PmsError>, op: GasOp },
    /// The CO2 line is being asked.
    S8 { pms: Result<PmsData, PmsError>, gas: Result<GasOutput, Sgp41Error>, exchange: S8Exchange },
}

/// What a cycle does after it was handed the outcome of a transfer.
#[derive(Debug, Clone, Copy, PartialEq, Eq)]
pub enum CycleStep {
    /// The cycle goes on and needs another transfer.
    Continue(Cycle),
    /// The cycle is over and this is its snapshot.
    Finished(SensorData),
}

/// The humidity that compensates the gas measurement: the one that the
/// particulate line read in this cycle, or none where that line failed.
pub open spec fn compensation_humidity(pms: Result<PmsData, PmsError>) -> Option<i32> {
    match pms {
        Ok(data) => Some(data.humidity as i32),
        Err(_) => None,
    }
}

/// The temperature that compensates the gas measurement: the one that the
/// particulate line read in this cycle, or none where that line failed.
pub open spec fn compensation_temp(pms: Result<PmsData, PmsError>) -> Option<i32> {
    match pms {
        Ok(data) => Some(data.temp as i32),
        Err(_) => None,
    }
}

/// Where the cycle goes once the particulate line has returned `pms`, on a gas
/// sensor at lifecycle `state`. A sensor that is ready is measured with the
/// compensation that `pms` gives. One that is not is left alone: its line
/// fails with [`Sgp41Error::NotInitialized`] and the cycle is at the CO2 line.
pub open spec fn after_pms(pms: Result<PmsData, PmsError>, state: GasState) -> Cycle {
    if state == GasState::Ready {
        Cycle::Sgp {
            pms,
            op: GasOp::Measure {
                leg: Leg::Command,
                rh_ticks: humidity_word(compensation_humidity(pms)),
                t_ticks: temperature_word(compensation_temp(pms)),
                indices: true,
            },
        }
    } else {
        Cycle::S8 { pms, gas: Err(Sgp41Error::NotInitialized), exchange: S8Exchange::Sending }
    }
}

/// Whether `step` is what the cycle does at the gas line when the gas driver
/// plans `plan`: it stays at the gas line while the measurement goes on, and
/// moves to the CO2 line with the gas line's result once it is over. Where the
/// gas-index algorithms run, that result is a pair of indices in 0 ..= 500.
pub open spec fn gas_line_step(pms: Result<PmsData, PmsError>, plan: GasPlan, step: CycleStep) -> bool {
    match step {
        CycleStep::Continue(Cycle::Sgp { pms: kept, op }) => {
            &&& kept == pms
            &&& carries_out(plan, GasStep::Continue(op))
        },
        CycleStep::Continue(Cycle::S8 { pms: kept, gas, exchange }) => {
            &&& kept == pms
            &&& exchange == S8Exchange::Sending
            &&& carries_out(plan, GasStep::Finished(gas))
        },
        _ => false,
    }
}

impl Cycle {
    /// The line that the cycle is at.
    pub open spec fn at(self) -> Line {
        match self {
            Cycle::Pms(_) => Line::Pms,
            Cycle::Sgp { .. } => Line::Sgp,
            Cycle::S8 { .. } => Line::S8,
        }
    }

    /// The line that the cycle is at.
    pub fn line(&self) -> (line: Line)
        ensures
            line == self.at(),
    {
        match self {
            Cycle::Pms(_) => Line::Pms,
            Cycle::Sgp { .. } => Line::Sgp,
            Cycle::S8 { .. } => Line::S8,
        }
    }

    /// The transfer that the cycle needs next, on the transport of its line.
    pub open spec fn wanted(self) -> Transfer {
        match self {
            Cycle::Pms(read) => Transfer::Read(read.wanted()),
            Cycle::Sgp { pms, op } => op.wanted(),
            Cycle::S8 { pms, gas, exchange } => exchange.wanted(),
        }
    }

    /// The transfer that the cycle needs next, on the transport of its line.
    pub fn request(&self) -> (request: Request)
        ensures
            request@ == self.wanted(),
    {
        match self {
            Cycle::Pms(read) => read.request(),
            Cycle::Sgp { pms, op } => op.request(),
            Cycle::S8 { pms, gas, exchange } => exchange.request(),
        }
    }
}

/// Whether `step` is what the manager does with `outcome` while a cycle is
/// at `cycle`, on a gas sensor that was at lifecycle `before` and is at
/// `after` now, at time `now`.
///
/// Whatever a line returns, the cycle moves on to the next line; only the
/// CO2 line's result ends it, with the snapshot of the three results,
/// stamped `now` and marked initialised exactly when the gas sensor is
/// ready.
pub open spec fn cycle_step(
    cycle: Cycle,
    before: GasState,
    after: GasState,
    outcome: Outcome,
    now: u64,
    step: CycleStep,
) -> bool {
    match cycle {
        Cycle::Pms(read) => {
            &&& after == before
            &&& step == match read.next(outcome) {
                PmsStep::Continue(following) => CycleStep::Continue(Cycle::Pms(following)),
                PmsStep::Finished(pms) => CycleStep::Continue(after_pms(pms, before)),
            }
        },
        Cycle::Sgp { pms, op } => {
            &&& after == op.next(before, outcome).state
            &&& gas_line_step(pms, op.next(before, outcome).plan, step)
        },
        Cycle::S8 { pms, gas, exchange } => {
            &&& after == before
            &&& step == match exchange.next(outcome) {
                S8Step::Continue(following) => CycleStep::Continue(
                    Cycle::S8 { pms, gas, exchange: following },
                ),
                S8Step::Finished(co2) => CycleStep::Finished(
                    snapshot(pms, gas, co2, before == GasState::Ready, now),
                ),
            }
        },
    }
}

/// Whether this step of a cycle feeds raw signals to the gas-index
/// algorithms: the cycle is at the gas line and the reply of a measurement
/// for indices has come in whole.
pub open spec fn feeds_algorithms(cycle: Cycle, state: GasState, outcome: Outcome) -> bool {
    match cycle {
        Cycle::Sgp { pms, op } => op.next(state, outcome).plan is Process,
        _ => false,
    }
}

impl Cycle {
    /// An upper bound on the transfers that the cycle may still ask for.
    pub open spec fn transfers_left(self) -> int {
        match self {
            Cycle::Pms(read) => read.transfers_left() + 5,
            Cycle::Sgp { pms, op } => op.transfers_left() + 2,
            Cycle::S8 { pms, gas, exchange } => exchange.transfers_left(),
        }
    }

    /// Whether the cycle is one that the manager makes: its read of the
    /// particulate line, if it is at that line, is within its budget.
    pub open spec fn within_budget(self) -> bool {
        match self {
            Cycle::Pms(read) => read.failed < MAX_SYNC_ATTEMPTS,
            _ => true,
        }
    }
}

/// The three drivers, run in a fixed order once per cycle.
pub struct SensorManager<I2C, UART0, UART1> {
    pub sgp: Sgp41<I2C>,
    pub pms: Pms5003t<UART0>,
    pub s8: S8<UART1>,
}

impl<I2C, UART0, UART1> SensorManager<I2C, UART0, UART1> {
    /// A manager of these three drivers.
    pub fn new(sgp: Sgp41<I2C>, pms: Pms5003t<UART0>, s8: S8<UART1>) -> (manager: Self)
        ensures
            manager.sgp == sgp,
            manager.pms == pms,
            manager.s8 == s8,
    {
        Self { sgp, pms, s8 }
    }

    /// Begins the initialisation of the gas sensor, the only line with a
    /// warm-up gate. The caller hands each outcome to
    /// [`advance_init`](Self::advance_init); if initialisation fails, cycles
    /// run all the same, on a gas sensor that is not ready.
    pub fn init(&mut self) -> (op: GasOp)
        ensures
            op == GasOp::InitSelfTest(Leg::Command),
            final(self).sgp.lifecycle() == GasState::SelfTesting,
            final(self).sgp.transport() == old(self).sgp.transport(),
            final(self).sgp.algorithms() == old(self).sgp.algorithms(),
            final(self).pms == old(self).pms,
            final(self).s8 == old(self).s8,
    {
        self.sgp.init()
    }

    /// Hands the initialisation `op` the outcome of the transfer it asked
    /// for; see [`Sgp41::advance`].
    pub fn advance_init(&mut self, op: GasOp, response: &Response) -> (step: GasStep)
        ensures
            final(self).sgp.transport() == old(self).sgp.transport(),
            final(self).sgp.lifecycle() == op.next(old(self).sgp.lifecycle(), response@).state,
            carries_out(op.next(old(self).sgp.lifecycle(), response@).plan, step),
            !(op.next(old(self).sgp.lifecycle(), response@).plan is Process)
                ==> final(self).sgp.algorithms() == old(self).sgp.algorithms(),
            final(self).pms == old(self).pms,
            final(self).s8 == old(self).s8,
    {
        self.sgp.advance(op, response)
    }

    /// Begins a cycle: at the particulate line, with a fresh read.
    pub fn read_all(&self) -> (cycle: Cycle)
        ensures
            cycle == Cycle::Pms(PmsRead::fresh()),
    {
        Cycle::Pms(self.pms.read())
    }

    /// Hands the cycle the outcome of the transfer it asked for. `now` is the
    /// reading of the monotonic clock; it stamps the snapshot if this step
    /// completes the cycle.
    pub fn advance(&mut self, cycle: Cycle, response: &Response, now: u64) -> (step: CycleStep)
        ensures
            cycle_step(
                cycle,
                old(self).sgp.lifecycle(),
                final(self).sgp.lifecycle(),
                response@,
                now,
                step,
            ),
            !feeds_algorithms(cycle, old(self).sgp.lifecycle(), response@)
                ==> final(self).sgp.algorithms() == old(self).sgp.algorithms(),
            final(self).sgp.transport() == old(self).sgp.transport(),
            final(self).pms == old(self).pms,
            final(self).s8 == old(self).s8,
    {
        match cycle {
            Cycle::Pms(read) => match read.advance(response) {
                PmsStep::Continue(following) => CycleStep::Continue(Cycle::Pms(following)),
                PmsStep::Finished(pms) => {
                    let (humidity, temp): (Option<i32>, Option<i32>) = match pms {
                        Ok(data) => (Some(data.humidity as i32), Some(data.temp as i32)),
                        Err(_) => (None, None),
                    };
                    match self.sgp.measure_indices(humidity, temp) {
                        GasStep::Continue(op) => CycleStep::Continue(Cycle::Sgp { pms, op }),
                        GasStep::Finished(gas) => CycleStep::Continue(
                            Cycle::S8 { pms, gas, exchange: self.s8.get_co2() },
                        ),
                    }
                },
            },
            Cycle::Sgp { pms, op } => match self.sgp.advance(op, response) {
                GasStep::Continue(following) => CycleStep::Continue(
                    Cycle::Sgp { pms, op: following },
                ),
                GasStep::Finished(gas) => CycleStep::Continue(
                    Cycle::S8 { pms, gas, exchange: self.s8.get_co2() },
                ),
            },
            Cycle::S8 { pms, gas, exchange } => match exchange.advance(response) {
                S8Step::Continue(following) => CycleStep::Continue(
                    Cycle::S8 { pms, gas, exchange: following },
                ),
                S8Step::Finished(co2) => CycleStep::Finished(
                    SensorData::assemble(pms, gas, co2, self.sgp.is_initialized(), now),
                ),
            },
        }
    }

    /// Hands the cycle the outcome of the transfer it asked for, and puts the
    /// snapshot into `shared` if this step completes the cycle. Returns the
    /// cycle to go on with, or `None` once the snapshot is in.
    pub fn read_and_update(
        &mut self,
        cycle: Cycle,
        response: &Response,
        now: u64,
        shared: &mut SharedSensorData,
    ) -> (following: Option<Cycle>)
        ensures
            ({
                let step = match following {
                    Some(next) => CycleStep::Continue(next),
                    None => CycleStep::Finished(final(shared)@),
                };
                cycle_step(
                    cycle,
                    old(self).sgp.lifecycle(),
                    final(self).sgp.lifecycle(),
                    response@,
                    now,
                    step,
                )
            }),
            following is Some ==> final(shared)@ == old(shared)@,
            !feeds_algorithms(cycle, old(self).sgp.lifecycle(), response@)
                ==> final(self).sgp.algorithms() == old(self).sgp.algorithms(),
            final(self).sgp.transport() == old(self).sgp.transport(),
            final(self).pms == old(self).pms,
            final(self).s8 == old(self).s8,
    {
        match self.advance(cycle, response, now) {
            CycleStep::Continue(next) => Some(next),
            CycleStep::Finished(data) => {
                shared.update(data);
                None
            },
        }
    }
}

/// No sensor can stall a cycle: whatever the lines deliver, every step that
/// does not complete the cycle leaves it with fewer transfers to ask for, and
/// a cycle asks for at most 8197 in all. However a line's transfers turn out,
/// the cycle reaches the lines after it and ends with a snapshot.
pub proof fn lemma_cycle_makes_progress(
    cycle: Cycle,
    before: GasState,
    after: GasState,
    outcome: Outcome,
    now: u64,
    step: CycleStep,
)
    requires
        cycle.within_budget(),
        cycle_step(cycle, before, after, outcome, now, step),
    ensures
        Cycle::Pms(PmsRead::fresh()).transfers_left() == 8197,
        match step {
            CycleStep::Continue(following) => {
                &&& following.within_budget()
                &&& 0 < following.transfers_left() < cycle.transfers_left()
            },
            CycleStep::Finished(_) => cycle is S8,
        },
{
}

/// The warm-up gate reaches the snapshot: on a gas sensor that is not ready the
/// cycle skips the gas line without a transfer, and the snapshot that a cycle
/// completes on such a sensor is marked uninitialised, holds no gas index, and
/// names the gas line as not initialised.
pub proof fn lemma_unready_sensor_reports_no_indices(
    pms: Result<PmsData, PmsError>,
    state: GasState,
    co2: Result<u16, S8Error>,
    now: u64,
)
    requires
        state != GasState::Ready,
    ensures
        after_pms(pms, state) == (Cycle::S8 {
            pms,
            gas: Err(Sgp41Error::NotInitialized),
            exchange: S8Exchange::Sending,
        }),
        ({
            let data = snapshot(pms, Err(Sgp41Error::NotInitialized), co2, false, now);
            &&& !data.initialized
            &&& data.voc == 0
            &&& data.nox == 0
            &&& data.errors is Some
            &&& data.errors->Some_0.sgp == Some(Sgp41Error::NotInitialized)
        }),
{
}

} // verus!
