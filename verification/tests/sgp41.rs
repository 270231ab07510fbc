use airgradient::sensors::sgp41::{
    build_measure_command, crc8, humidity_to_ticks, temperature_to_ticks, validate_crc, GasOp,
    GasOutput, GasState, GasStep, Leg, Sgp41, Sgp41Error, DEFAULT_RH_TICKS, DEFAULT_TEMP_TICKS,
};
use airgradient::sensors::wire::{Request, Response};

fn gas_word(word: u16) -> [u8; 3] {
    let bytes = word.to_be_bytes();
    [bytes[0], bytes[1], crc8(&bytes)]
}

fn gas_reply(voc_raw: u16, nox_raw: u16) -> Vec<u8> {
    let mut reply = gas_word(voc_raw).to_vec();
    reply.extend_from_slice(&gas_word(nox_raw));
    reply
}

/// Runs an operation to its end on a sensor that answers every read with
/// `reply`, and notes the transfers it asked for.
fn run_gas_op(
    driver: &mut Sgp41<()>,
    first: GasOp,
    self_test_reply: &[u8],
    measure_reply: &[u8],
    asked: &mut Vec<Request>,
) -> Result<GasOutput, Sgp41Error> {
    let mut op = first;
    loop {
        let request = op.request();
        let response = match &request {
            Request::Read(3) => Response::Data(self_test_reply),
            Request::Read(_) => Response::Data(measure_reply),
            _ => Response::Done,
        };
        asked.push(request);
        match driver.advance(op, &response) {
            GasStep::Continue(next) => op = next,
            GasStep::Finished(result) => return result,
        }
    }
}

fn ready_gas_driver() -> Sgp41<()> {
    let mut driver = Sgp41::new((), 2);
    let op = driver.init();
    let mut asked = Vec::new();
    let result = run_gas_op(&mut driver, op, &[0xD4, 0x00, 0xC6], &gas_reply(30000, 15000), &mut asked);
    assert_eq!(result, Ok(GasOutput::Done));
    driver
}

#[test]
fn crc8_matches_reference_vectors() {
    assert_eq!(crc8(&[0xBE, 0xEF]), 0x92);
    assert_eq!(crc8(&[0xD4, 0x00]), 0xC6);
    assert_eq!(crc8(&[0x80, 0x00]), 0xA2);
    assert_eq!(crc8(&[0x66, 0x66]), 0x93);
    assert_eq!(crc8(&[]), 0xFF);
}

#[test]
fn validate_crc_accepts_only_the_matching_crc() {
    assert_eq!(validate_crc(&[0xBE, 0xEF], 0x92), Ok(()));
    assert_eq!(validate_crc(&[0xBE, 0xEF], 0x93), Err(Sgp41Error::CrcError));
    assert_eq!(validate_crc(&[0xBE, 0xEE], 0x92), Err(Sgp41Error::CrcError));
}

#[test]
fn humidity_ticks_follow_the_formula() {
    assert_eq!(humidity_to_ticks(500), 32767);
    assert_eq!(humidity_to_ticks(450), 29490);
    assert_eq!(humidity_to_ticks(123), 8060);
    assert_eq!(humidity_to_ticks(0), 0);
    assert_eq!(humidity_to_ticks(1000), 65535);
}

#[test]
fn humidity_is_clamped_before_scaling() {
    assert_eq!(humidity_to_ticks(1500), 65535);
    assert_eq!(humidity_to_ticks(1001), 65535);
    assert_eq!(humidity_to_ticks(i32::MAX), 65535);
    assert_eq!(humidity_to_ticks(-1), 0);
    assert_eq!(humidity_to_ticks(i32::MIN), 0);
}

#[test]
fn temperature_ticks_follow_the_formula() {
    assert_eq!(temperature_to_ticks(250), 26214);
    assert_eq!(temperature_to_ticks(250), DEFAULT_TEMP_TICKS);
    assert_eq!(temperature_to_ticks(0), 16851);
    assert_eq!(temperature_to_ticks(-53), 14867);
    assert_eq!(temperature_to_ticks(-450), 0);
    assert_eq!(temperature_to_ticks(1300), 65535);
}

#[test]
fn temperature_is_clamped_before_scaling() {
    assert_eq!(temperature_to_ticks(-451), 0);
    assert_eq!(temperature_to_ticks(i32::MIN), 0);
    assert_eq!(temperature_to_ticks(1301), 65535);
    assert_eq!(temperature_to_ticks(i32::MAX), 65535);
}

#[test]
fn tick_conversions_are_monotonic() {
    let mut last_h = 0u16;
    for h in -20..1020 {
        let ticks = humidity_to_ticks(h);
        assert!(ticks >= last_h);
        last_h = ticks;
    }
    let mut last_t = 0u16;
    for t in -470..1320 {
        let ticks = temperature_to_ticks(t);
        assert!(ticks >= last_t);
        last_t = ticks;
    }
}

#[test]
fn measure_command_with_defaults_is_the_documented_frame() {
    assert_eq!(
        build_measure_command(DEFAULT_RH_TICKS, DEFAULT_TEMP_TICKS),
        vec![0x26, 0x19, 0x80, 0x00, 0xA2, 0x66, 0x66, 0x93]
    );
    assert_eq!(
        build_measure_command(0xBEEF, 0xD400),
        vec![0x26, 0x19, 0xBE, 0xEF, 0x92, 0xD4, 0x00, 0xC6]
    );
}

#[test]
fn new_driver_is_uninitialized() {
    let driver = Sgp41::new((), 2);
    assert_eq!(driver.state(), GasState::Uninitialized);
    assert!(!driver.is_initialized());
    assert_eq!(driver.address(), 0x59);
}

#[test]
fn measure_before_ready_is_not_initialized() {
    let driver = Sgp41::new((), 2);
    assert_eq!(driver.measure(None, None), GasStep::Finished(Err(Sgp41Error::NotInitialized)));
    assert_eq!(
        driver.measure_indices(Some(500), Some(250)),
        GasStep::Finished(Err(Sgp41Error::NotInitialized))
    );
}

#[test]
fn init_runs_self_test_conditioning_and_warmup() {
    let mut driver = Sgp41::new((), 2);
    let op = driver.init();
    assert_eq!(op, GasOp::InitSelfTest(Leg::Command));
    assert_eq!(driver.state(), GasState::SelfTesting);
    let mut asked = Vec::new();
    let result =
        run_gas_op(&mut driver, op, &[0xD4, 0x00, 0xC6], &gas_reply(30000, 15000), &mut asked);
    assert_eq!(result, Ok(GasOutput::Done));
    assert_eq!(driver.state(), GasState::Ready);
    assert!(driver.is_initialized());
    let asked: Vec<String> = asked.iter().map(|r| format!("{:?}", r)).collect();
    assert_eq!(
        asked,
        vec![
            "Write([40, 14])",
            "Delay(320)",
            "Read(3)",
            "Write([38, 25, 128, 0, 162, 102, 102, 147])",
            "Delay(50)",
            "Read(6)",
            "Delay(9950)",
        ]
    );
}

#[test]
fn lifecycle_passes_through_every_stage() {
    let mut driver = Sgp41::new((), 2);
    let mut op = driver.init();
    let mut seen = vec![driver.state()];
    loop {
        let request = op.request();
        let reply = gas_reply(30000, 15000);
        let response = match &request {
            Request::Read(3) => Response::Data(&[0xD4, 0x00, 0xC6]),
            Request::Read(_) => Response::Data(&reply),
            _ => Response::Done,
        };
        let step = driver.advance(op, &response);
        if seen.last() != Some(&driver.state()) {
            seen.push(driver.state());
        }
        match step {
            GasStep::Continue(next) => op = next,
            GasStep::Finished(result) => {
                assert_eq!(result, Ok(GasOutput::Done));
                break;
            }
        }
    }
    assert_eq!(seen, vec![GasState::SelfTesting, GasState::Conditioning, GasState::Ready]);
}

#[test]
fn failed_self_test_reports_the_code_and_aborts_init() {
    let mut driver = Sgp41::new((), 2);
    let op = driver.init();
    let mut asked = Vec::new();
    let result = run_gas_op(&mut driver, op, &gas_word(0x4B00), &gas_reply(1, 1), &mut asked);
    assert_eq!(result, Err(Sgp41Error::SelfTestFailed(0x4B00)));
    assert_eq!(driver.state(), GasState::Uninitialized);
    assert_eq!(asked.len(), 3);
}

#[test]
fn self_test_crc_fault_is_crc_error() {
    let mut driver = Sgp41::new((), 2);
    let op = driver.self_test();
    let mut asked = Vec::new();
    let result = run_gas_op(&mut driver, op, &[0xD4, 0x00, 0xC7], &gas_reply(1, 1), &mut asked);
    assert_eq!(result, Err(Sgp41Error::CrcError));
}

#[test]
fn self_test_on_its_own_leaves_the_lifecycle_alone() {
    let mut driver = Sgp41::new((), 2);
    let op = driver.self_test();
    let mut asked = Vec::new();
    let result = run_gas_op(&mut driver, op, &[0xD4, 0x00, 0xC6], &gas_reply(1, 1), &mut asked);
    assert_eq!(result, Ok(GasOutput::Done));
    assert_eq!(driver.state(), GasState::Uninitialized);
    let mut ready = ready_gas_driver();
    let op = ready.self_test();
    let result = run_gas_op(&mut ready, op, &gas_word(0x1234), &gas_reply(1, 1), &mut asked);
    assert_eq!(result, Err(Sgp41Error::SelfTestFailed(0x1234)));
    assert_eq!(ready.state(), GasState::Ready);
}

#[test]
fn bus_failure_is_i2c_error() {
    let mut driver = Sgp41::new((), 2);
    let op = driver.self_test();
    assert_eq!(driver.advance(op, &Response::Failed), GasStep::Finished(Err(Sgp41Error::I2cError)));
    let op = driver.init();
    assert_eq!(driver.advance(op, &Response::Failed), GasStep::Finished(Err(Sgp41Error::I2cError)));
    assert_eq!(driver.state(), GasState::Uninitialized);
    let mut ready = ready_gas_driver();
    let op = match ready.measure_internal(None, None) {
        GasStep::Continue(op) => op,
        other => panic!("unexpected step {:?}", other),
    };
    let op = match ready.advance(op, &Response::Done) {
        GasStep::Continue(next) => next,
        other => panic!("unexpected step {:?}", other),
    };
    let op = match ready.advance(op, &Response::Done) {
        GasStep::Continue(next) => next,
        other => panic!("unexpected step {:?}", other),
    };
    assert_eq!(
        ready.advance(op, &Response::Data(&[0x00, 0x00, 0x81])),
        GasStep::Finished(Err(Sgp41Error::I2cError))
    );
    assert_eq!(ready.state(), GasState::Ready);
}

#[test]
fn measure_internal_before_ready_is_not_initialized() {
    let mut driver = Sgp41::new((), 2);
    assert_eq!(
        driver.measure_internal(None, None),
        GasStep::Finished(Err(Sgp41Error::NotInitialized))
    );
    let _ = driver.init();
    assert_eq!(driver.state(), GasState::SelfTesting);
    assert_eq!(
        driver.measure_internal(Some(500), Some(250)),
        GasStep::Finished(Err(Sgp41Error::NotInitialized))
    );
}

#[test]
fn measurement_built_by_hand_is_refused_on_unready_sensor() {
    let mut driver = Sgp41::new((), 2);
    for leg in [Leg::Command, Leg::Settle, Leg::Reply] {
        for indices in [false, true] {
            let op = GasOp::Measure { leg, rh_ticks: 0x8000, t_ticks: 0x6666, indices };
            for response in
                [Response::Done, Response::Failed, Response::Data(&gas_reply(30000, 15000))]
            {
                assert_eq!(
                    driver.advance(op, &response),
                    GasStep::Finished(Err(Sgp41Error::NotInitialized))
                );
                assert_eq!(driver.state(), GasState::Uninitialized);
            }
        }
    }
}

#[test]
fn measurement_under_way_is_refused_once_the_heater_is_off() {
    let mut driver = ready_gas_driver();
    let op = match driver.measure(None, None) {
        GasStep::Continue(op) => op,
        other => panic!("unexpected step {:?}", other),
    };
    let op = match driver.advance(op, &Response::Done) {
        GasStep::Continue(next) => next,
        other => panic!("unexpected step {:?}", other),
    };
    let off = driver.heater_off();
    assert_eq!(driver.advance(off, &Response::Done), GasStep::Finished(Ok(GasOutput::Done)));
    assert_eq!(
        driver.advance(op, &Response::Done),
        GasStep::Finished(Err(Sgp41Error::NotInitialized))
    );
}

#[test]
fn heater_off_leaves_the_running_algorithms_alone() {
    let mut driver = ready_gas_driver();
    let mut asked = Vec::new();
    let mut last = Ok(GasOutput::Done);
    for _ in 0..300 {
        let op = match driver.measure_indices(Some(500), Some(250)) {
            GasStep::Continue(op) => op,
            other => panic!("unexpected step {:?}", other),
        };
        last = run_gas_op(&mut driver, op, &[], &gas_reply(30000, 15000), &mut asked);
    }
    assert_eq!(last, Ok(GasOutput::Indices(100, 1)));
    let off = driver.heater_off();
    assert_eq!(driver.advance(off, &Response::Done), GasStep::Finished(Ok(GasOutput::Done)));
    let op = driver.init();
    let result =
        run_gas_op(&mut driver, op, &[0xD4, 0x00, 0xC6], &gas_reply(30000, 15000), &mut asked);
    assert_eq!(result, Ok(GasOutput::Done));
    let op = match driver.measure_indices(Some(500), Some(250)) {
        GasStep::Continue(op) => op,
        other => panic!("unexpected step {:?}", other),
    };
    // Fresh algorithms would report zero for their first 45 seconds.
    let result = run_gas_op(&mut driver, op, &[], &gas_reply(30000, 15000), &mut asked);
    assert_eq!(result, Ok(GasOutput::Indices(100, 1)));
}

#[test]
fn conditioning_crc_fault_aborts_init() {
    let mut driver = Sgp41::new((), 2);
    let op = driver.init();
    let mut reply = gas_reply(30000, 15000);
    reply[5] ^= 0xFF;
    let mut asked = Vec::new();
    let result = run_gas_op(&mut driver, op, &[0xD4, 0x00, 0xC6], &reply, &mut asked);
    assert_eq!(result, Err(Sgp41Error::CrcError));
    assert_eq!(driver.state(), GasState::Uninitialized);
    assert_eq!(asked.len(), 6);
}

#[test]
fn init_step_out_of_stage_is_rejected() {
    let mut driver = Sgp41::new((), 2);
    assert_eq!(
        driver.advance(GasOp::InitWarmup, &Response::Done),
        GasStep::Finished(Err(Sgp41Error::NotInitialized))
    );
    assert_eq!(driver.state(), GasState::Uninitialized);
    assert_eq!(
        driver.advance(GasOp::InitSelfTest(Leg::Command), &Response::Done),
        GasStep::Finished(Err(Sgp41Error::NotInitialized))
    );
    let mut ready = ready_gas_driver();
    assert_eq!(
        ready.advance(GasOp::InitConditioning(Leg::Reply), &Response::Data(&gas_reply(1, 1))),
        GasStep::Finished(Err(Sgp41Error::NotInitialized))
    );
    assert_eq!(ready.state(), GasState::Ready);
}

#[test]
fn measure_returns_the_raw_signals() {
    let mut driver = ready_gas_driver();
    let op = match driver.measure(Some(450), Some(235)) {
        GasStep::Continue(op) => op,
        other => panic!("unexpected step {:?}", other),
    };
    assert_eq!(
        op,
        GasOp::Measure { leg: Leg::Command, rh_ticks: 29490, t_ticks: 25652, indices: false }
    );
    let mut asked = Vec::new();
    let result = run_gas_op(&mut driver, op, &[], &gas_reply(0x7A12, 0x3A98), &mut asked);
    assert_eq!(result, Ok(GasOutput::Raw(0x7A12, 0x3A98)));
    let asked: Vec<String> = asked.iter().map(|r| format!("{:?}", r)).collect();
    assert_eq!(asked[1], "Delay(50)");
    assert_eq!(asked[2], "Read(6)");
    let cmd = build_measure_command(29490, 25652);
    assert_eq!(asked[0], format!("Write({:?})", cmd));
}

#[test]
fn measure_crc_fault_in_either_word_is_crc_error() {
    let mut driver = ready_gas_driver();
    for broken in [2usize, 5usize] {
        let op = match driver.measure_internal(None, None) {
            GasStep::Continue(op) => op,
            other => panic!("unexpected step {:?}", other),
        };
        let mut reply = gas_reply(0x7A12, 0x3A98);
        reply[broken] ^= 0x01;
        let mut asked = Vec::new();
        let result = run_gas_op(&mut driver, op, &[], &reply, &mut asked);
        assert_eq!(result, Err(Sgp41Error::CrcError));
        assert_eq!(driver.state(), GasState::Ready);
    }
}

#[test]
fn measure_indices_stay_in_range_and_settle_at_the_mean() {
    let mut driver = ready_gas_driver();
    let mut last = (0, 0);
    // Sampled once a second in the algorithm's terms of two seconds per sample:
    // the blackout of 45 seconds ends after 23 samples.
    for round in 0..300 {
        let op = match driver.measure_indices(Some(500), Some(250)) {
            GasStep::Continue(op) => op,
            other => panic!("unexpected step {:?}", other),
        };
        let mut asked = Vec::new();
        let result = run_gas_op(&mut driver, op, &[], &gas_reply(30000, 15000), &mut asked);
        match result {
            Ok(GasOutput::Indices(voc, nox)) => {
                assert!((0..=500).contains(&voc));
                assert!((0..=500).contains(&nox));
                if round < 20 {
                    assert_eq!((voc, nox), (0, 0));
                }
                last = (voc, nox);
            }
            other => panic!("unexpected result {:?}", other),
        }
    }
    assert_eq!(last, (100, 1));
}

#[test]
fn heater_off_returns_to_uninitialized() {
    let mut driver = ready_gas_driver();
    let op = driver.heater_off();
    assert_eq!(format!("{:?}", op.request()), "Write([54, 21])");
    assert_eq!(driver.advance(op, &Response::Failed), GasStep::Finished(Err(Sgp41Error::I2cError)));
    assert_eq!(driver.state(), GasState::Ready);
    assert_eq!(driver.advance(op, &Response::Done), GasStep::Finished(Ok(GasOutput::Done)));
    assert_eq!(driver.state(), GasState::Uninitialized);
    assert_eq!(driver.measure(None, None), GasStep::Finished(Err(Sgp41Error::NotInitialized)));
}

#[test]
fn missing_compensation_uses_the_defaults() {
    let driver = ready_gas_driver();
    assert_eq!(
        driver.measure_internal(None, None),
        GasStep::Continue(GasOp::Measure {
            leg: Leg::Command,
            rh_ticks: 0x8000,
            t_ticks: 0x6666,
            indices: false
        })
    );
    assert_eq!(
        driver.measure_internal(Some(1500), None),
        GasStep::Continue(GasOp::Measure {
            leg: Leg::Command,
            rh_ticks: 65535,
            t_ticks: 0x6666,
            indices: false
        })
    );
    assert_eq!(
        driver.measure_indices(None, Some(-450)),
        GasStep::Continue(GasOp::Measure {
            leg: Leg::Command,
            rh_ticks: 0x8000,
            t_ticks: 0,
            indices: true
        })
    );
}
