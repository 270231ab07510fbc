use airgradient::sensors::pms5003t::{
    parse_frame, read_from, verify_checksum, Pms5003t, PmsData, PmsError, PmsRead, PmsStage,
    PmsStep, EXPECTED_FRAME_LEN, FRAME_LEN, MAX_SYNC_ATTEMPTS,
};
use airgradient::sensors::wire::{Request, Response};

/// A frame with the given body fields and a correct checksum.
fn pms_frame(temp: i16, humidity: u16) -> Vec<u8> {
    let mut frame: Vec<u8> = vec![0x42, 0x4D, 0x00, 0x1C];
    let mut body = [0u8; 28];
    body[1] = 7;
    body[3] = 15;
    body[5] = 20;
    body[7] = 12;
    body[9] = 25;
    body[11] = 31;
    body[12] = 0x0B;
    body[13] = 0xB8;
    body[14] = 0x03;
    body[15] = 0x20;
    body[17] = 0x96;
    body[19] = 0x0A;
    body[20..22].copy_from_slice(&temp.to_be_bytes());
    body[22..24].copy_from_slice(&humidity.to_be_bytes());
    body[24] = 0x97;
    frame.extend_from_slice(&body);
    let sum: u32 = frame[..30].iter().map(|b| *b as u32).sum();
    frame[30] = ((sum >> 8) & 0xFF) as u8;
    frame[31] = (sum & 0xFF) as u8;
    frame
}

fn pms_expected(temp: i16, humidity: u16) -> PmsData {
    PmsData {
        pm1_ae: 12,
        pm25_ae: 25,
        pm10_ae: 31,
        pm03_count: 3000,
        pm05_count: 800,
        pm10_count: 150,
        pm25_count: 10,
        temp,
        humidity,
    }
}

#[test]
fn well_formed_frame_decodes_to_its_fields() {
    let frame = pms_frame(235, 450);
    assert_eq!(
        frame,
        vec![
            66, 77, 0, 28, 0, 7, 0, 15, 0, 20, 0, 12, 0, 25, 0, 31, 11, 184, 3, 32, 0, 150, 0,
            10, 0, 235, 1, 194, 151, 0, 4, 228
        ]
    );
    let report = read_from(&frame);
    assert_eq!(report.result, Ok(pms_expected(235, 450)));
    assert_eq!(report.consumed, 32);
    assert_eq!(report.failed, 0);
}

#[test]
fn frame_is_decoded_whatever_follows_it() {
    let mut stream = pms_frame(235, 450);
    stream.extend_from_slice(&[0x42, 0x4D, 0xFF, 0x00, 0x13]);
    let report = read_from(&stream);
    assert_eq!(report.result, Ok(pms_expected(235, 450)));
    assert_eq!(report.consumed, FRAME_LEN);
}

#[test]
fn negative_temperature_is_twos_complement() {
    let frame = pms_frame(-53, 999);
    assert_eq!(frame[24], 0xFF);
    assert_eq!(frame[25], 0xCB);
    let report = read_from(&frame);
    assert_eq!(report.result, Ok(pms_expected(-53, 999)));
}

#[test]
fn leading_noise_is_skipped_byte_by_byte() {
    let mut stream: Vec<u8> = vec![0x00, 0x13, 0x42, 0x99];
    stream.extend_from_slice(&pms_frame(200, 400));
    let report = read_from(&stream);
    assert_eq!(report.result, Ok(pms_expected(200, 400)));
    // 0x00 fails, 0x13 fails, 0x42 0x99 fails: three attempts, four bytes.
    assert_eq!(report.failed, 3);
    assert_eq!(report.consumed, 4 + 32);
}

#[test]
fn corrupted_checksum_recovers_on_next_frame() {
    let mut bad = pms_frame(235, 450);
    bad[31] ^= 0x01;
    let mut stream = bad.clone();
    stream.extend_from_slice(&pms_frame(240, 460));
    let report = read_from(&stream);
    assert_eq!(report.result, Ok(pms_expected(240, 460)));
    assert_eq!(report.failed, 1);
    assert_eq!(report.consumed, 64);
}

#[test]
fn corrupted_length_recovers_on_next_frame() {
    let mut bad = pms_frame(235, 450);
    bad[3] = 0x1D;
    let mut stream = bad.clone();
    stream.extend_from_slice(&pms_frame(240, 460));
    let report = read_from(&stream);
    assert_eq!(report.result, Ok(pms_expected(240, 460)));
    // The four header bytes cost one attempt, each of the 28 body bytes one more.
    assert_eq!(report.failed, 29);
    assert_eq!(report.consumed, 64);
}

#[test]
fn corrupted_sync_recovers_on_next_frame() {
    let mut bad = pms_frame(235, 450);
    bad[0] = 0x43;
    let mut stream = bad.clone();
    stream.extend_from_slice(&pms_frame(240, 460));
    let report = read_from(&stream);
    assert_eq!(report.result, Ok(pms_expected(240, 460)));
    assert_eq!(report.failed, 32);
    assert_eq!(report.consumed, 64);
}

#[test]
fn budget_is_exhausted_after_exactly_2048_attempts() {
    let noise = vec![0u8; 5000];
    let report = read_from(&noise);
    assert_eq!(report.result, Err(PmsError::MaxAttemptsExceeded));
    assert_eq!(report.failed, 2048);
    assert_eq!(report.failed, MAX_SYNC_ATTEMPTS);
    assert_eq!(report.consumed, 2048);
}

#[test]
fn dead_line_exhausts_the_budget() {
    let report = read_from(&[]);
    assert_eq!(report.result, Err(PmsError::MaxAttemptsExceeded));
    assert_eq!(report.failed, 2048);
    assert_eq!(report.consumed, 0);
}

#[test]
fn frame_cut_short_is_not_decoded() {
    let frame = pms_frame(235, 450);
    let report = read_from(&frame[..31]);
    assert_eq!(report.result, Err(PmsError::MaxAttemptsExceeded));
    assert_eq!(report.consumed, 31);
    assert_eq!(report.failed, 2048);
}

#[test]
fn read_asks_for_one_one_two_and_twenty_eight_bytes() {
    let frame = pms_frame(235, 450);
    let driver = Pms5003t::new(());
    let mut read = driver.read();
    assert_eq!(read, PmsRead::start());
    let mut asked: Vec<usize> = Vec::new();
    let mut pos = 0;
    let result = loop {
        let n = match read.request() {
            Request::Read(n) => n,
            other => panic!("unexpected request {:?}", other),
        };
        assert_eq!(n, read.wanted_len());
        asked.push(n);
        match read.advance(&Response::Data(&frame[pos..pos + n])) {
            PmsStep::Continue(next) => read = next,
            PmsStep::Finished(result) => break result,
        }
        pos += n;
    };
    assert_eq!(asked, vec![1, 1, 2, 28]);
    assert_eq!(result, Ok(pms_expected(235, 450)));
}

#[test]
fn attempt_fails_with_read_on_transport_error() {
    let read = PmsRead::start();
    match read.advance(&Response::Failed) {
        PmsStep::Continue(next) => {
            assert_eq!(next.failed, 1);
            assert_eq!(next.stage, PmsStage::Sync1);
            assert_eq!(next.last_error, Some(PmsError::Read));
        }
        other => panic!("unexpected step {:?}", other),
    }
}

#[test]
fn attempt_fails_with_read_on_wrong_sync_byte() {
    let read = PmsRead::start();
    let second = match read.advance(&Response::Data(&[0x42])) {
        PmsStep::Continue(next) => next,
        other => panic!("unexpected step {:?}", other),
    };
    assert_eq!(second.stage, PmsStage::Sync2);
    assert_eq!(second.failed, 0);
    match second.advance(&Response::Data(&[0x42])) {
        PmsStep::Continue(next) => {
            assert_eq!(next.failed, 1);
            assert_eq!(next.stage, PmsStage::Sync1);
            assert_eq!(next.last_error, Some(PmsError::Read));
        }
        other => panic!("unexpected step {:?}", other),
    }
}

#[test]
fn attempt_fails_with_frame_len_on_wrong_length() {
    let read = PmsRead { stage: PmsStage::Length, ..PmsRead::start() };
    match read.advance(&Response::Data(&[0x00, 0x1D])) {
        PmsStep::Continue(next) => {
            assert_eq!(next.failed, 1);
            assert_eq!(next.last_error, Some(PmsError::FrameLen));
        }
        other => panic!("unexpected step {:?}", other),
    }
    match read.advance(&Response::Data(&[0x00, 0x1C])) {
        PmsStep::Continue(next) => {
            assert_eq!(next.stage, PmsStage::Body);
            assert_eq!((next.len_hi, next.len_lo), (0x00, 0x1C));
            assert_eq!(next.failed, 0);
        }
        other => panic!("unexpected step {:?}", other),
    }
}

#[test]
fn attempt_fails_with_checksum_on_wrong_sum() {
    let mut frame = pms_frame(235, 450);
    frame[10] ^= 0x40;
    let read = PmsRead { stage: PmsStage::Body, len_hi: 0, len_lo: 28, ..PmsRead::start() };
    match read.advance(&Response::Data(&frame[4..])) {
        PmsStep::Continue(next) => {
            assert_eq!(next.failed, 1);
            assert_eq!(next.stage, PmsStage::Sync1);
            assert_eq!(next.last_error, Some(PmsError::Checksum));
        }
        other => panic!("unexpected step {:?}", other),
    }
}

#[test]
fn delivery_of_wrong_size_counts_as_transport_error() {
    let read = PmsRead::start();
    match read.advance(&Response::Data(&[0x42, 0x4D])) {
        PmsStep::Continue(next) => assert_eq!(next.last_error, Some(PmsError::Read)),
        other => panic!("unexpected step {:?}", other),
    }
    match read.advance(&Response::Done) {
        PmsStep::Continue(next) => assert_eq!(next.last_error, Some(PmsError::Read)),
        other => panic!("unexpected step {:?}", other),
    }
}

#[test]
fn last_attempt_of_the_budget_ends_the_read() {
    let read = PmsRead { failed: MAX_SYNC_ATTEMPTS - 1, ..PmsRead::start() };
    assert_eq!(
        read.advance(&Response::Data(&[0x00])),
        PmsStep::Finished(Err(PmsError::MaxAttemptsExceeded))
    );
    let earlier = PmsRead { failed: MAX_SYNC_ATTEMPTS - 2, ..PmsRead::start() };
    match earlier.advance(&Response::Data(&[0x00])) {
        PmsStep::Continue(next) => assert_eq!(next.failed, MAX_SYNC_ATTEMPTS - 1),
        other => panic!("unexpected step {:?}", other),
    }
}

#[test]
fn checksum_is_sum_of_header_and_payload() {
    let frame = pms_frame(235, 450);
    let len_buf = [frame[2], frame[3]];
    let mut data_buf = [0u8; 28];
    data_buf.copy_from_slice(&frame[4..]);
    assert_eq!(u16::from_be_bytes(len_buf), EXPECTED_FRAME_LEN);
    assert_eq!(u16::from_be_bytes([data_buf[26], data_buf[27]]), 1252);
    assert!(verify_checksum(&len_buf, &data_buf));
    data_buf[27] = data_buf[27].wrapping_add(1);
    assert!(!verify_checksum(&len_buf, &data_buf));
    data_buf[27] = data_buf[27].wrapping_sub(1);
    data_buf[0] = data_buf[0].wrapping_add(1);
    assert!(!verify_checksum(&len_buf, &data_buf));
}

#[test]
fn checksum_wraps_at_sixteen_bits() {
    // 26 payload bytes of 0xFF and length bytes of 0xFF: the sum stays below
    // 65536, so the field holds it as it is.
    let len_buf = [0xFFu8, 0xFF];
    let mut data_buf = [0xFFu8; 28];
    let sum: u32 = 0x42 + 0x4D + 2 * 0xFF + 26 * 0xFF;
    assert_eq!(sum, 7283);
    data_buf[26] = (sum >> 8) as u8;
    data_buf[27] = (sum & 0xFF) as u8;
    assert!(verify_checksum(&len_buf, &data_buf));
}

#[test]
fn parse_frame_reads_fixed_offsets() {
    let frame = pms_frame(-1, 65535);
    let mut data_buf = [0u8; 28];
    data_buf.copy_from_slice(&frame[4..]);
    assert_eq!(parse_frame(&data_buf), pms_expected(-1, 65535));
}

#[test]
fn driver_hands_out_its_transport() {
    let mut driver = Pms5003t::new(7u32);
    assert_eq!(*driver.uart(), 7);
    *driver.uart() = 9;
    assert_eq!(*driver.uart(), 9);
}
