use rs_pool::health::HealthState;
use rs_pool::state::{ActiveLoop, PoolState, PublishHint};
use rs_pool::temp::ads::{
    open_ads_reader, rejected_conversion, sample_average, target_addr, target_input, AddressPin,
    AdsError, AdsErrorKind, AdsInput, AdsReader, MockAdsReader, SampleStep, Sampler,
};
use rs_pool::temp::convert::{average_raw, raw_in_band};
use rs_pool::temp::poll::TempPoller;
use serde_json::Number;

const SEC: u64 = 1_000_000_000;
const R7: u8 = 0b0100_0000;

fn number(value: f64) -> Number {
    Number::from_f64(value).unwrap()
}

#[test]
fn average_raw_samples() {
    assert_eq!(average_raw(&[100, 200, 300]), Some(200));
    assert!(average_raw(&[]).is_none());
}

#[test]
fn average_truncates_toward_zero() {
    assert_eq!(average_raw(&[1, 2]), Some(1));
    assert_eq!(average_raw(&[-1, -2]), Some(-1));
    assert_eq!(average_raw(&[-3, 2]), Some(0));
    assert_eq!(average_raw(&[i16::MIN, i16::MIN]), Some(i16::MIN));
    assert_eq!(average_raw(&[i16::MAX; 255]), Some(i16::MAX));
}

#[test]
fn raw_band_is_inclusive() {
    assert!(!raw_in_band(79, 80, 32_600));
    assert!(raw_in_band(80, 80, 32_600));
    assert!(raw_in_band(32_600, 80, 32_600));
    assert!(!raw_in_band(32_601, 80, 32_600));
}

#[test]
fn mock_average_and_fault() {
    let mut ok = MockAdsReader {
        values: vec![Ok(1000), Ok(1100), Ok(900)],
        index: 0,
    };
    let avg = sample_average(&mut ok, 0, 3).unwrap();
    assert_eq!(avg, 1000);

    let mut bad = MockAdsReader::failing(AdsErrorKind::I2c, "nack");
    let err = sample_average(&mut bad, 0, 1).unwrap_err();
    assert_eq!(err.kind, AdsErrorKind::I2c);

    let mut fixed = MockAdsReader::always(2000);
    assert_eq!(fixed.read_single_ended(0).unwrap(), 2000);

    let Err(err) = open_ads_reader("/dev/null", 0x40) else {
        panic!("expected Config error for bad address");
    };
    assert_eq!(err.kind, AdsErrorKind::Config);
}

#[test]
fn mock_reader_cycles() {
    let mut reader = MockAdsReader {
        values: vec![Ok(1), Err(AdsError { kind: AdsErrorKind::I2c, message: "x".to_string() })],
        index: 0,
    };
    assert_eq!(reader.read_single_ended(0).unwrap(), 1);
    assert_eq!(reader.read_single_ended(0).unwrap_err().message, "x");
    assert_eq!(reader.read_single_ended(0).unwrap(), 1);
    let mut empty = MockAdsReader { values: Vec::new(), index: 0 };
    assert_eq!(empty.read_single_ended(0).unwrap_err().text(), "I2c: empty mock");
}

#[test]
fn sampling_takes_at_least_one_reading() {
    let mut reader = MockAdsReader { values: vec![Ok(7), Ok(9)], index: 0 };
    assert_eq!(sample_average(&mut reader, 0, 0).unwrap(), 7);
    assert_eq!(reader.index, 1);
    let mut reader = MockAdsReader { values: vec![Ok(7), Ok(10)], index: 0 };
    assert_eq!(sample_average(&mut reader, 0, 2).unwrap(), 8);
    assert_eq!(reader.index, 2);
}

#[test]
fn sampling_stops_at_the_first_error() {
    let mut reader = MockAdsReader {
        values: vec![
            Ok(7),
            Err(AdsError { kind: AdsErrorKind::I2c, message: "nack".to_string() }),
            Ok(9),
        ],
        index: 0,
    };
    assert_eq!(sample_average(&mut reader, 0, 3).unwrap_err().text(), "I2c: nack");
    assert_eq!(reader.index, 2);
}

#[test]
fn paced_sampling_pauses_between_readings() {
    let mut sampler = Sampler::new(2, 10);
    assert_eq!(sampler.step(), SampleStep::Read);
    sampler.on_reading(Ok(10));
    assert_eq!(sampler.step(), SampleStep::Pause);
    sampler.on_pause();
    assert_eq!(sampler.step(), SampleStep::Read);
    sampler.on_reading(Ok(20));
    assert_eq!(sampler.step(), SampleStep::Finished);
    assert_eq!(sampler.finish().unwrap(), 15);

    let mut sampler = Sampler::new(2, 0);
    sampler.on_reading(Ok(10));
    assert_eq!(sampler.step(), SampleStep::Read);
    let sampler = Sampler::new(1, 0);
    assert_eq!(sampler.finish().unwrap_err().text(), "OutOfRange: empty sample set");
}

#[test]
fn converter_addresses() {
    assert_eq!(target_addr(0x48).unwrap(), AddressPin::Gnd);
    assert_eq!(target_addr(0x49).unwrap(), AddressPin::Vdd);
    assert_eq!(target_addr(0x4A).unwrap(), AddressPin::Sda);
    assert_eq!(target_addr(0x4B).unwrap(), AddressPin::Scl);
    assert_eq!(
        target_addr(0x0F).unwrap_err().text(),
        "Config: unsupported ADS1115 address 0x0f"
    );
    assert!(target_addr(0x4C).is_err());
}

#[test]
fn converter_inputs() {
    assert_eq!(target_input(0).unwrap(), AdsInput::A0);
    assert_eq!(target_input(1).unwrap(), AdsInput::A1);
    assert_eq!(target_input(2).unwrap(), AdsInput::A2);
    assert_eq!(target_input(3).unwrap(), AdsInput::A3);
    assert_eq!(
        target_input(4).unwrap_err().text(),
        "Config: channel 4 out of range (0..=3)"
    );
}

#[test]
fn absent_converter_fails_every_reading() {
    let mut reader = open_ads_reader("/dev/i2c-1", 0x4A).unwrap();
    assert_eq!(
        reader.read_single_ended(0).unwrap_err().text(),
        "Open: ADS1115 unavailable (/dev/i2c-1 @ 0x4a)"
    );
}

#[test]
fn rejected_conversions() {
    assert_eq!(
        rejected_conversion(-12).text(),
        "OutOfRange: conversion rejected raw=-12"
    );
    assert_eq!(
        rejected_conversion(32_700).text(),
        "OutOfRange: conversion rejected raw=32700"
    );
}

#[test]
fn poll_settles_after_every_change() {
    let mut poller = TempPoller::new();
    let mut state = PoolState::default();
    let mut health = HealthState::new(true, true, true);
    let found = poller.start(&mut state, 7, 90, 0);
    assert_eq!(found.active, ActiveLoop::Pool);
    assert_eq!(found.hint, PublishHint::Immediate);
    assert!(!found.mode_disagrees);
    assert!(state.water_temp_settling);
    let hint = poller.on_reading(&mut state, &mut health, found.active, number(75.0), true, SEC);
    assert_eq!(hint, PublishHint::Silent);
    assert!(health.temp_ok);
    assert!(state.measured.pool_temp.is_none());

    let found = poller.start(&mut state, 7, 90, 90 * SEC);
    assert_eq!(found.hint, PublishHint::Silent);
    assert!(!state.water_temp_settling);
    let hint =
        poller.on_reading(&mut state, &mut health, found.active, number(75.0), true, 91 * SEC);
    assert_eq!(hint, PublishHint::Immediate);
    assert_eq!(state.measured.pool_temp, Some(number(75.0)));

    state.measured.relay_status = Some(R7);
    let found = poller.start(&mut state, 7, 90, 100 * SEC);
    assert_eq!(found.active, ActiveLoop::Spa);
    assert_eq!(found.hint, PublishHint::Immediate);
    assert!(found.mode_disagrees);
    assert!(state.water_temp_settling);
    assert_eq!(state.measured.pool_temp, Some(number(75.0)));
    for s in [104, 120, 150, 189] {
        let found = poller.start(&mut state, 7, 90, s * SEC);
        poller.on_reading(&mut state, &mut health, found.active, number(99.0), true, s * SEC);
        assert!(state.measured.spa_temp.is_none());
        assert_eq!(state.measured.pool_temp, Some(number(75.0)));
    }
    // The settling time runs out while the sensor is read.
    let found = poller.start(&mut state, 7, 90, 189 * SEC);
    let hint =
        poller.on_reading(&mut state, &mut health, found.active, number(99.0), false, 190 * SEC);
    assert_eq!(hint, PublishHint::Immediate);
    assert_eq!(state.measured.spa_temp, Some(number(99.0)));
    assert!(!state.water_temp_settling);
}

#[test]
fn poll_settles_for_a_second_at_least() {
    let mut poller = TempPoller::new();
    let mut state = PoolState::default();
    poller.start(&mut state, 7, 0, 5);
    assert_eq!(poller.settle_deadline_ns, Some(u128::from(SEC) + 5));
    poller.start(&mut state, 7, 0, SEC + 4);
    assert!(state.water_temp_settling);
    poller.start(&mut state, 7, 0, SEC + 5);
    assert!(!state.water_temp_settling);
}

#[test]
fn faults_clear_the_active_loop() {
    let mut poller = TempPoller::new();
    let mut state = PoolState::default();
    let mut health = HealthState::new(true, true, true);
    health.temp_ok = true;
    state.measured.pool_temp = Some(number(75.0));
    state.measured.spa_temp = Some(number(99.0));
    let hint = poller.on_fault(&mut state, &mut health, ActiveLoop::Spa);
    assert_eq!(hint, PublishHint::Immediate);
    assert!(poller.faulted && !health.temp_ok);
    assert!(state.measured.spa_temp.is_none());
    assert_eq!(state.measured.pool_temp, Some(number(75.0)));
    let hint = poller.on_fault(&mut state, &mut health, ActiveLoop::Spa);
    assert_eq!(hint, PublishHint::Silent);
}
