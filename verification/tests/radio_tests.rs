use pluton::error::Error;
use pluton::freq::Frequency;
use pluton::gain::GainControlMode;
use pluton::radio::Pluto;
use pluton::store::{
    AttrKey, AttrName, AttrValue, AttributeStore, ChannelName, FakeStore, Target, WriteRecord,
};

const FEASIBLE_PATH: &str =
    "BBPLL:1024000006 DAC:128000000 T2:64000000 T1:32000000 TF:16000000 TXSAMP:4000000";
const INFEASIBLE_PATH: &str =
    "BBPLL:1024000006 DAC:4000000 T2:64000000 T1:32000000 TF:16000000 TXSAMP:4000000";

fn key_sample_in() -> AttrKey {
    AttrKey {
        target: Target::Chan(ChannelName::Voltage0, false),
        attr: AttrName::SamplingFrequency,
    }
}

fn key_sample_out() -> AttrKey {
    AttrKey {
        target: Target::Chan(ChannelName::Voltage0, true),
        attr: AttrName::SamplingFrequency,
    }
}

fn key_fir_device() -> AttrKey {
    AttrKey {
        target: Target::Phy,
        attr: AttrName::InOutVoltageFilterFirEn,
    }
}

fn key_fir_channel() -> AttrKey {
    AttrKey {
        target: Target::Chan(ChannelName::Out, false),
        attr: AttrName::VoltageFilterFirEn,
    }
}

fn key_fir_config() -> AttrKey {
    AttrKey {
        target: Target::Phy,
        attr: AttrName::FilterFirConfig,
    }
}

fn key_tx_path_rates() -> AttrKey {
    AttrKey {
        target: Target::Phy,
        attr: AttrName::TxPathRates,
    }
}

fn key_gain_mode() -> AttrKey {
    AttrKey {
        target: Target::Chan(ChannelName::Voltage0, false),
        attr: AttrName::GainControlMode,
    }
}

/// A radio whose store reports the given current rate, filter flag and
/// transmit-path status line.
fn primed_radio(current_rate: i64, fir_enabled: bool, path: &str) -> Pluto<FakeStore> {
    let mut store = FakeStore::new();
    store.prime(key_sample_in(), AttrValue::Int(current_rate));
    store.prime(key_fir_device(), AttrValue::Bool(fir_enabled));
    store.prime(key_tx_path_rates(), AttrValue::Str(String::from(path)));
    Pluto::new(store)
}

#[test]
fn rates_below_the_minimum_are_rejected() {
    for rate in [0u64, 1, 520_999] {
        let mut radio = primed_radio(30_000_000, false, FEASIBLE_PATH);
        let r = radio.set_sample_rate(Frequency::new_hertz(rate));
        assert_eq!(r, Err(Error::InvalidSampleRate));
        assert!(radio.store.write_log.is_empty());
    }
}

#[test]
fn minimum_rate_succeeds_on_a_fake_store() {
    let mut radio = primed_radio(30_000_000, false, FEASIBLE_PATH);
    let r = radio.set_sample_rate(Frequency::new_hertz(521_000));
    assert_eq!(r, Ok(()));
    // Filter was off and the path is feasible: configure, enable, commit.
    let log = &radio.store.write_log;
    assert_eq!(log.len(), 3);
    assert!(matches!(&log[0], WriteRecord::Str(k, _) if *k == key_fir_config()));
    assert_eq!(log[1], WriteRecord::Bool(key_fir_device(), true));
    assert_eq!(log[2], WriteRecord::Int(key_sample_out(), 521_000));
}

#[test]
fn low_current_rate_parks_before_disabling_the_filter() {
    // Current rate 1.5 MHz with the filter on: the safe intermediate rate
    // must be written before the disable step.
    let mut radio = primed_radio(1_500_000, true, FEASIBLE_PATH);
    let r = radio.set_sample_rate(Frequency::new_hertz(1_800_000));
    assert_eq!(r, Ok(()));
    let log = &radio.store.write_log;
    let park_at = log
        .iter()
        .position(|w| *w == WriteRecord::Int(key_sample_out(), 3_000_000))
        .expect("no safe intermediate rate was written");
    let disable_at = log
        .iter()
        .position(|w| *w == WriteRecord::Bool(key_fir_device(), false))
        .expect("the filter was never disabled");
    assert!(park_at < disable_at);
    // The full expected order.
    assert_eq!(log.len(), 5);
    assert_eq!(log[0], WriteRecord::Int(key_sample_out(), 3_000_000));
    assert_eq!(log[1], WriteRecord::Bool(key_fir_device(), false));
    assert!(matches!(&log[2], WriteRecord::Str(k, _) if *k == key_fir_config()));
    assert_eq!(log[3], WriteRecord::Bool(key_fir_device(), true));
    assert_eq!(log[4], WriteRecord::Int(key_sample_out(), 1_800_000));
}

#[test]
fn high_current_rate_skips_the_first_park() {
    let mut radio = primed_radio(30_000_000, true, FEASIBLE_PATH);
    let r = radio.set_sample_rate(Frequency::new_hertz(1_800_000));
    assert_eq!(r, Ok(()));
    let log = &radio.store.write_log;
    assert_eq!(log[0], WriteRecord::Bool(key_fir_device(), false));
}

#[test]
fn infeasible_path_parks_again_before_enabling() {
    // DAC only 4 MHz against a 4 MHz transmit rate: 1 * 16 taps feasible,
    // fewer than the 128 the selected table needs.
    let mut radio = primed_radio(30_000_000, false, INFEASIBLE_PATH);
    let r = radio.set_sample_rate(Frequency::new_hertz(1_000_000));
    assert_eq!(r, Ok(()));
    let log = &radio.store.write_log;
    assert_eq!(log.len(), 4);
    assert!(matches!(&log[0], WriteRecord::Str(k, _) if *k == key_fir_config()));
    assert_eq!(log[1], WriteRecord::Int(key_sample_out(), 3_000_000));
    assert_eq!(log[2], WriteRecord::Bool(key_fir_device(), true));
    assert_eq!(log[3], WriteRecord::Int(key_sample_out(), 1_000_000));
}

#[test]
fn high_target_rate_commits_rate_before_enabling() {
    let mut radio = primed_radio(30_000_000, false, FEASIBLE_PATH);
    let r = radio.set_sample_rate(Frequency::new_hertz(30_720_000));
    assert_eq!(r, Ok(()));
    let log = &radio.store.write_log;
    assert_eq!(log.len(), 3);
    assert!(matches!(&log[0], WriteRecord::Str(k, _) if *k == key_fir_config()));
    assert_eq!(log[1], WriteRecord::Int(key_sample_out(), 30_720_000));
    assert_eq!(log[2], WriteRecord::Bool(key_fir_device(), true));
}

#[test]
fn high_target_rate_never_reads_the_path_status() {
    // No tx_path_rates attribute at all: a high target rate still works.
    let mut store = FakeStore::new();
    store.prime(key_sample_in(), AttrValue::Int(30_000_000));
    store.prime(key_fir_device(), AttrValue::Bool(false));
    let mut radio = Pluto::new(store);
    assert_eq!(radio.set_sample_rate(Frequency::new_hertz(25_000_000)), Ok(()));
}

#[test]
fn garbled_path_status_aborts_with_parse_error() {
    let mut radio = primed_radio(30_000_000, false, "BBPLL:broken");
    let r = radio.set_sample_rate(Frequency::new_hertz(1_000_000));
    assert_eq!(r, Err(Error::ParsingError));
}

#[test]
fn negative_current_rate_fails_the_conversion() {
    let mut radio = primed_radio(-5, false, FEASIBLE_PATH);
    let r = radio.set_sample_rate(Frequency::new_hertz(1_000_000));
    assert_eq!(r, Err(Error::FailedDownconvIntAttr));
}

#[test]
fn missing_current_rate_propagates_the_store_error() {
    let mut radio = Pluto::new(FakeStore::new());
    let r = radio.set_sample_rate(Frequency::new_hertz(1_000_000));
    assert!(matches!(r, Err(Error::IIOError(_))));
}

#[test]
fn filter_flag_read_falls_back_to_the_channel_attribute() {
    let mut store = FakeStore::new();
    store.prime(key_fir_channel(), AttrValue::Bool(true));
    let radio = Pluto::new(store);
    assert_eq!(radio.is_tx_fir_enabled(), Ok(true));
}

#[test]
fn filter_flag_prefers_the_device_attribute() {
    let mut store = FakeStore::new();
    store.prime(key_fir_device(), AttrValue::Bool(false));
    store.prime(key_fir_channel(), AttrValue::Bool(true));
    let radio = Pluto::new(store);
    assert_eq!(radio.is_tx_fir_enabled(), Ok(false));
}

#[test]
fn get_sample_rate_reads_the_input_side() {
    let mut store = FakeStore::new();
    store.prime(key_sample_in(), AttrValue::Int(2_084_000));
    let radio = Pluto::new(store);
    assert_eq!(radio.get_sample_rate(), Ok(Frequency::new_hertz(2_084_000)));
}

#[test]
fn carrier_frequency_setters_write_their_channels() {
    let mut radio = Pluto::new(FakeStore::new());
    radio
        .set_rx_carrier_freq(Frequency::new_hertz(2_400_000_000))
        .unwrap();
    radio
        .set_tx_carrier_freq(Frequency::new_hertz(915_000_000))
        .unwrap();
    let rx_key = AttrKey {
        target: Target::Chan(ChannelName::AltVoltage0, true),
        attr: AttrName::Frequency,
    };
    let tx_key = AttrKey {
        target: Target::Chan(ChannelName::AltVoltage1, true),
        attr: AttrName::Frequency,
    };
    assert_eq!(
        radio.store.write_log,
        vec![
            WriteRecord::Int(rx_key, 2_400_000_000),
            WriteRecord::Int(tx_key, 915_000_000),
        ]
    );
}

#[test]
fn bandwidth_round_trips_through_the_store() {
    let mut radio = Pluto::new(FakeStore::new());
    radio
        .set_rx_rf_bandwidth(Frequency::new_hertz(56_000_000))
        .unwrap();
    assert_eq!(
        radio.get_rx_rf_bandwidth(),
        Ok(Frequency::new_hertz(56_000_000))
    );
    radio
        .set_tx_rf_bandwidth(Frequency::new_hertz(40_000_000))
        .unwrap();
    assert_eq!(
        radio.get_tx_rf_bandwidth(),
        Ok(Frequency::new_hertz(40_000_000))
    );
}

#[test]
fn gain_control_mode_round_trips_through_the_store() {
    let mut radio = Pluto::new(FakeStore::new());
    radio.set_gain_control_mode(GainControlMode::Manual).unwrap();
    assert_eq!(
        radio.store.write_log,
        vec![WriteRecord::Str(key_gain_mode(), String::from("manual"))]
    );
    assert_eq!(radio.get_gain_control_mode(), Ok(GainControlMode::Manual));
}

#[test]
fn unknown_gain_control_mode_reports_the_string() {
    let mut store = FakeStore::new();
    store.prime(key_gain_mode(), AttrValue::Str(String::from("turbo")));
    let radio = Pluto::new(store);
    assert_eq!(
        radio.get_gain_control_mode(),
        Err(Error::InvalidGainControlMode(String::from("turbo")))
    );
}

#[test]
fn fake_store_reads_what_it_was_primed_with() {
    let mut store = FakeStore::new();
    store.prime(key_sample_in(), AttrValue::Int(1));
    store.prime(key_sample_in(), AttrValue::Int(2));
    assert_eq!(store.read_int(key_sample_in()), Ok(2));
    assert!(matches!(
        store.read_bool(key_sample_in()),
        Err(Error::IIOError(_))
    ));
    assert!(matches!(
        store.read_int(key_fir_device()),
        Err(Error::IIOError(_))
    ));
}

#[test]
fn feasibility_boundary_is_not_reparked() {
    // 32 MHz DAC over a 4 MHz transmit rate: (32/4) * 16 = 128 feasible
    // taps, exactly the 128 the selected table needs - not fewer, so no
    // second park.
    let path = "BBPLL:1024000006 DAC:32000000 T2:64000000 T1:32000000 TF:16000000 TXSAMP:4000000";
    let mut radio = primed_radio(30_000_000, false, path);
    let r = radio.set_sample_rate(Frequency::new_hertz(1_000_000));
    assert_eq!(r, Ok(()));
    let log = &radio.store.write_log;
    assert_eq!(log.len(), 3);
    assert!(matches!(&log[0], WriteRecord::Str(k, _) if *k == key_fir_config()));
    assert_eq!(log[1], WriteRecord::Bool(key_fir_device(), true));
    assert_eq!(log[2], WriteRecord::Int(key_sample_out(), 1_000_000));
}

#[test]
fn zero_transmit_rate_counts_as_infeasible() {
    // A reported transmit rate of zero gives no usable DAC ratio, so the
    // safe rate is parked before the filter is enabled.
    let path = "BBPLL:1024000006 DAC:128000000 T2:64000000 T1:32000000 TF:16000000 TXSAMP:0";
    let mut radio = primed_radio(30_000_000, false, path);
    let r = radio.set_sample_rate(Frequency::new_hertz(1_000_000));
    assert_eq!(r, Ok(()));
    let log = &radio.store.write_log;
    assert_eq!(log.len(), 4);
    assert_eq!(log[1], WriteRecord::Int(key_sample_out(), 3_000_000));
    assert_eq!(log[2], WriteRecord::Bool(key_fir_device(), true));
}

#[test]
fn oversized_carrier_count_wraps_like_a_cast() {
    let mut radio = Pluto::new(FakeStore::new());
    radio.set_rx_carrier_freq(Frequency::new_hertz(u64::MAX)).unwrap();
    let rx_key = AttrKey {
        target: Target::Chan(ChannelName::AltVoltage0, true),
        attr: AttrName::Frequency,
    };
    assert_eq!(radio.store.write_log, vec![WriteRecord::Int(rx_key, u64::MAX as i64)]);
}
