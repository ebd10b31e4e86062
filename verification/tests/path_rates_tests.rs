use pluton::error::Error;
use pluton::freq::Frequency;
use pluton::path_rates::{parse_tx_path_rates, TxPathRates};

#[test]
fn parsing_tx_path_rates_works() {
    let path_rates = parse_tx_path_rates(
        "BBPLL:1024000006 DAC:128000000 T2:64000000 T1:32000000 TF:16000000 TXSAMP:4000000",
    )
    .unwrap();
    assert_eq!(
        path_rates,
        TxPathRates {
            tx_sample_rate: Frequency::new_hertz(4000000),
            hb1_filter_rate: Frequency::new_hertz(16000000),
            hb2_filter_rate: Frequency::new_hertz(32000000),
            hb3_filter_rate: Frequency::new_hertz(64000000),
            dac_sample_rate: Frequency::new_hertz(128000000),
            baseband_pll_freq: Frequency::new_hertz(1024000006),
        }
    );
}

#[test]
fn parsing_fails_on_missing_field() {
    let r = parse_tx_path_rates("BBPLL:1024000006 DAC:128000000 T2:64000000 T1:32000000 TF:16000000");
    assert_eq!(r, Err(Error::ParsingError));
}

#[test]
fn parsing_fails_on_reordered_fields() {
    let r = parse_tx_path_rates(
        "DAC:128000000 BBPLL:1024000006 T2:64000000 T1:32000000 TF:16000000 TXSAMP:4000000",
    );
    assert_eq!(r, Err(Error::ParsingError));
}

#[test]
fn parsing_fails_on_trailing_garbage() {
    let r = parse_tx_path_rates(
        "BBPLL:1024000006 DAC:128000000 T2:64000000 T1:32000000 TF:16000000 TXSAMP:4000000 ",
    );
    assert_eq!(r, Err(Error::ParsingError));
    let r = parse_tx_path_rates(
        "BBPLL:1024000006 DAC:128000000 T2:64000000 T1:32000000 TF:16000000 TXSAMP:4000000x",
    );
    assert_eq!(r, Err(Error::ParsingError));
}

#[test]
fn parsing_fails_on_leading_garbage() {
    let r = parse_tx_path_rates(
        " BBPLL:1024000006 DAC:128000000 T2:64000000 T1:32000000 TF:16000000 TXSAMP:4000000",
    );
    assert_eq!(r, Err(Error::ParsingError));
}

#[test]
fn parsing_fails_on_empty_or_nondigit_field() {
    assert_eq!(parse_tx_path_rates(""), Err(Error::ParsingError));
    let r = parse_tx_path_rates(
        "BBPLL: DAC:128000000 T2:64000000 T1:32000000 TF:16000000 TXSAMP:4000000",
    );
    assert_eq!(r, Err(Error::ParsingError));
    let r = parse_tx_path_rates(
        "BBPLL:+1024000006 DAC:128000000 T2:64000000 T1:32000000 TF:16000000 TXSAMP:4000000",
    );
    assert_eq!(r, Err(Error::ParsingError));
}

#[test]
fn parsing_fails_on_oversized_value() {
    // One more than u64::MAX does not fit a 64-bit hertz count.
    let r = parse_tx_path_rates(
        "BBPLL:18446744073709551616 DAC:128000000 T2:64000000 T1:32000000 TF:16000000 TXSAMP:4000000",
    );
    assert_eq!(r, Err(Error::ParsingError));
}

#[test]
fn parsing_accepts_leading_zeros_and_max_value() {
    let pr = parse_tx_path_rates(
        "BBPLL:007 DAC:18446744073709551615 T2:0 T1:1 TF:2 TXSAMP:3",
    )
    .unwrap();
    assert_eq!(pr.baseband_pll_freq, Frequency::new_hertz(7));
    assert_eq!(pr.dac_sample_rate, Frequency::new_hertz(u64::MAX));
    assert_eq!(pr.hb3_filter_rate, Frequency::new_hertz(0));
    assert_eq!(pr.hb2_filter_rate, Frequency::new_hertz(1));
    assert_eq!(pr.hb1_filter_rate, Frequency::new_hertz(2));
    assert_eq!(pr.tx_sample_rate, Frequency::new_hertz(3));
}
