use pluton::fir::{fir_64_2, render_fir_config, select_fir_config, FirConfig};

#[test]
fn firconfig_new_keeps_its_parts() {
    let c = FirConfig::new(4, vec![1, -2, 3]);
    assert_eq!(c.decimation_factor, 4);
    assert_eq!(c.fir_coefficients, vec![1, -2, 3]);
}

#[test]
fn band_boundaries_select_different_tables() {
    // The two sides of the 20 MHz boundary.
    let low = select_fir_config(20_000_000);
    assert_eq!(low.decimation_factor, 4);
    assert_eq!(low.fir_coefficients.len(), 128);
    let high = select_fir_config(20_000_001);
    assert_eq!(high.decimation_factor, 2);
    assert_eq!(high.fir_coefficients.len(), 128);
    assert_ne!(low.fir_coefficients, high.fir_coefficients);
}

#[test]
fn band_between_20_and_40_mhz_selects_128_tap_decimate_2() {
    for rate in [20_000_001u64, 25_000_000, 30_000_000, 39_999_999, 40_000_000] {
        let c = select_fir_config(rate);
        assert_eq!(c.decimation_factor, 2);
        assert_eq!(c.fir_coefficients.len(), 128);
    }
}

#[test]
fn upper_bands_select_96_and_64_tap_tables() {
    let c = select_fir_config(40_000_001);
    assert_eq!((c.decimation_factor, c.fir_coefficients.len()), (2, 96));
    let c = select_fir_config(53_333_333);
    assert_eq!((c.decimation_factor, c.fir_coefficients.len()), (2, 96));
    let c = select_fir_config(53_333_334);
    assert_eq!((c.decimation_factor, c.fir_coefficients.len()), (2, 64));
    let c = select_fir_config(61_440_000);
    assert_eq!((c.decimation_factor, c.fir_coefficients.len()), (2, 64));
}

#[test]
fn lowest_band_selects_128_tap_decimate_4() {
    let c = select_fir_config(521_000);
    assert_eq!((c.decimation_factor, c.fir_coefficients.len()), (4, 128));
}

#[test]
fn rendered_block_for_64_tap_table_has_expected_lines() {
    let config = fir_64_2();
    let block = render_fir_config(&config);
    let lines: Vec<&str> = block.split('\n').collect();
    // Two headers, 64 tap lines, one blank line, and the empty remainder
    // after the final newline.
    assert_eq!(lines.len(), 2 + 64 + 1 + 1);
    assert_eq!(lines[0], "RX 3 GAIN -6 DEC 2");
    assert_eq!(lines[1], "TX 3 GAIN 0 INT 2");
    for (i, tap) in config.fir_coefficients.iter().enumerate() {
        let expected = format!("{0}/{0}", tap);
        assert_eq!(lines[2 + i], expected);
    }
    assert_eq!(lines[66], "");
    assert_eq!(lines[67], "");
    assert!(block.ends_with("\n\n"));
}

#[test]
fn rendered_block_spells_out_the_decimation_factor() {
    let config = select_fir_config(1_000_000);
    let block = render_fir_config(&config);
    assert!(block.starts_with("RX 3 GAIN -6 DEC 4\nTX 3 GAIN 0 INT 4\n"));
    let first_tap_line = block.split('\n').nth(2).unwrap();
    assert_eq!(first_tap_line, "-15/-15");
}
