use pluton::error::Error;
use pluton::gain::GainControlMode;

#[test]
fn render_then_parse_returns_the_mode() {
    for mode in [
        GainControlMode::SlowAttack,
        GainControlMode::FastAttack,
        GainControlMode::Manual,
    ] {
        assert_eq!(GainControlMode::from_str(mode.as_str()), Ok(mode));
    }
}

#[test]
fn parse_then_render_returns_the_string() {
    for s in ["slow_attack", "fast_attack", "manual"] {
        let mode = GainControlMode::from_str(s).unwrap();
        assert_eq!(mode.as_str(), s);
    }
}

#[test]
fn parse_maps_each_known_string() {
    assert_eq!(
        GainControlMode::from_str("slow_attack"),
        Ok(GainControlMode::SlowAttack)
    );
    assert_eq!(
        GainControlMode::from_str("fast_attack"),
        Ok(GainControlMode::FastAttack)
    );
    assert_eq!(GainControlMode::from_str("manual"), Ok(GainControlMode::Manual));
}

#[test]
fn parse_rejects_unknown_mode_and_reports_it() {
    assert_eq!(
        GainControlMode::from_str("turbo"),
        Err(Error::InvalidGainControlMode(String::from("turbo")))
    );
    assert_eq!(
        GainControlMode::from_str(""),
        Err(Error::InvalidGainControlMode(String::new()))
    );
    assert_eq!(
        GainControlMode::from_str("Manual"),
        Err(Error::InvalidGainControlMode(String::from("Manual")))
    );
}
