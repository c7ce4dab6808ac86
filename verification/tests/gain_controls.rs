use monitoring_sender::db_text::{format_cdb, parse_db, DbTextError};
use monitoring_sender::params::GainControl;

#[test]
fn format_whole_decibels() {
    assert_eq!(format_cdb(0).as_str(), "0.00 dB");
    assert_eq!(format_cdb(1200).as_str(), "12.00 dB");
    assert_eq!(format_cdb(-2400).as_str(), "-24.00 dB");
    assert_eq!(format_cdb(-14400).as_str(), "-144.00 dB");
    assert_eq!(format_cdb(600).as_str(), "6.00 dB");
}

#[test]
fn format_fractional_decibels() {
    assert_eq!(format_cdb(-50).as_str(), "-0.50 dB");
    assert_eq!(format_cdb(-5).as_str(), "-0.05 dB");
    assert_eq!(format_cdb(7).as_str(), "0.07 dB");
    assert_eq!(format_cdb(1199).as_str(), "11.99 dB");
    assert_eq!(format_cdb(-601).as_str(), "-6.01 dB");
}

#[test]
fn parse_plain_numbers() {
    assert_eq!(parse_db("0"), Ok(0));
    assert_eq!(parse_db("6"), Ok(600));
    assert_eq!(parse_db("-24"), Ok(-2400));
    assert_eq!(parse_db("6.00"), Ok(600));
    assert_eq!(parse_db("-24.00"), Ok(-2400));
    assert_eq!(parse_db("2.5"), Ok(250));
    assert_eq!(parse_db("-0.05"), Ok(-5));
}

#[test]
fn parse_with_unit_suffix() {
    assert_eq!(parse_db("0.00 dB"), Ok(0));
    assert_eq!(parse_db("12.00 dB"), Ok(1200));
    assert_eq!(parse_db("-144.00 dB"), Ok(-14400));
    assert_eq!(parse_db("-6.00 dB"), Ok(-600));
}

#[test]
fn parse_ignores_fraction_digits_beyond_two() {
    assert_eq!(parse_db("2.505"), Ok(250));
    assert_eq!(parse_db("2.509999"), Ok(250));
    assert_eq!(parse_db("-1.239 dB"), Ok(-123));
}

#[test]
fn parse_clamps_to_range() {
    assert_eq!(parse_db("100.00 dB"), Ok(1200));
    assert_eq!(parse_db("-200"), Ok(-14400));
    assert_eq!(parse_db("99999999999999999999999 dB"), Ok(1200));
    assert_eq!(parse_db("-99999999999999999999999"), Ok(-14400));
    assert_eq!(parse_db("12.01"), Ok(1200));
    assert_eq!(parse_db("-144.01"), Ok(-14400));
}

#[test]
fn parse_rejects_bad_text() {
    assert_eq!(parse_db(""), Err(DbTextError::InvalidInput));
    assert_eq!(parse_db(" dB"), Err(DbTextError::InvalidInput));
    assert_eq!(parse_db("abc"), Err(DbTextError::InvalidInput));
    assert_eq!(parse_db("-"), Err(DbTextError::InvalidInput));
    assert_eq!(parse_db("--2"), Err(DbTextError::InvalidInput));
    assert_eq!(parse_db("1."), Err(DbTextError::InvalidInput));
    assert_eq!(parse_db(".5"), Err(DbTextError::InvalidInput));
    assert_eq!(parse_db("1..2"), Err(DbTextError::InvalidInput));
    assert_eq!(parse_db("1e3"), Err(DbTextError::InvalidInput));
    assert_eq!(parse_db("6,00"), Err(DbTextError::InvalidInput));
    assert_eq!(parse_db("6.00 db"), Err(DbTextError::InvalidInput));
    assert_eq!(parse_db("+6"), Err(DbTextError::InvalidInput));
}

#[test]
fn decibel_text_round_trips() {
    // Representative levels, the range ends included: formatting and parsing
    // back returns exactly the same centi-decibel value.
    for cdb in [-14400, -2400, -600, -123, -50, -5, 0, 1, 250, 600, 1199, 1200] {
        let text = format_cdb(cdb);
        assert_eq!(parse_db(text.as_str()), Ok(cdb), "round trip of {}", cdb);
    }
}

#[test]
fn control_defaults_to_unity() {
    let c = GainControl::new_unity();
    // 0 dB is unity gain: exactly one in nano units.
    assert_eq!(c.amplitude(), 1_000_000_000);
    assert_eq!(c.decibel_value(), 0);
    assert_eq!(c.display().as_str(), "0.00 dB");
}

#[test]
fn control_set_from_text_updates_amplitude() {
    let mut c = GainControl::new_unity();
    assert_eq!(c.set_from_text("6.00 dB"), Ok(()));
    assert_eq!(c.decibel_value(), 600);
    assert_eq!(c.display().as_str(), "6.00 dB");
    let amp = c.amplitude();
    // 6 dB is very nearly twice unity: about 1.9953 in nano units.
    assert!((1_995_000_000..=1_995_600_000).contains(&amp), "amp {}", amp);
    assert_eq!(c.set_from_text("-144.00 dB"), Ok(()));
    assert_eq!(c.amplitude(), 63);
    assert_eq!(c.set_from_text("-24"), Ok(()));
    let amp = c.amplitude();
    // -24 dB is about 0.0631 in nano units.
    assert!((63_000_000..=63_200_000).contains(&amp), "amp {}", amp);
}

#[test]
fn control_keeps_value_on_bad_text() {
    let mut c = GainControl::new_unity();
    assert_eq!(c.set_from_text("-6.00 dB"), Ok(()));
    let amp = c.amplitude();
    assert_eq!(c.set_from_text("loud"), Err(DbTextError::InvalidInput));
    assert_eq!(c.amplitude(), amp);
    assert_eq!(c.decibel_value(), -600);
    assert_eq!(c.display().as_str(), "-6.00 dB");
}

#[test]
fn control_normalized_endpoints_and_anchor() {
    let mut c = GainControl::new_unity();
    c.set_normalized(0);
    assert_eq!(c.amplitude(), 63);
    assert_eq!(c.display().as_str(), "-144.00 dB");
    c.set_normalized(1_000_000);
    assert_eq!(c.amplitude(), 3_981_071_303);
    assert_eq!(c.display().as_str(), "12.00 dB");
    // The knob midpoint sits exactly on the -6 dB anchor of the skew.
    c.set_normalized(500_000);
    assert_eq!(c.amplitude(), 501_187_269);
    assert_eq!(c.display().as_str(), "-6.00 dB");
}

#[test]
fn control_amplitude_is_monotone_in_position() {
    let mut c = GainControl::new_unity();
    let mut last: u64 = 0;
    let mut n: u32 = 0;
    while n <= 1_000_000 {
        c.set_normalized(n);
        let amp = c.amplitude();
        assert!(amp >= last, "amplitude fell at position {}", n);
        last = amp;
        n += 3_777;
    }
    c.set_normalized(1_000_000);
    assert!(c.amplitude() >= last);
}

#[test]
fn display_follows_stored_amplitude_between_knots() {
    // Between interpolation knots the shown level is the decibel bracket of
    // the stored amplitude itself: at position 5000 the amplitude is 2150
    // nano, which is -113.35 dB, and the display reads within one
    // centi-decibel of it.
    let mut c = GainControl::new_unity();
    c.set_normalized(5_000);
    assert_eq!(c.amplitude(), 2_150);
    assert_eq!(c.display().as_str(), "-113.36 dB");
    assert_eq!(c.decibel_value(), -11_336);
}
