use lush_rs::pitch::frequency_millihz;

#[test]
fn concert_pitch_is_exactly_440_hz() {
    assert_eq!(frequency_millihz(69), 440_000);
}

#[test]
fn middle_c_is_261_63_hz_within_a_hundredth() {
    let hz = frequency_millihz(60) as f64 / 1000.0;
    assert!((hz - 261.63).abs() <= 0.01, "middle C came out at {hz}");
}

#[test]
fn every_key_matches_the_equal_tempered_formula_closely() {
    for key in 0u8..128 {
        let hz = frequency_millihz(key) as f64 / 1000.0;
        let exact = 440.0 * 2f64.powf((key as f64 - 69.0) / 12.0);
        let relative = (hz - exact).abs() / exact;
        assert!(relative < 1e-4, "key {key}: {hz} vs {exact}");
    }
}

#[test]
fn each_octave_doubles_the_pitch() {
    for key in 0u8..116 {
        assert_eq!(frequency_millihz(key + 12), 2 * frequency_millihz(key));
    }
}

#[test]
fn pitch_rises_with_the_key_number() {
    for key in 0u8..127 {
        assert!(frequency_millihz(key) < frequency_millihz(key + 1));
    }
}
