use typestrike::heading::{cosine, sine, QUARTER_SINES};

#[test]
fn sines_of_the_quarter_turns() {
    assert_eq!(sine(0), 0);
    assert_eq!(sine(90), 1000);
    assert_eq!(sine(180), 0);
    assert_eq!(sine(270), -1000);
}

#[test]
fn cosines_of_the_quarter_turns() {
    assert_eq!(cosine(0), 1000);
    assert_eq!(cosine(90), 0);
    assert_eq!(cosine(180), -1000);
    assert_eq!(cosine(270), 0);
}

#[test]
fn sines_of_common_angles() {
    assert_eq!(sine(30), 500);
    assert_eq!(sine(45), 707);
    assert_eq!(sine(60), 866);
    assert_eq!(sine(150), 500);
    assert_eq!(sine(210), -500);
    assert_eq!(sine(330), -500);
    assert_eq!(sine(359), -17);
    assert_eq!(cosine(60), 500);
    assert_eq!(cosine(120), -500);
    assert_eq!(cosine(300), 500);
    assert_eq!(cosine(359), 1000);
}

#[test]
fn full_turns_do_not_count() {
    assert_eq!(sine(360), 0);
    assert_eq!(sine(450), 1000);
    assert_eq!(cosine(360), 1000);
    assert_eq!(cosine(540), -1000);
    assert_eq!(sine(u32::MAX), sine(u32::MAX % 360));
    assert_eq!(cosine(u32::MAX), cosine(u32::MAX % 360));
}

#[test]
fn the_table_follows_the_sine() {
    for degrees in 0..=90usize {
        let exact = (degrees as f64).to_radians().sin() * 1000.0;
        assert_eq!(QUARTER_SINES[degrees], exact.round() as i64);
    }
}

#[test]
fn headings_are_close_to_unit_length() {
    for degrees in 0..360u32 {
        let s = sine(degrees);
        let c = cosine(degrees);
        let square = s * s + c * c;
        assert!((998_000..=1_002_000).contains(&square), "at {} degrees", degrees);
    }
}
