use portcullis::ratio::{closest, gap, parse_ratio, Ratio};

fn r(millionths: u64) -> Ratio {
    Ratio { millionths }
}

#[test]
fn ratios_are_read_in_millionths() {
    assert_eq!(parse_ratio("1.78"), Some(r(1_780_000)));
    assert_eq!(parse_ratio("0.71"), Some(r(710_000)));
    assert_eq!(parse_ratio("3"), Some(r(3_000_000)));
    assert_eq!(parse_ratio("0"), Some(r(0)));
    assert_eq!(parse_ratio("0.000001"), Some(r(1)));
    assert_eq!(parse_ratio("12.5"), Some(r(12_500_000)));
    assert_eq!(parse_ratio("007.050"), Some(r(7_050_000)));
    assert_eq!(parse_ratio("999999999.999999"), Some(r(999_999_999_999_999)));
    assert_eq!(parse_ratio("1.234567"), Some(r(1_234_567)));
}

#[test]
fn a_point_may_stand_first_or_last() {
    assert_eq!(parse_ratio(".5"), Some(r(500_000)));
    assert_eq!(parse_ratio("1."), Some(r(1_000_000)));
    assert_eq!(parse_ratio("0."), Some(r(0)));
    assert_eq!(parse_ratio(".0"), Some(r(0)));
    assert_eq!(parse_ratio(".000001"), Some(r(1)));
}

#[test]
fn digits_behind_the_millionth_are_cut() {
    assert_eq!(parse_ratio("1.2345678"), Some(r(1_234_567)));
    assert_eq!(parse_ratio("1.2345679999"), Some(r(1_234_567)));
    assert_eq!(parse_ratio("0.0000009"), Some(r(0)));
    assert_eq!(parse_ratio("1.7777777777777777777777777777777777777"), Some(r(1_777_777)));
    assert_eq!(parse_ratio("0.3333333333333333"), Some(r(333_333)));
    // What is cut still has to be digits.
    assert_eq!(parse_ratio("1.2345678x"), None);
    assert_eq!(parse_ratio("1.23456789.1"), None);
}

#[test]
fn a_whole_part_beyond_the_largest_is_read_as_the_largest() {
    assert_eq!(parse_ratio("999999999"), Some(r(999_999_999_000_000)));
    assert_eq!(parse_ratio("1000000000"), Some(r(999_999_999_000_000)));
    assert_eq!(parse_ratio("1234567890.5"), Some(r(999_999_999_500_000)));
    assert_eq!(
        parse_ratio("99999999999999999999999999999999999999999999"),
        Some(r(999_999_999_000_000))
    );
    assert_eq!(parse_ratio("0000000000000000000001.5"), Some(r(1_500_000)));
}

#[test]
fn other_texts_spell_no_ratio() {
    for text in [
        "", ".", "..", "1.2.3", "1..2", ".1.", "-1", "+1", "1e3", "1e0", "1E-2", "1,5", " 1",
        "1 ", "abc", "1.7x", "x1.7", "0x10", "١", "1.٢", "٣.5", "inf", "NaN", "1.5\u{0}", "é",
    ] {
        assert_eq!(parse_ratio(text), None, "{:?}", text);
    }
}

#[test]
fn gap_is_the_absolute_difference() {
    assert_eq!(gap(r(750_000), r(710_000)), 40_000);
    assert_eq!(gap(r(710_000), r(750_000)), 40_000);
    assert_eq!(gap(r(5), r(5)), 0);
    assert_eq!(gap(r(0), r(u64::MAX)), u64::MAX);
}

#[test]
fn closest_takes_the_nearest_and_the_first_of_equals() {
    assert_eq!(closest(&Vec::new(), r(750_000)), None);
    assert_eq!(closest(&vec![r(710_000), r(1_780_000)], r(750_000)), Some(0));
    assert_eq!(closest(&vec![r(1_780_000), r(710_000)], r(750_000)), Some(1));
    assert_eq!(closest(&vec![r(1_000_000), r(2_000_000)], r(1_500_000)), Some(0));
    assert_eq!(closest(&vec![r(2_000_000), r(1_000_000)], r(1_500_000)), Some(0));
    assert_eq!(
        closest(&vec![r(3_000_000), r(1_400_000), r(1_600_000), r(1_500_001)], r(1_500_000)),
        Some(3)
    );
    assert_eq!(closest(&vec![r(9)], r(0)), Some(0));
}

#[test]
fn ratio_of_a_fraction() {
    assert_eq!(Ratio::from_fraction(768, 1024), Some(r(750_000)));
    assert_eq!(Ratio::from_fraction(1, 3), Some(r(333_333)));
    assert_eq!(Ratio::from_fraction(0, 7), Some(r(0)));
    assert_eq!(Ratio::from_fraction(7, 0), None);
    assert_eq!(Ratio::from_fraction(u32::MAX, 1), Some(r(u32::MAX as u64 * 1_000_000)));
}
