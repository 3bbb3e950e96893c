use unit_converter::text::{canonical_decimal, strip_end_char, trim_end_matches};

#[test]
fn trailing_zeros_and_the_point_go() {
    assert_eq!(canonical_decimal("50.0000000000"), "50");
    assert_eq!(canonical_decimal("0.0005000000"), "0.0005");
    assert_eq!(canonical_decimal("0.0500000000"), "0.05");
    assert_eq!(canonical_decimal("100.0000000000"), "100");
    assert_eq!(canonical_decimal("0.0000000000"), "0");
    assert_eq!(canonical_decimal("-0.0000000000"), "-0");
    assert_eq!(canonical_decimal("0.1500000000"), "0.15");
}

#[test]
fn text_without_trailing_zero_stays() {
    assert_eq!(canonical_decimal("16.6666666667"), "16.6666666667");
    assert_eq!(canonical_decimal("inf"), "inf");
    assert_eq!(canonical_decimal("-inf"), "-inf");
    assert_eq!(canonical_decimal("NaN"), "NaN");
    assert_eq!(canonical_decimal(""), "");
    assert_eq!(canonical_decimal("-"), "-");
}

#[test]
fn only_one_point_goes() {
    assert_eq!(canonical_decimal("5."), "5");
    assert_eq!(canonical_decimal("5.."), "5.");
    assert_eq!(canonical_decimal("."), "");
    assert_eq!(canonical_decimal("5.0.0"), "5.0");
}

#[test]
fn zeros_go_with_or_without_a_point() {
    assert_eq!(canonical_decimal("100"), "1");
    assert_eq!(canonical_decimal("000"), "");
    assert_eq!(canonical_decimal("0"), "");
}

#[test]
fn fifty_centimetres_in_kilometres() {
    let converted: f64 = 50.0 * 0.01 / 1000.0;
    assert_eq!(canonical_decimal(&format!("{:.10}", converted)), "0.0005");
}

#[test]
fn fifty_metres_in_kilometres() {
    let converted: f64 = 50.0 * 1.0 / 1000.0;
    assert_eq!(canonical_decimal(&format!("{:.10}", converted)), "0.05");
}

#[test]
fn a_third_keeps_its_ten_digits() {
    let converted: f64 = 50.0 / 3.0;
    assert_eq!(canonical_decimal(&format!("{:.10}", converted)), "16.6666666667");
}

#[test]
fn trim_end_matches_drops_the_whole_run() {
    assert_eq!(trim_end_matches("1.2300", '0'), "1.23");
    assert_eq!(trim_end_matches("0000", '0'), "");
    assert_eq!(trim_end_matches("", '0'), "");
    assert_eq!(trim_end_matches("0100", '0'), "01");
    assert_eq!(trim_end_matches("abc", '0'), "abc");
    assert_eq!(trim_end_matches("a..", '.'), "a");
    assert_eq!(trim_end_matches("é00", '0'), "é");
    assert_eq!(trim_end_matches("0éé", 'é'), "0");
    assert_eq!(trim_end_matches("12", '1'), "12");
}

#[test]
fn trim_end_matches_agrees_with_std() {
    for text in ["", "0", "00", "1.0", "10.010", "0.0", "x0y00", "日本00", "000日"] {
        for c in ['0', '.', 'x', '日'] {
            assert_eq!(trim_end_matches(text, c), text.trim_end_matches(c), "{:?} {:?}", text, c);
        }
    }
}

#[test]
fn strip_end_char_drops_one() {
    assert_eq!(strip_end_char("5.", '.'), "5");
    assert_eq!(strip_end_char("5..", '.'), "5.");
    assert_eq!(strip_end_char("5", '.'), "5");
    assert_eq!(strip_end_char("", '.'), "");
    assert_eq!(strip_end_char(".5", '.'), ".5");
    assert_eq!(strip_end_char("éé", 'é'), "é");
}
