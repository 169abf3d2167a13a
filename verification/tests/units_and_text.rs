use kobovnc::text::{decimal_string, text_of_str, text_of_string};
use kobovnc::unit::{scale_by_dpi, BIG_BAR_HEIGHT, SMALL_BAR_HEIGHT, THICKNESS_MEDIUM};

#[test]
fn bar_heights_at_212_dpi() {
    assert_eq!(scale_by_dpi(SMALL_BAR_HEIGHT, 212), 86);
    assert_eq!(scale_by_dpi(BIG_BAR_HEIGHT, 212), 115);
    assert_eq!(scale_by_dpi(THICKNESS_MEDIUM, 212), 1);
}

#[test]
fn scaling_rounds_halves_up_and_is_at_least_one() {
    // 121 * 300 / 300 exactly
    assert_eq!(scale_by_dpi(121, 300), 121);
    // 2 * 75 / 300 = 0.5 rounds to 1
    assert_eq!(scale_by_dpi(2, 75), 1);
    // 0 stays at least 1
    assert_eq!(scale_by_dpi(0, 300), 1);
    assert_eq!(scale_by_dpi(5, 0), 1);
    // 3 * 250 / 300 = 2.5 rounds to 3
    assert_eq!(scale_by_dpi(3, 250), 3);
}

#[test]
fn decimal_strings() {
    assert_eq!(decimal_string(0), "0");
    assert_eq!(decimal_string(7), "7");
    assert_eq!(decimal_string(10), "10");
    assert_eq!(decimal_string(5900), "5900");
    assert_eq!(decimal_string(65535), "65535");
}

#[test]
fn optional_texts() {
    assert_eq!(text_of_str(&Some("host")), "host");
    assert_eq!(text_of_str(&None), "");
    assert_eq!(text_of_string(&Some("user".to_string())), "user");
    assert_eq!(text_of_string(&None), "");
}
