use cert_keeper::threshold::RenewalThreshold;

fn threshold(text: &str) -> RenewalThreshold {
    RenewalThreshold::from_decimal(text).expect("a fraction")
}

#[test]
fn half_of_an_hour_lease_is_thirty_minutes() {
    assert_eq!(threshold("0.5").renew_after(3600), 1800);
}

#[test]
fn default_threshold_of_a_day() {
    assert_eq!(threshold("0.66").renew_after(86400), 57024);
}

#[test]
fn product_is_rounded_down() {
    assert_eq!(threshold("0.66").renew_after(100), 66);
    assert_eq!(threshold("0.66").renew_after(101), 66);
    assert_eq!(threshold("0.66").renew_after(3), 1);
    assert_eq!(threshold("0.999").renew_after(1000), 999);
    assert_eq!(threshold("0.999").renew_after(999), 998);
    assert_eq!(threshold("0.3333").renew_after(3), 0);
}

#[test]
fn product_is_exact_where_binary_fractions_are_not() {
    assert_eq!(threshold("0.58").renew_after(100), 58);
    assert_eq!(threshold("0.07").renew_after(100), 7);
    assert_eq!(threshold("0.1").renew_after(30), 3);
}

#[test]
fn zero_threshold_renews_at_once() {
    assert_eq!(threshold("0").renew_after(3600), 0);
    assert_eq!(threshold("0.0").renew_after(3600), 0);
    assert_eq!(threshold("-0").renew_after(3600), 0);
    assert_eq!(threshold("-0.000").renew_after(3600), 0);
    assert_eq!(threshold("00.25").renew_after(8), 2);
    assert_eq!(threshold("0.").renew_after(8), 0);
}

#[test]
fn longest_lease_does_not_overflow() {
    assert_eq!(threshold("0.5").renew_after(u64::MAX), u64::MAX / 2);
    assert_eq!(
        threshold("0.99999999999999999999999999").renew_after(u64::MAX),
        u64::MAX - 1
    );
    assert_eq!(threshold("0.75").renew_after(u64::MAX), 13835058055282163711);
}

#[test]
fn many_digits_are_kept() {
    let t = threshold("0.000000000000000000000000000001");
    assert_eq!(t.renew_after(u64::MAX), 0);
    let t = threshold("0.12345678901234567890");
    assert_eq!(t.renew_after(100_000_000_000_000_000), 12_345_678_901_234_567);
}

#[test]
fn delay_never_exceeds_the_lease() {
    for text in ["0", "0.1", "0.5", "0.66", "0.9", "0.999999"] {
        let t = threshold(text);
        for lease in [0u64, 1, 2, 9, 10, 59, 3600, 86400, u64::MAX] {
            let delay = t.renew_after(lease);
            assert!(delay <= lease);
            if lease > 0 {
                assert!(delay < lease);
            }
        }
    }
}

#[test]
fn one_and_more_are_refused() {
    for text in ["1", "1.0", "1.5", "2", "10", "01", "0.5e1", "100.0"] {
        assert!(RenewalThreshold::from_decimal(text).is_none(), "{}", text);
    }
}

#[test]
fn negative_numbers_are_refused() {
    for text in ["-0.1", "-1", "-0.0001", "-5.5"] {
        assert!(RenewalThreshold::from_decimal(text).is_none(), "{}", text);
    }
}

#[test]
fn what_is_no_decimal_number_is_refused() {
    for text in ["", "-", ".", ".5", "abc", "0.5x", "0,5", " 0.5", "0.5 ", "NaN", "inf", "-inf", "0..5", "+0.5", "0.-5", "--0"] {
        assert!(RenewalThreshold::from_decimal(text).is_none(), "{}", text);
    }
}

#[test]
fn a_copy_gives_the_same_delays() {
    let t = threshold("0.66");
    let copy = t.clone();
    assert_eq!(copy.renew_after(3600), t.renew_after(3600));
    assert_eq!(copy.renew_after(3600), 2376);
}

#[test]
fn agrees_with_floating_point_within_a_second() {
    for (text, value) in [("0.5", 0.5f64), ("0.66", 0.66), ("0.9", 0.9), ("0.25", 0.25)] {
        let t = threshold(text);
        for lease in [60u64, 3600, 86400, 2_592_000] {
            let float = (lease as f64 * value) as u64;
            let exact = t.renew_after(lease);
            assert!(exact.abs_diff(float) <= 1);
        }
    }
}
