//! Text, decimals and the other small types.
use controller::decimal::Decimal;
use controller::intent_algebra::intent_text::push_span;
use controller::text::{
    chars_of, clone_texts, join, parse_i64, parse_u64, push_all_unique, same, starts_with,
    strip_suffix, text_of, to_ascii_lower,
};
use controller::text_order::{not_after, sort_texts, trim};
use controller::types::{BindingName, Duration, QueryLanguage, SketchType};

fn texts(v: &[&str]) -> Vec<String> {
    v.iter().map(|s| s.to_string()).collect()
}

fn dec(s: &str) -> Decimal {
    Decimal::parse(s).unwrap()
}

#[test]
fn decimals_write_what_they_read() {
    for s in ["0", "5", "0.99", "-1.5", "0.000000000000000001", "18446744073709551615", "12.034"] {
        assert_eq!(dec(s).text(), s);
    }
    assert_eq!(dec("1.500").text(), "1.5");
    assert_eq!(dec("007").text(), "7");
    assert_eq!(dec("0.1234567890123456789").text(), "0.123456789012345678");
}

#[test]
fn texts_that_write_no_decimal_are_refused() {
    for s in ["", ".", "1.", ".5", "-", "1e3", "1.2.3", "+1", "NaN", " 1"] {
        assert!(Decimal::parse(s).is_none(), "{s}");
    }
    assert_eq!(dec("inf"), dec("18446744073709551615.999999999999999999"));
    assert_eq!(dec("99999999999999999999"), dec("18446744073709551615"));
}

#[test]
fn decimals_are_scaled_and_cut_off() {
    assert_eq!(dec("1").times(2, 3), dec("0.666666666666666666"));
    assert_eq!(dec("-1").times(1, 2), dec("-0.5"));
    assert_eq!(dec("0.1").plus(dec("0.2")), dec("0.3"));
    assert_eq!(dec("0.125").to_percent(), 13);
    assert_eq!(dec("-0.125").to_percent(), -13);
    assert_eq!(dec("0.994").to_percent(), 99);
    assert_eq!(dec("2.5").to_whole(), 2);
    assert_eq!(dec("-2.5").to_whole(), 0);
    assert_eq!(dec("0.01").to_billionths(), 10_000_000);
    assert_eq!(dec("0.2").min_of(dec("0.1")), dec("0.1"));
    assert_eq!(Decimal::hundredths(75), dec("0.75"));
    assert_eq!(Decimal::from_u64(3), dec("3"));
    assert_eq!(Decimal::zero(), dec("0"));
}

#[test]
fn integers_are_read_as_the_standard_library_reads_them() {
    for s in ["", "0", "+7", "-7", "18446744073709551615", "18446744073709551616", "+", "1a"] {
        assert_eq!(parse_u64(s), s.parse::<u64>().ok(), "{s}");
        assert_eq!(parse_i64(s), s.parse::<i64>().ok(), "{s}");
    }
    assert_eq!(parse_i64("-9223372036854775808"), Some(i64::MIN));
    assert_eq!(parse_i64("-9223372036854775809"), None);
}

#[test]
fn texts_are_compared_cut_and_joined() {
    assert!(same("a", "a") && !same("a", "A"));
    assert_eq!(to_ascii_lower("KLL-Ä"), "kll-Ä");
    assert_eq!(strip_suffix("http_bucket", "_bucket").as_deref(), Some("http"));
    assert!(strip_suffix("http", "_bucket").is_none());
    assert!(starts_with("SELECT 1", "SELECT") && !starts_with("SEL", "SELECT"));
    assert_eq!(join(&texts(&["a", "b", "c"]), ", "), "a, b, c");
    assert_eq!(join(&texts(&[]), ", "), "");
    assert_eq!(text_of(&chars_of("äb")), "äb");
    assert_eq!(trim(" \t x y\u{a0}\n"), "x y");
    let mut v = texts(&["a"]);
    push_all_unique(&mut v, &texts(&["b", "a", "b"]));
    assert_eq!(v, texts(&["a", "b"]));
    assert_eq!(clone_texts(&v), v);
}

#[test]
fn sorted_texts_are_in_order() {
    let v = texts(&["b", "a", "ab", "", "B"]);
    let mut want = v.clone();
    want.sort();
    assert_eq!(sort_texts(&v), want);
    assert!(not_after("a", "ab") && not_after("a", "a") && !not_after("b", "ab"));
}

#[test]
fn names_of_languages_and_sketches() {
    assert_eq!(QueryLanguage::PromQL.name(), "PromQL");
    assert_eq!(SketchType::CountMinSketch.name(), "count_min_sketch");
    assert_eq!(Duration::from_secs(2).as_secs(), 2);
    assert!(Duration::from_secs(0).is_zero());
    assert_eq!(BindingName::new("x").as_str(), "x");
    assert_eq!(BindingName::new("x").into_string(), "x");
}

#[test]
fn spans_show_the_largest_unit_they_fill() {
    let cases = [
        (300, 0, "300s"),
        (1, 500_000_000, "1.5s"),
        (u64::MAX, 999_999_999, "18446744073709551615.999999999s"),
        (0, 250_000_000, "250ms"),
        (0, 1_500_000, "1.5ms"),
        (0, 2_500, "2.5µs"),
        (0, 7, "7ns"),
        (0, 0, "0ns"),
    ];
    for (secs, nanos, shown) in cases {
        let mut out = String::new();
        push_span(&mut out, Duration { secs, nanos });
        assert_eq!(out, shown);
        assert_eq!(out, format!("{:?}", std::time::Duration::new(secs, nanos)));
        let zero = Duration { secs, nanos }.is_zero();
        assert_eq!(zero, shown == "0ns");
    }
}
