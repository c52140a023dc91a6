use stream_relay::config::parse_decimal;
use stream_relay::config::Config;
use stream_relay::config::DEFAULT_MAX_STREAMS;
use stream_relay::config::DEFAULT_MAX_VIEWERS_PER_STREAM;
use stream_relay::config::DEFAULT_PORT;

fn text(s: &str) -> Option<String> {
    Some(s.to_string())
}

#[test]
fn absent_settings_take_their_defaults() {
    let config = Config::from_vars(None, None, None, None);
    assert_eq!(config.host, "0.0.0.0");
    assert_eq!(config.port, 8080);
    assert_eq!(config.max_streams, 100);
    assert_eq!(config.max_viewers_per_stream, 10);
    assert_eq!(DEFAULT_PORT, 8080);
    assert_eq!(DEFAULT_MAX_STREAMS, 100);
    assert_eq!(DEFAULT_MAX_VIEWERS_PER_STREAM, 10);
}

#[test]
fn given_settings_are_taken() {
    let config = Config::from_vars(text("127.0.0.1"), text("9000"), text("3"), text("250"));
    assert_eq!(config.host, "127.0.0.1");
    assert_eq!(config.port, 9000);
    assert_eq!(config.max_streams, 3);
    assert_eq!(config.max_viewers_per_stream, 250);
}

#[test]
fn host_is_taken_as_it_is() {
    let config = Config::from_vars(text(""), None, None, None);
    assert_eq!(config.host, "");
    let config = Config::from_vars(text("not a host"), None, None, None);
    assert_eq!(config.host, "not a host");
}

#[test]
fn settings_that_do_not_parse_take_their_defaults() {
    let config = Config::from_vars(None, text("http"), text("-1"), text("ten"));
    assert_eq!(config.port, 8080);
    assert_eq!(config.max_streams, 100);
    assert_eq!(config.max_viewers_per_stream, 10);
    let config = Config::from_vars(None, text(""), text(" 5"), text("5 "));
    assert_eq!(config.port, 8080);
    assert_eq!(config.max_streams, 100);
    assert_eq!(config.max_viewers_per_stream, 10);
}

#[test]
fn port_out_of_range_takes_the_default() {
    assert_eq!(Config::from_vars(None, text("65535"), None, None).port, 65535);
    assert_eq!(Config::from_vars(None, text("65536"), None, None).port, 8080);
    assert_eq!(Config::from_vars(None, text("0"), None, None).port, 0);
    assert_eq!(Config::from_vars(None, text("99999999999999999999999"), None, None).port, 8080);
}

#[test]
fn zero_caps_are_accepted() {
    let config = Config::from_vars(None, None, text("0"), text("0"));
    assert_eq!(config.max_streams, 0);
    assert_eq!(config.max_viewers_per_stream, 0);
}

#[test]
fn parse_decimal_reads_plain_numbers() {
    assert_eq!(parse_decimal("0", 100), Some(0));
    assert_eq!(parse_decimal("7", 100), Some(7));
    assert_eq!(parse_decimal("42", 100), Some(42));
    assert_eq!(parse_decimal("100", 100), Some(100));
    assert_eq!(parse_decimal("8080", 65535), Some(8080));
}

#[test]
fn parse_decimal_accepts_a_plus_sign_and_leading_zeros() {
    assert_eq!(parse_decimal("+8080", 65535), Some(8080));
    assert_eq!(parse_decimal("0008080", 65535), Some(8080));
    assert_eq!(parse_decimal("+000", 65535), Some(0));
    assert_eq!(parse_decimal("000000000000000000000000000000000001", 5), Some(1));
}

#[test]
fn parse_decimal_rejects_what_is_no_number() {
    assert_eq!(parse_decimal("", 100), None);
    assert_eq!(parse_decimal("+", 100), None);
    assert_eq!(parse_decimal("-", 100), None);
    assert_eq!(parse_decimal("-5", 100), None);
    assert_eq!(parse_decimal("++5", 100), None);
    assert_eq!(parse_decimal("5+", 100), None);
    assert_eq!(parse_decimal(" 5", 100), None);
    assert_eq!(parse_decimal("5 ", 100), None);
    assert_eq!(parse_decimal("5a", 100), None);
    assert_eq!(parse_decimal("0x10", 100), None);
    assert_eq!(parse_decimal("1.0", 100), None);
    assert_eq!(parse_decimal("1_000", 10000), None);
    assert_eq!(parse_decimal("٣", 100), None);
    assert_eq!(parse_decimal("5é", 100), None);
    assert_eq!(parse_decimal("+é", 100), None);
}

#[test]
fn parse_decimal_rejects_numbers_above_the_bound() {
    assert_eq!(parse_decimal("101", 100), None);
    assert_eq!(parse_decimal("1000", 100), None);
    assert_eq!(parse_decimal("6", 5), None);
    assert_eq!(parse_decimal("10", 5), None);
    assert_eq!(parse_decimal("1", 0), None);
    assert_eq!(parse_decimal("0", 0), Some(0));
    assert_eq!(parse_decimal("65536", 65535), None);
}

#[test]
fn parse_decimal_reaches_the_largest_number() {
    let largest = usize::MAX.to_string();
    assert_eq!(parse_decimal(&largest, usize::MAX), Some(usize::MAX));
    let mut beyond = largest.clone();
    beyond.push('0');
    assert_eq!(parse_decimal(&beyond, usize::MAX), None);
    let next = format!("{}", (usize::MAX as u128) + 1);
    assert_eq!(parse_decimal(&next, usize::MAX), None);
}

#[test]
fn parse_decimal_agrees_with_the_standard_parser() {
    let samples = [
        "", "0", "1", "9", "10", "+1", "+0", "-0", "-1", "+", "-", "++1", "+-1", "01", "007",
        "65535", "65536", "70000", "4294967295", "4294967296", "18446744073709551615",
        "18446744073709551616", "99999999999999999999999999", " 1", "1 ", "1\n", "\t1", "1e3",
        "1.5", "0x1f", "abc", "١٢٣", "12é", "é12", "+é", "1+1", "000000000000000000000000065535",
        "000000000000000000000000065536",
    ];
    for sample in samples {
        assert_eq!(
            parse_decimal(sample, usize::MAX),
            sample.parse::<usize>().ok(),
            "as usize: {:?}",
            sample
        );
        assert_eq!(
            parse_decimal(sample, u16::MAX as usize),
            sample.parse::<u16>().ok().map(usize::from),
            "as u16: {:?}",
            sample
        );
    }
}
