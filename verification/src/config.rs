//! The relay's settings, and how they are read from optional texts such as
//! environment variables: a setting that is absent, or that does not parse,
//! takes its default.

use vstd::prelude::*;

verus! {

/// Default bind address.
pub open spec fn default_host() -> Seq<char> {
    "0.0.0.0"@
}

/// Default port.
pub const DEFAULT_PORT: u16 = 8080;

/// Default cap on concurrent streams.
pub const DEFAULT_MAX_STREAMS: usize = 100;

/// Default cap on the viewers of one stream.
pub const DEFAULT_MAX_VIEWERS_PER_STREAM: usize = 10;

/// The relay's settings.
#[derive(Clone, Debug)]
pub struct Config {
    /// Bind address.
    pub host: String,
    /// Port to listen on.
    pub port: u16,
    /// Cap on concurrent streams.
    pub max_streams: usize,
    /// Cap on the viewers of one stream.
    pub max_viewers_per_stream: usize,
}

/// An ASCII decimal digit.
pub open spec fn is_digit(c: char) -> bool {
    '0' <= c <= '9'
}

/// The number a decimal digit stands for.
pub open spec fn digit_value(c: char) -> nat {
    if is_digit(c) {
        (c as nat - '0' as nat) as nat
    } else {
        0
    }
}

/// The number a sequence of decimal digits stands for.
pub open spec fn decimal_value(digits: Seq<char>) -> nat
    decreases digits.len(),
{
    if digits.len() == 0 {
        0
    } else {
        decimal_value(digits.drop_last()) * 10 + digit_value(digits.last())
    }
}

/// The text without a leading plus sign, if it has one.
pub open spec fn without_sign(text: Seq<char>) -> Seq<char> {
    if text.len() > 0 && text[0] == '+' {
        text.skip(1)
    } else {
        text
    }
}

/// The unsigned number that `text` denotes, if it denotes one that is at most
/// `max`: an optional plus sign followed by one or more decimal digits and
/// nothing else, no blanks either.
pub open spec fn parse_unsigned(text: Seq<char>, max: nat) -> Option<nat> {
    let digits = without_sign(text);
    if digits.len() > 0 && (forall|i: int| 0 <= i < digits.len() ==> is_digit(#[trigger] digits[i]))
        && decimal_value(digits) <= max {
        Some(decimal_value(digits))
    } else {
        None
    }
}

/// The value of a numeric setting: what its text denotes, or the default when
/// the text is absent or denotes no number within `max`.
pub open spec fn setting(text: Option<String>, max: nat, default: nat) -> nat {
    match text {
        Some(t) => match parse_unsigned(t@, max) {
            Some(n) => n,
            None => default,
        },
        None => default,
    }
}

/// A number never has a smaller value than one of its prefixes.
proof fn lemma_prefix_value(digits: Seq<char>, k: int)
    requires
        0 <= k <= digits.len(),
    ensures
        decimal_value(digits.take(k)) <= decimal_value(digits),
    decreases digits.len(),
{
    if k == digits.len() {
        assert(digits.take(k) =~= digits);
    } else {
        lemma_prefix_value(digits.drop_last(), k);
        assert(digits.drop_last().take(k) =~= digits.take(k));
    }
}

/// Parses an unsigned decimal number that is at most `max`.
pub fn parse_decimal(text: &str, max: usize) -> (number: Option<usize>)
    ensures
        match number {
            Some(n) => parse_unsigned(text@, max as nat) == Some(n as nat),
            None => parse_unsigned(text@, max as nat) is None,
        },
{
    broadcast use vstd::string::is_ascii_spec_bytes;

    let ghost digits = without_sign(text@);
    if !text.is_ascii() {
        proof {
            let i = choose|i: int|
                0 <= i < text@.len() && !('\0' <= (#[trigger] text@[i]) <= '\u{7f}');
            if text@.len() > 0 && text@[0] == '+' {
                assert(digits[i - 1] == text@[i]);
            } else {
                assert(digits[i] == text@[i]);
            }
        }
        return None;
    }
    let bytes = text.as_bytes();
    let len = bytes.len();
    assert(len == text@.len());
    assert(forall|i: int| 0 <= i < len ==> bytes@[i] == (#[trigger] text@[i]) as u8);
    let start: usize = if len > 0 && bytes[0] == 43u8 {
        1
    } else {
        0
    };
    assert(digits =~= text@.skip(start as int));
    if start == len {
        return None;
    }
    let mut value: usize = 0;
    let mut i: usize = start;
    while i < len
        invariant
            start <= i <= len,
            len == text@.len(),
            len == bytes@.len(),
            digits == without_sign(text@),
            digits == text@.skip(start as int),
            forall|j: int| 0 <= j < len ==> bytes@[j] == (#[trigger] text@[j]) as u8,
            forall|j: int| 0 <= j < len ==> '\0' <= (#[trigger] text@[j]) <= '\u{7f}',
            forall|j: int| 0 <= j < i - start ==> is_digit(#[trigger] digits[j]),
            value == decimal_value(digits.take(i - start)),
            value <= max,
        decreases len - i,
    {
        let b = bytes[i];
        let ghost c = text@[i as int];
        assert(digits[i - start] == c);
        assert(b == c as u8);
        if b < 48u8 || b > 57u8 {
            assert(!is_digit(digits[i - start]));
            return None;
        }
        assert(is_digit(c));
        let d: usize = (b - 48u8) as usize;
        assert(d == digit_value(c));
        proof {
            let longer = digits.take(i - start + 1);
            assert(longer.drop_last() =~= digits.take(i - start));
            assert(longer.last() == c);
            assert(decimal_value(longer) == value * 10 + d);
            lemma_prefix_value(digits, i - start + 1);
        }
        if d > max || value > (max - d) / 10 {
            assert(decimal_value(digits) > max);
            return None;
        }
        value = value * 10 + d;
        i += 1;
    }
    assert(digits.take(len - start) =~= digits);
    Some(value)
}

impl Config {
    /// The settings given by four optional texts. An absent host is
    /// `0.0.0.0`. A port, a stream cap or a viewer cap that is absent, or
    /// that is not an unsigned decimal number within its type's range, is
    /// 8080, 100 and 10 in turn.
    pub fn from_vars(
        host: Option<String>,
        port: Option<String>,
        max_streams: Option<String>,
        max_viewers_per_stream: Option<String>,
    ) -> (config: Config)
        ensures
            config.host@ == match host {
                Some(h) => h@,
                None => default_host(),
            },
            config.port == setting(port, u16::MAX as nat, DEFAULT_PORT as nat),
            config.max_streams == setting(
                max_streams,
                usize::MAX as nat,
                DEFAULT_MAX_STREAMS as nat,
            ),
            config.max_viewers_per_stream == setting(
                max_viewers_per_stream,
                usize::MAX as nat,
                DEFAULT_MAX_VIEWERS_PER_STREAM as nat,
            ),
    {
        let host = match host {
            Some(h) => h,
            None => "0.0.0.0".to_owned(),
        };
        let port = number_or(&port, u16::MAX as usize, DEFAULT_PORT as usize) as u16;
        let max_streams = number_or(&max_streams, usize::MAX, DEFAULT_MAX_STREAMS);
        let max_viewers_per_stream = number_or(
            &max_viewers_per_stream,
            usize::MAX,
            DEFAULT_MAX_VIEWERS_PER_STREAM,
        );
        Config { host, port, max_streams, max_viewers_per_stream }
    }
}

/// The value of a numeric setting, or its default.
fn number_or(text: &Option<String>, max: usize, default: usize) -> (value: usize)
    ensures
        value == setting(*text, max as nat, default as nat),
{
    match text {
        Some(t) => match parse_decimal(t.as_str(), max) {
            Some(n) => n,
            None => default,
        },
        None => default,
    }
}

} // verus!
