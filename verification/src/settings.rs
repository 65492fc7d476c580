//! Adapter settings given as text (environment values) and heartbeat
//! freshness.
use crate::text::{trim_str, trimmed};
use vstd::prelude::*;
use vstd::string::{StrSliceExecFns, StringExecFns};

verus! {

/// Numeric value of a string of decimal digits.
pub open spec fn digits_value(s: Seq<char>) -> int
    decreases s.len(),
{
    if s.len() == 0 {
        0
    } else {
        digits_value(s.drop_last()) * 10 + (s.last() as int - '0' as int)
    }
}

pub open spec fn all_digits(s: Seq<char>) -> bool {
    forall|i: int| 0 <= i < s.len() ==> '0' <= #[trigger] s[i] && s[i] <= '9'
}

/// A string of decimal digits has a non-negative value.
pub proof fn lemma_digits_nonneg(s: Seq<char>)
    requires
        all_digits(s),
    ensures
        digits_value(s) >= 0,
    decreases s.len(),
{
    if s.len() > 0 {
        let t = s.drop_last();
        assert(all_digits(t)) by {
            assert forall|i: int| 0 <= i < t.len() implies '0' <= #[trigger] t[i] && t[i] <= '9' by {
                assert(t[i] == s[i]);
            }
        }
        lemma_digits_nonneg(t);
        assert('0' <= s[s.len() - 1]);
    }
}

/// A parsed unsigned setting is never negative.
pub proof fn lemma_unsigned_parse_nonneg(s: Seq<char>, max: int)
    ensures
        unsigned_parse(s, max) matches Some(v) ==> 0 <= v <= max,
{
    let t = if s.len() > 0 && s[0] == '+' {
        s.drop_first()
    } else {
        s
    };
    if t.len() > 0 && all_digits(t) {
        lemma_digits_nonneg(t);
    }
}

/// What `str::parse` yields for an unsigned integer type whose largest value
/// is `max`: an optional `+` followed by at least one decimal digit, the
/// value not above `max`.
pub open spec fn unsigned_parse(s: Seq<char>, max: int) -> Option<int> {
    let t = if s.len() > 0 && s[0] == '+' {
        s.drop_first()
    } else {
        s
    };
    if t.len() > 0 && all_digits(t) && digits_value(t) <= max {
        Some(digits_value(t))
    } else {
        None
    }
}

/// `str::parse::<u16>`.
#[verifier::external_body]
fn parse_u16(s: &str) -> (r: Option<u16>)
    ensures
        r == (match unsigned_parse(s@, u16::MAX as int) {
            Some(v) => Some(v as u16),
            None => None::<u16>,
        }),
{
    s.parse::<u16>().ok()
}

/// `str::parse::<u8>`.
#[verifier::external_body]
fn parse_u8(s: &str) -> (r: Option<u8>)
    ensures
        r == (match unsigned_parse(s@, u8::MAX as int) {
            Some(v) => Some(v as u8),
            None => None::<u8>,
        }),
{
    s.parse::<u8>().ok()
}

/// `str::parse::<u64>`.
#[verifier::external_body]
fn parse_u64(s: &str) -> (r: Option<u64>)
    ensures
        r == (match unsigned_parse(s@, u64::MAX as int) {
            Some(v) => Some(v as u64),
            None => None::<u64>,
        }),
{
    s.parse::<u64>().ok()
}

/// The value a setting text selects among `lo..=hi`, or the fallback.
pub open spec fn setting_in_range(value: Option<Seq<char>>, max: int, lo: int, hi: int, fallback: int) -> int {
    match value {
        Some(s) => match unsigned_parse(s, max) {
            Some(v) => if lo <= v && v <= hi {
                v
            } else {
                fallback
            },
            None => fallback,
        },
        None => fallback,
    }
}

pub open spec fn text_of(value: Option<&str>) -> Option<Seq<char>> {
    match value {
        Some(s) => Some(s@),
        None => None,
    }
}

/// A port or other positive 16-bit setting: the parsed value when it is
/// non-zero, the fallback otherwise.
pub fn positive_u16_setting(value: Option<&str>, fallback: u16) -> (r: u16)
    ensures
        r as int == setting_in_range(text_of(value), u16::MAX as int, 1, u16::MAX as int, fallback as int),
{
    proof {
        if let Some(t) = value {
            lemma_unsigned_parse_nonneg(t@, u16::MAX as int);
        }
    }
    match value {
        Some(s) => match parse_u16(s) {
            Some(v) => if v > 0 {
                v
            } else {
                fallback
            },
            None => fallback,
        },
        None => fallback,
    }
}

/// A 16-bit setting: the parsed value, or the fallback when absent or invalid.
pub fn u16_setting(value: Option<&str>, fallback: u16) -> (r: u16)
    ensures
        r as int == setting_in_range(text_of(value), u16::MAX as int, 0, u16::MAX as int, fallback as int),
{
    proof {
        if let Some(t) = value {
            lemma_unsigned_parse_nonneg(t@, u16::MAX as int);
        }
    }
    match value {
        Some(s) => match parse_u16(s) {
            Some(v) => v,
            None => fallback,
        },
        None => fallback,
    }
}

/// A positive 64-bit setting (durations in milliseconds).
pub fn positive_u64_setting(value: Option<&str>, fallback: u64) -> (r: u64)
    ensures
        r as int == setting_in_range(text_of(value), u64::MAX as int, 1, u64::MAX as int, fallback as int),
{
    proof {
        if let Some(t) = value {
            lemma_unsigned_parse_nonneg(t@, u64::MAX as int);
        }
    }
    match value {
        Some(s) => match parse_u64(s) {
            Some(v) => if v > 0 {
                v
            } else {
                fallback
            },
            None => fallback,
        },
        None => fallback,
    }
}

/// A 64-bit setting: the parsed value, or the fallback when absent or invalid.
pub fn u64_setting(value: Option<&str>, fallback: u64) -> (r: u64)
    ensures
        r as int == setting_in_range(text_of(value), u64::MAX as int, 0, u64::MAX as int, fallback as int),
{
    proof {
        if let Some(t) = value {
            lemma_unsigned_parse_nonneg(t@, u64::MAX as int);
        }
    }
    match value {
        Some(s) => match parse_u64(s) {
            Some(v) => v,
            None => fallback,
        },
        None => fallback,
    }
}

/// A custom-UDP mode setting: the parsed value when it is 0–3.
pub fn mode_setting(value: Option<&str>, fallback: u8) -> (r: u8)
    ensures
        r as int == setting_in_range(text_of(value), u8::MAX as int, 0, 3, fallback as int),
{
    proof {
        if let Some(t) = value {
            lemma_unsigned_parse_nonneg(t@, u8::MAX as int);
        }
    }
    match value {
        Some(s) => match parse_u8(s) {
            Some(v) => if v <= 3 {
                v
            } else {
                fallback
            },
            None => fallback,
        },
        None => fallback,
    }
}

/// Whether a heartbeat recorded at `last_ns` (0 = never) is still fresh at
/// `now_ns`: no more than `timeout_ms` milliseconds old.
pub open spec fn heartbeat_fresh(last_ns: u64, now_ns: u64, timeout_ms: u64) -> bool {
    last_ns != 0 && (if now_ns >= last_ns { now_ns - last_ns } else { 0 }) <= timeout_ms as int * 1_000_000
}

/// Decides whether the last packet is recent enough to call the game running.
pub fn is_recent_packet(last_ns: u64, now_ns: u64, timeout_ms: u64) -> (r: bool)
    ensures
        r == heartbeat_fresh(last_ns, now_ns, timeout_ms),
{
    if last_ns == 0 {
        return false;
    }
    let elapsed_ns: u128 = if now_ns >= last_ns {
        (now_ns - last_ns) as u128
    } else {
        0
    };
    let timeout_ns: u128 = timeout_ms as u128 * 1_000_000u128;
    elapsed_ns <= timeout_ns
}

/// Whether a text names a file path (non-blank).
/// A path setting: kept when it holds more than whitespace.
pub open spec fn path_of(value: Option<&str>) -> Option<Seq<char>> {
    match value {
        Some(v) => if trimmed(v@).len() > 0 { Some(v@) } else { None },
        None => None,
    }
}

/// A path setting, kept when it holds more than whitespace.
pub fn path_setting(value: Option<&str>) -> (r: Option<String>)
    ensures
        crate::codemasters_udp::opt_view(r) == path_of(value),
{
    match value {
        Some(v) => if trim_str(v).unicode_len() > 0 {
            Some(String::from_str(v))
        } else {
            None
        },
        None => None,
    }
}

} // verus!
