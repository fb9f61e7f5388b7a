//! Retention / partition durations and timestamp precision, with their
//! permissive textual forms.
//!
//! A duration is written `<int>` (defaulting to days) or `<int><d|h|m>`
//! with a case-insensitive unit letter; a precision is `MS`, `US` or `NS`,
//! case-insensitive on input.  Malformed text yields no value: the caller
//! decides whether to fall back to a default.

use vstd::prelude::*;
use vstd::string::*;
use crate::text::{spec_dec_chars, u64_to_dec_string};

verus! {

/// Unit of a [`Duration`].
#[derive(Debug, Clone, Copy, PartialEq, Eq, Hash, Structural)]
pub enum DurationUnit {
    Minutes,
    Hour,
    Day,
}

/// A positive time span: a magnitude plus a unit.
#[derive(Debug, Clone, Copy, PartialEq, Eq, Hash, Structural)]
pub struct Duration {
    pub time_num: u64,
    pub unit: DurationUnit,
}

/// Timestamp resolution a database stores its time column in.
#[derive(Debug, Clone, Copy, PartialEq, Eq, Hash, Structural)]
pub enum Precision {
    MS,
    US,
    NS,
}

/// Whether `b` is an ASCII decimal digit.
pub open spec fn is_dec_digit(b: u8) -> bool {
    48 <= b && b <= 57
}

/// The numeric value of a decimal digit byte; 0 for non-digits.
pub open spec fn digit_of(b: u8) -> nat {
    if is_dec_digit(b) {
        (b - 48) as nat
    } else {
        0
    }
}

/// Whether every byte of `s` is an ASCII decimal digit.
pub open spec fn all_dec_digits(s: Seq<u8>) -> bool {
    forall|i: int| 0 <= i < s.len() ==> is_dec_digit(#[trigger] s[i])
}

/// The value of `s` read as a big-endian decimal numeral.
pub open spec fn dec_value(s: Seq<u8>) -> nat
    decreases s.len(),
{
    if s.len() == 0 {
        0
    } else {
        dec_value(s.drop_last()) * 10 + digit_of(s.last())
    }
}

/// What parsing `s` as an unsigned 64-bit decimal integer yields:
/// a value exactly when `s` is a non-empty all-digit numeral that fits.
pub open spec fn spec_parse_u64(s: Seq<u8>) -> Option<u64> {
    if s.len() > 0 && all_dec_digits(s) && dec_value(s) <= u64::MAX {
        Some(dec_value(s) as u64)
    } else {
        None
    }
}

/// The unit a trailing letter denotes, case-insensitively:
/// `d` for days, `h` for hours, `m` for minutes.
pub open spec fn spec_unit_of(b: u8) -> Option<DurationUnit> {
    if b == 100 || b == 68 {
        Some(DurationUnit::Day)
    } else if b == 104 || b == 72 {
        Some(DurationUnit::Hour)
    } else if b == 109 || b == 77 {
        Some(DurationUnit::Minutes)
    } else {
        None
    }
}

/// What parsing `s` as a duration yields: a bare numeral means days;
/// otherwise the last byte must be a unit letter and the rest a numeral.
pub open spec fn spec_duration_of(s: Seq<u8>) -> Option<Duration> {
    if s.len() == 0 {
        None
    } else {
        match spec_parse_u64(s) {
            Some(v) => Some(Duration { time_num: v, unit: DurationUnit::Day }),
            None => match spec_unit_of(s.last()) {
                Some(u) => match spec_parse_u64(s.drop_last()) {
                    Some(v) => Some(Duration { time_num: v, unit: u }),
                    None => None,
                },
                None => None,
            },
        }
    }
}

/// The ASCII lower-case image of `b`.
pub open spec fn spec_lower(b: u8) -> u8 {
    if 65 <= b && b <= 90 {
        (b + 32) as u8
    } else {
        b
    }
}

/// What parsing `s` as a precision yields: `ms`, `us` or `ns`,
/// case-insensitively; anything else is no value.
pub open spec fn spec_precision_of(s: Seq<u8>) -> Option<Precision> {
    if s.len() == 2 && spec_lower(s[1]) == 115 {
        if spec_lower(s[0]) == 109 {
            Some(Precision::MS)
        } else if spec_lower(s[0]) == 117 {
            Some(Precision::US)
        } else if spec_lower(s[0]) == 110 {
            Some(Precision::NS)
        } else {
            None
        }
    } else {
        None
    }
}

/// Once a numeral prefix has outgrown `u64`, every longer prefix has too.
proof fn lemma_dec_value_prefix_exceeds(s: Seq<u8>, i: int, j: int)
    requires
        0 <= i <= j <= s.len(),
        dec_value(s.take(i)) > u64::MAX,
    ensures
        dec_value(s.take(j)) > u64::MAX,
    decreases j - i,
{
    if i < j {
        assert(s.take(i + 1).drop_last() =~= s.take(i));
        assert(dec_value(s.take(i + 1)) >= dec_value(s.take(i)));
        lemma_dec_value_prefix_exceeds(s, i + 1, j);
    }
}

/// Parse a non-empty all-digit byte string as a `u64`, rejecting overflow.
pub fn parse_u64_dec(b: &[u8]) -> (r: Option<u64>)
    ensures
        r == spec_parse_u64(b@),
{
    if b.len() == 0 {
        return None;
    }
    let mut acc: u64 = 0;
    let mut i: usize = 0;
    while i < b.len()
        invariant
            0 <= i <= b@.len(),
            all_dec_digits(b@.take(i as int)),
            acc == dec_value(b@.take(i as int)),
        decreases b@.len() - i,
    {
        let c = b[i];
        if c < 48 || c > 57 {
            assert(!is_dec_digit(b@[i as int]));
            return None;
        }
        let d: u64 = (c - 48) as u64;
        proof {
            assert(b@.take(i as int + 1).drop_last() =~= b@.take(i as int));
        }
        match acc.checked_mul(10) {
            Some(m) => match m.checked_add(d) {
                Some(n) => {
                    acc = n;
                    i = i + 1;
                },
                None => {
                    proof {
                        assert(b@.take(i as int + 1).last() == b@[i as int]);
                        assert(dec_value(b@.take(i as int + 1)) == acc * 10 + d);
                        lemma_dec_value_prefix_exceeds(b@, i as int + 1, b@.len() as int);
                        assert(b@.take(b@.len() as int) =~= b@);
                    }
                    return None;
                },
            },
            None => {
                proof {
                    assert(b@.take(i as int + 1).last() == b@[i as int]);
                    assert(dec_value(b@.take(i as int + 1)) == acc * 10 + d);
                    lemma_dec_value_prefix_exceeds(b@, i as int + 1, b@.len() as int);
                    assert(b@.take(b@.len() as int) =~= b@);
                }
                return None;
            },
        }
    }
    proof {
        assert(b@.take(b@.len() as int) =~= b@);
    }
    Some(acc)
}

/// The unit a trailing letter denotes, case-insensitively.
pub fn unit_of(b: u8) -> (r: Option<DurationUnit>)
    ensures
        r == spec_unit_of(b),
{
    if b == 100 || b == 68 {
        Some(DurationUnit::Day)
    } else if b == 104 || b == 72 {
        Some(DurationUnit::Hour)
    } else if b == 109 || b == 77 {
        Some(DurationUnit::Minutes)
    } else {
        None
    }
}

impl Duration {
    /// Parse `<int>` (days) or `<int><d|h|m>`, case-insensitive unit.
    /// Empty or malformed text yields no value.
    pub fn new(text: &str) -> (r: Option<Duration>)
        ensures
            r == spec_duration_of(text.spec_bytes()),
    {
        let b = text.as_bytes();
        if b.len() == 0 {
            return None;
        }
        match parse_u64_dec(b) {
            Some(v) => Some(Duration { time_num: v, unit: DurationUnit::Day }),
            None => {
                let last = b[b.len() - 1];
                match unit_of(last) {
                    Some(u) => {
                        let head = &b[0..b.len() - 1];
                        proof {
                            assert(head@ =~= b@.drop_last());
                        }
                        match parse_u64_dec(head) {
                            Some(v) => Some(Duration { time_num: v, unit: u }),
                            None => None,
                        }
                    },
                    None => None,
                }
            },
        }
    }
}

/// The text a duration prints as: the magnitude and the unit's name.
pub open spec fn spec_duration_text(d: Duration) -> Seq<char> {
    spec_dec_chars(d.time_num as nat) + match d.unit {
        DurationUnit::Minutes => " Minutes"@,
        DurationUnit::Hour => " Hours"@,
        DurationUnit::Day => " Days"@,
    }
}

impl Duration {
    /// The duration's text: its magnitude and the unit's name.
    pub fn to_text(&self) -> (r: String)
        ensures
            r@ == spec_duration_text(*self),
    {
        let mut s = u64_to_dec_string(self.time_num);
        match self.unit {
            DurationUnit::Minutes => s.append(" Minutes"),
            DurationUnit::Hour => s.append(" Hours"),
            DurationUnit::Day => s.append(" Days"),
        }
        s
    }
}

/// The canonical upper-case text of a precision.
pub open spec fn spec_precision_text(p: Precision) -> Seq<char> {
    match p {
        Precision::MS => "MS"@,
        Precision::US => "US"@,
        Precision::NS => "NS"@,
    }
}

impl Precision {
    /// Parse `MS`, `US` or `NS`, case-insensitively.
    pub fn new(text: &str) -> (r: Option<Precision>)
        ensures
            r == spec_precision_of(text.spec_bytes()),
    {
        let b = text.as_bytes();
        if b.len() != 2 {
            return None;
        }
        let c0 = if 65 <= b[0] && b[0] <= 90 {
            b[0] + 32
        } else {
            b[0]
        };
        let c1 = if 65 <= b[1] && b[1] <= 90 {
            b[1] + 32
        } else {
            b[1]
        };
        if c1 != 115 {
            return None;
        }
        if c0 == 109 {
            Some(Precision::MS)
        } else if c0 == 117 {
            Some(Precision::US)
        } else if c0 == 110 {
            Some(Precision::NS)
        } else {
            None
        }
    }

    /// Canonical upper-case text of the precision.
    pub fn as_str(&self) -> (r: &'static str)
        ensures
            r@ == spec_precision_text(*self),
    {
        match self {
            Precision::MS => "MS",
            Precision::US => "US",
            Precision::NS => "NS",
        }
    }
}

} // verus!
