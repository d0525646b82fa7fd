//! The sensor reader's pure half: turning the text of the capacity and
//! status files into a battery reading. An unreadable or malformed
//! capacity degrades the reading to `Unknown` instead of stopping the
//! poll loop.
use vstd::prelude::*;
use vstd::string::StrSliceExecFns;
use crate::text::{is_space, is_space_char, is_digit_char, digit_val, str_eq};

verus! {

/// The charging status a sensor reports.
#[derive(PartialEq, Eq, Structural, Clone, Copy, Debug)]
pub enum BattStatus {
    Charging,
    Full,
    Discharging,
    Unknown,
}

/// One fresh battery reading; never cached across polls.
#[derive(PartialEq, Eq, Structural, Clone, Copy, Debug)]
pub struct BattReading {
    pub percentage: u64,
    pub status: BattStatus,
}

/// `s` with its leading whitespace dropped.
pub open spec fn spec_trim_start(s: Seq<char>) -> Seq<char>
    decreases s.len(),
{
    if s.len() > 0 && is_space_char(s[0]) {
        spec_trim_start(s.drop_first())
    } else {
        s
    }
}

/// `s` with its trailing whitespace dropped.
pub open spec fn spec_trim_end(s: Seq<char>) -> Seq<char>
    decreases s.len(),
{
    if s.len() > 0 && is_space_char(s.last()) {
        spec_trim_end(s.drop_last())
    } else {
        s
    }
}

/// `s` with whitespace dropped on both ends.
pub open spec fn spec_trim(s: Seq<char>) -> Seq<char> {
    spec_trim_end(spec_trim_start(s))
}

fn trim_start(s: &str) -> (t: &str)
    ensures
        t@ == spec_trim_start(s@),
    decreases s@.len(),
{
    let n = s.unicode_len();
    if n > 0 && is_space(s.get_char(0)) {
        let rest = s.substring_char(1, n);
        proof {
            assert(rest@ =~= s@.drop_first());
        }
        trim_start(rest)
    } else {
        s
    }
}

fn trim_end(s: &str) -> (t: &str)
    ensures
        t@ == spec_trim_end(s@),
    decreases s@.len(),
{
    let n = s.unicode_len();
    if n > 0 && is_space(s.get_char(n - 1)) {
        let rest = s.substring_char(0, n - 1);
        proof {
            assert(rest@ =~= s@.drop_last());
        }
        trim_end(rest)
    } else {
        s
    }
}

/// `s` without leading and trailing whitespace.
pub fn trim(s: &str) -> (t: &str)
    ensures
        t@ == spec_trim(s@),
{
    trim_end(trim_start(s))
}

/// The status literals the sensor file may hold; anything else is
/// `Unknown`.
pub open spec fn spec_parse_status(s: Seq<char>) -> BattStatus {
    let t = spec_trim(s);
    if t == "Charging"@ {
        BattStatus::Charging
    } else if t == "Full"@ {
        BattStatus::Full
    } else if t == "Discharging"@ {
        BattStatus::Discharging
    } else {
        BattStatus::Unknown
    }
}

/// Classify the text of the status file.
pub fn parse_status(s: &str) -> (r: BattStatus)
    ensures
        r == spec_parse_status(s@),
{
    let t = trim(s);
    if str_eq(t, "Charging") {
        BattStatus::Charging
    } else if str_eq(t, "Full") {
        BattStatus::Full
    } else if str_eq(t, "Discharging") {
        BattStatus::Discharging
    } else {
        BattStatus::Unknown
    }
}

/// Every character of `s` is a decimal digit.
pub open spec fn all_digits(s: Seq<char>) -> bool {
    forall|i: int| 0 <= i < s.len() ==> is_digit_char(#[trigger] s[i])
}

/// The number that a digit sequence denotes in base ten.
pub open spec fn dec_value(s: Seq<char>) -> nat
    decreases s.len(),
{
    if s.len() == 0 {
        0
    } else {
        dec_value(s.drop_last()) * 10 + digit_val(s.last())
    }
}

/// What parsing the capacity file yields: the trimmed text read as a
/// decimal integer, or nothing when it is empty, non-numeric, or too
/// large for the machine word.
pub open spec fn spec_parse_capacity(s: Seq<char>) -> Option<u64> {
    let t = spec_trim(s);
    if t.len() > 0 && all_digits(t) && dec_value(t) <= u64::MAX {
        Some(dec_value(t) as u64)
    } else {
        None
    }
}

proof fn lemma_dec_value_take_le(s: Seq<char>, i: int)
    requires
        0 <= i <= s.len(),
    ensures
        dec_value(s.take(i)) <= dec_value(s),
    decreases s.len() - i,
{
    if i == s.len() {
        assert(s.take(i) =~= s);
    } else {
        assert(s.take(i + 1).drop_last() =~= s.take(i));
        assert(dec_value(s.take(i + 1)) == dec_value(s.take(i)) * 10 + digit_val(s.take(i + 1).last()));
        lemma_dec_value_take_le(s, i + 1);
    }
}

/// Parse the text of the capacity file.
pub fn parse_capacity(s: &str) -> (r: Option<u64>)
    ensures
        r == spec_parse_capacity(s@),
{
    let t = trim(s);
    let n = t.unicode_len();
    if n == 0 {
        return None;
    }
    let mut acc: u64 = 0;
    let mut i: usize = 0;
    while i < n
        invariant
            t@ == spec_trim(s@),
            n == t@.len(),
            0 < n <= usize::MAX,
            i <= n,
            all_digits(t@.take(i as int)),
            acc == dec_value(t@.take(i as int)),
        decreases n - i,
    {
        let c = t.get_char(i);
        let u = c as u32;
        if u < 48 || u > 57 {
            proof {
                assert(!is_digit_char(t@[i as int]));
            }
            return None;
        }
        let d: u64 = (u - 48) as u64;
        proof {
            assert(t@.take(i + 1).drop_last() =~= t@.take(i as int));
            assert(t@.take(i + 1).last() == t@[i as int]);
            assert(digit_val(t@[i as int]) == d);
        }
        let next = match acc.checked_mul(10) {
            Some(x) => x.checked_add(d),
            None => None,
        };
        match next {
            Some(v) => {
                acc = v;
            },
            None => {
                proof {
                    assert(dec_value(t@.take(i + 1)) > u64::MAX);
                    lemma_dec_value_take_le(t@, i + 1);
                }
                return None;
            },
        }
        i = i + 1;
    }
    proof {
        assert(t@.take(n as int) =~= t@);
    }
    Some(acc)
}

/// The reading the poll loops act on: a parsed percentage with a
/// classified status, degraded to `Unknown` when the capacity text is
/// unusable.
pub open spec fn spec_reading(cap: Seq<char>, status: Seq<char>) -> BattReading {
    match spec_parse_capacity(cap) {
        Some(p) => BattReading { percentage: p, status: spec_parse_status(status) },
        None => BattReading { percentage: 0, status: BattStatus::Unknown },
    }
}

/// Build one reading from the raw sensor texts.
pub fn reading_from_texts(capacity_text: &str, status_text: &str) -> (r: BattReading)
    ensures
        r == spec_reading(capacity_text@, status_text@),
{
    match parse_capacity(capacity_text) {
        Some(p) => BattReading { percentage: p, status: parse_status(status_text) },
        None => BattReading { percentage: 0, status: BattStatus::Unknown },
    }
}

} // verus!
