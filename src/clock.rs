//! Wall-clock times: "HH:MM" texts and local date-times.

use vstd::prelude::*;
use vstd::string::StrSliceExecFns;

use crate::calendar::Date;

verus! {

pub open spec fn is_digit(c: char) -> bool {
    '0' <= c && c <= '9'
}

pub open spec fn all_digits(s: Seq<char>) -> bool {
    forall|i: int| 0 <= i < s.len() ==> is_digit(#[trigger] s[i])
}

/// The number that a run of decimal digits writes.
pub open spec fn digits_value(s: Seq<char>) -> nat
    decreases s.len(),
{
    if s.len() == 0 {
        0
    } else {
        digits_value(s.drop_last()) * 10 + (s.last() as nat - '0' as nat) as nat
    }
}

/// A 32-bit unsigned number written in decimal: an optional '+', then at least
/// one ASCII digit, with a value that fits in 32 bits.
pub open spec fn parse_u32(t: Seq<char>) -> Option<u32> {
    digits_u32(without_plus(t))
}

/// `t` without its leading '+', if one stands before at least one more character.
pub open spec fn without_plus(t: Seq<char>) -> Seq<char> {
    if t.len() > 1 && t[0] == '+' {
        t.drop_first()
    } else {
        t
    }
}

/// A non-empty run of ASCII digits whose value fits in 32 bits.
pub open spec fn digits_u32(digits: Seq<char>) -> Option<u32> {
    if digits.len() > 0 && all_digits(digits) && digits_value(digits) <= u32::MAX {
        Some(digits_value(digits) as u32)
    } else {
        None
    }
}

pub open spec fn value_or_zero(v: Option<u32>) -> nat {
    match v {
        Some(n) => n as nat,
        None => 0,
    }
}

/// `s` has exactly one ':', at position `i`.
pub open spec fn single_colon_at(s: Seq<char>, i: int) -> bool {
    0 <= i < s.len() && s[i] == ':' && forall|j: int|
        0 <= j < s.len() && j != i ==> #[trigger] s[j] != ':'
}

/// Minutes since midnight written by an "HH:MM" text: hours times 60 plus minutes.
/// A text without exactly one ':' counts as 0, and so does a part that is not a
/// 32-bit unsigned number.
pub open spec fn minutes_of_text(s: Seq<char>) -> nat {
    if exists|i: int| single_colon_at(s, i) {
        let i = choose|i: int| single_colon_at(s, i);
        value_or_zero(parse_u32(s.take(i))) * 60 + value_or_zero(parse_u32(s.skip(i + 1)))
    } else {
        0
    }
}

proof fn lemma_digits_value_prefix(s: Seq<char>, k: int)
    requires
        0 <= k <= s.len(),
        all_digits(s),
    ensures
        digits_value(s.take(k)) <= digits_value(s),
    decreases s.len(),
{
    if k < s.len() {
        let t = s.drop_last();
        assert(t.take(k) =~= s.take(k));
        assert(all_digits(t)) by {
            assert forall|i: int| 0 <= i < t.len() implies is_digit(#[trigger] t[i]) by {
                assert(t[i] == s[i]);
            }
        }
        lemma_digits_value_prefix(t, k);
        assert(s.take(s.len() as int) =~= s);
    } else {
        assert(s.take(k) =~= s);
    }
}

/// Parses `s[from..to]` (by characters) as [`parse_u32`] describes.
fn parse_u32_between(s: &str, from: usize, to: usize) -> (r: Option<u32>)
    requires
        from <= to <= s@.len(),
    ensures
        r == parse_u32(s@.subrange(from as int, to as int)),
{
    let ghost t = s@.subrange(from as int, to as int);
    let mut start: usize = from;
    if to - from > 1 && s.get_char(from) == '+' {
        start = from + 1;
    }
    let ghost digits = s@.subrange(start as int, to as int);
    assert(digits =~= without_plus(t));
    if start == to {
        return None;
    }
    let mut acc: u64 = 0;
    let mut k: usize = start;
    while k < to
        invariant
            from <= start < to <= s@.len(),
            start <= k <= to,
            digits == s@.subrange(start as int, to as int),
            t == s@.subrange(from as int, to as int),
            digits == without_plus(t),
            all_digits(digits.take(k - start)),
            acc == digits_value(digits.take(k - start)),
            acc <= u32::MAX,
        decreases to - k,
    {
        let c = s.get_char(k);
        let ghost prev = digits.take(k - start);
        let ghost next = digits.take(k - start + 1);
        assert(next.drop_last() =~= prev);
        assert(next.last() == c);
        if c < '0' || c > '9' {
            assert(!all_digits(digits)) by {
                assert(digits[k - start] == c);
            }
            return None;
        }
        acc = acc * 10 + (c as u64 - '0' as u64);
        assert(all_digits(next)) by {
            assert forall|i: int| 0 <= i < next.len() implies is_digit(#[trigger] next[i]) by {
                if i < prev.len() {
                    assert(next[i] == prev[i]);
                }
            }
        }
        k += 1;
        if acc > u32::MAX as u64 {
            proof {
                if all_digits(digits) {
                    lemma_digits_value_prefix(digits, k - start);
                }
            }
            return None;
        }
    }
    assert(digits.take(to - start) =~= digits);
    Some(acc as u32)
}

/// Minutes since midnight of an "HH:MM" text (see [`minutes_of_text`]).
pub fn time_to_minutes(time: &str) -> (r: u64)
    ensures
        r == minutes_of_text(time@),
        r <= 61 * (u32::MAX as nat),
{
    let len = time.unicode_len();
    let mut colon: usize = 0;
    let mut colons: usize = 0;
    let mut i: usize = 0;
    while i < len && colons < 2
        invariant
            len == time@.len(),
            i <= len,
            colons <= 2,
            colons == 0 ==> forall|j: int| 0 <= j < i ==> #[trigger] time@[j] != ':',
            colons >= 1 ==> colon < i && time@[colon as int] == ':' && forall|j: int|
                0 <= j < colon ==> #[trigger] time@[j] != ':',
            colons == 1 ==> forall|j: int| colon < j < i ==> #[trigger] time@[j] != ':',
            colons == 2 ==> exists|j: int| colon < j < i && #[trigger] time@[j] == ':',
        decreases len - i,
    {
        if time.get_char(i) == ':' {
            if colons == 0 {
                colon = i;
            }
            colons += 1;
        }
        i += 1;
    }
    if colons != 1 {
        assert(!exists|k: int| single_colon_at(time@, k)) by {
            if exists|k: int| single_colon_at(time@, k) {
                let k = choose|k: int| single_colon_at(time@, k);
                if colons == 2 {
                    let j = choose|j: int| colon < j < i && #[trigger] time@[j] == ':';
                    assert(time@[colon as int] == ':');
                }
            }
        }
        return 0;
    }
    assert(single_colon_at(time@, colon as int));
    assert forall|k: int| single_colon_at(time@, k) implies k == colon by {
        assert(time@[colon as int] == ':');
    }
    let hours = parse_u32_between(time, 0, colon);
    let minutes = parse_u32_between(time, colon + 1, len);
    assert(time@.subrange(0, colon as int) =~= time@.take(colon as int));
    assert(time@.subrange(colon + 1, len as int) =~= time@.skip(colon + 1));
    let h: u64 = match hours {
        Some(h) => h as u64,
        None => 0,
    };
    let m: u64 = match minutes {
        Some(m) => m as u64,
        None => 0,
    };
    h * 60 + m
}

/// A local wall-clock timestamp, to the second.
#[derive(Clone, Copy, Debug, PartialEq, Eq, Structural)]
pub struct LocalDateTime {
    pub date: Date,
    pub hour: u32,
    pub minute: u32,
    pub second: u32,
}

impl LocalDateTime {
    pub open spec fn wf(self) -> bool {
        self.date.wf() && self.hour < 24 && self.minute < 60 && self.second < 60
    }

    /// The timestamp at the given time of `date`, if the time exists.
    pub fn from_hms(date: Date, hour: u32, minute: u32, second: u32) -> (r: Option<LocalDateTime>)
        ensures
            r is Some <==> hour < 24 && minute < 60 && second < 60,
            r is Some ==> r->0 == (LocalDateTime { date, hour, minute, second }),
    {
        if hour < 24 && minute < 60 && second < 60 {
            Some(LocalDateTime { date, hour, minute, second })
        } else {
            None
        }
    }
}

} // verus!
