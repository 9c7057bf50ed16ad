//! Building strings from characters, and decimal numerals.

use vstd::prelude::*;
use vstd::string::StrSliceExecFns;

verus! {

/// Relies on `String`'s `FromIterator<char>`: the string holds the given
/// characters, in order.
#[verifier::external_body]
pub(crate) fn string_from_chars(chars: &Vec<char>) -> (r: String)
    ensures
        r@ == chars@,
{
    chars.iter().collect()
}

/// Whether two texts hold the same characters.
pub fn same_text(a: &str, b: &str) -> (r: bool)
    ensures
        r == (a@ == b@),
{
    let n = a.unicode_len();
    if n != b.unicode_len() {
        return false;
    }
    let mut i: usize = 0;
    while i < n
        invariant
            n == a@.len() == b@.len(),
            i <= n,
            forall|j: int| 0 <= j < i ==> a@[j] == b@[j],
        decreases n - i,
    {
        if a.get_char(i) != b.get_char(i) {
            return false;
        }
        i += 1;
    }
    assert(a@ =~= b@);
    true
}

/// The ASCII digit for `d`, 0 to 9.
pub open spec fn digit_char(d: int) -> char {
    if d == 0 {
        '0'
    } else if d == 1 {
        '1'
    } else if d == 2 {
        '2'
    } else if d == 3 {
        '3'
    } else if d == 4 {
        '4'
    } else if d == 5 {
        '5'
    } else if d == 6 {
        '6'
    } else if d == 7 {
        '7'
    } else if d == 8 {
        '8'
    } else {
        '9'
    }
}

/// The decimal numeral of `n`, without leading zeros ("0" for zero).
pub open spec fn decimal(n: nat) -> Seq<char>
    decreases n,
{
    if n < 10 {
        seq![digit_char(n as int)]
    } else {
        decimal(n / 10).push(digit_char((n % 10) as int))
    }
}

/// `s` with a ',' before each group of three characters counted from the right.
pub open spec fn group_thousands(s: Seq<char>) -> Seq<char>
    decreases s.len(),
{
    if s.len() <= 3 {
        s
    } else {
        group_thousands(s.take(s.len() - 3)) + seq![','] + s.skip(s.len() - 3)
    }
}

fn digit_to_char(d: u8) -> (r: char)
    requires
        d < 10,
    ensures
        r == digit_char(d as int),
{
    match d {
        0 => '0',
        1 => '1',
        2 => '2',
        3 => '3',
        4 => '4',
        5 => '5',
        6 => '6',
        7 => '7',
        8 => '8',
        _ => '9',
    }
}

/// The decimal digits of `n`.
pub fn decimal_digits(n: u128) -> (r: Vec<char>)
    ensures
        r@ == decimal(n as nat),
    decreases n,
{
    if n < 10 {
        vec![digit_to_char(n as u8)]
    } else {
        let mut v = decimal_digits(n / 10);
        v.push(digit_to_char((n % 10) as u8));
        v
    }
}

/// [`group_thousands`] of the first `end` characters of `digits`.
fn group_prefix(digits: &Vec<char>, end: usize) -> (r: Vec<char>)
    requires
        end <= digits@.len(),
    ensures
        r@ == group_thousands(digits@.take(end as int)),
    decreases end,
{
    if end <= 3 {
        let mut r: Vec<char> = Vec::new();
        let mut i: usize = 0;
        while i < end
            invariant
                i <= end <= digits@.len(),
                r@ == digits@.take(i as int),
            decreases end - i,
        {
            r.push(digits[i]);
            i += 1;
            assert(r@ =~= digits@.take(i as int));
        }
        r
    } else {
        let mut r = group_prefix(digits, end - 3);
        r.push(',');
        r.push(digits[end - 3]);
        r.push(digits[end - 2]);
        r.push(digits[end - 1]);
        let ghost s = digits@.take(end as int);
        assert(s.take(s.len() - 3) =~= digits@.take(end - 3));
        assert(r@ =~= group_thousands(s.take(s.len() - 3)) + seq![','] + s.skip(s.len() - 3));
        r
    }
}

/// [`group_thousands`] of the decimal digits of `n`.
pub fn grouped_decimal(n: u128) -> (r: Vec<char>)
    ensures
        r@ == group_thousands(decimal(n as nat)),
{
    let digits = decimal_digits(n);
    let r = group_prefix(&digits, digits.len());
    assert(digits@.take(digits@.len() as int) =~= digits@);
    r
}

} // verus!
