//! Exact amounts of money and their display text.

use vstd::prelude::*;

use crate::text::{decimal, group_thousands, grouped_decimal, string_from_chars};

verus! {

/// An exact, non-negative amount of money: `numer / denom` whole currency units.
#[derive(Clone, Copy, Debug, PartialEq, Eq, Structural)]
pub struct Money {
    pub numer: u128,
    pub denom: u128,
}

impl Money {
    pub open spec fn wf(self) -> bool {
        self.denom > 0
    }

    /// The whole units of the amount, rounded down.
    pub open spec fn whole(self) -> nat {
        (self.numer / self.denom) as nat
    }

    pub fn new(numer: u128, denom: u128) -> (r: Money)
        requires
            denom > 0,
        ensures
            r == (Money { numer, denom }),
    {
        Money { numer, denom }
    }

    /// The amount rounded down to whole units.
    pub fn floor(&self) -> (r: u128)
        requires
            self.wf(),
        ensures
            r == self.whole(),
    {
        self.numer / self.denom
    }
}

/// Display text of an amount: a space, its whole units with thousands
/// separators, then "원".
pub open spec fn tray_title_text(amount: Money) -> Seq<char> {
    seq![' '] + group_thousands(decimal(amount.whole())) + seq!['원']
}

/// Decimal text of `n` with ',' between groups of three digits ("1,234,567").
pub fn format_with_commas(n: u64) -> (r: String)
    ensures
        r@ == group_thousands(decimal(n as nat)),
{
    string_from_chars(&grouped_decimal(n as u128))
}

/// Display text of an amount (" 1,234,567원"); fractions are dropped, not rounded.
pub fn format_tray_title(amount: &Money) -> (r: String)
    requires
        amount.wf(),
    ensures
        r@ == tray_title_text(*amount),
{
    let mut chars: Vec<char> = vec![' '];
    let digits = grouped_decimal(amount.floor());
    let mut i: usize = 0;
    while i < digits.len()
        invariant
            i <= digits@.len(),
            chars@ == seq![' '] + digits@.take(i as int),
        decreases digits@.len() - i,
    {
        chars.push(digits[i]);
        i += 1;
        assert(chars@ =~= seq![' '] + digits@.take(i as int));
    }
    chars.push('원');
    assert(digits@.take(digits@.len() as int) =~= digits@);
    string_from_chars(&chars)
}

} // verus!
