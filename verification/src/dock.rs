//! The dock badge label: what the badge shows for a notification count.
//!
//! Applying a label to the dock tile is a platform call of the host; the
//! decision — the decimal text of a positive count, or nothing at all for
//! zero, which clears the badge — is made and verified here.

use vstd::prelude::*;

use crate::discovery::all_digits;
use crate::discovery::digits_value;

verus! {

/// The decimal digit run writing a nonnegative number, most significant
/// digit first, without leading zeros.
pub open spec fn decimal_digits(n: int) -> Seq<u8>
    recommends
        n >= 0,
    decreases n,
{
    if n < 10 {
        seq![(48 + n) as u8]
    } else {
        decimal_digits(n / 10).push((48 + n % 10) as u8)
    }
}

/// Law: the decimal digit run of `n` consists of digits, writes exactly `n`,
/// and never starts with a zero unless `n` is zero itself.
pub proof fn lemma_decimal_digits_value(n: int)
    requires
        n >= 0,
    ensures
        all_digits(decimal_digits(n)),
        digits_value(decimal_digits(n)) == n,
        decimal_digits(n).len() >= 1,
        n >= 1 ==> decimal_digits(n)[0] != 48,
    decreases n,
{
    if n < 10 {
        let s = seq![(48 + n) as u8];
        assert((48 + n) as u8 == 48 + n);
        assert(s.drop_last() =~= Seq::<u8>::empty());
        assert(digits_value(Seq::<u8>::empty()) == 0);
        assert(digits_value(s) == n);
    } else {
        lemma_decimal_digits_value(n / 10);
        let s = decimal_digits(n / 10);
        let d = (48 + n % 10) as u8;
        assert(s.push(d).drop_last() =~= s);
        assert(s.push(d).last() == d);
        assert(all_digits(s.push(d)));
        assert(digits_value(s.push(d)) == digits_value(s) * 10 + (d - 48));
        assert(s.push(d)[0] == s[0]);
    }
}

/// Appends the decimal digits of `n` to `out`.
fn push_decimal(n: u32, out: &mut Vec<u8>)
    ensures
        final(out)@ == old(out)@ + decimal_digits(n as int),
    decreases n,
{
    if n >= 10 {
        push_decimal(n / 10, out);
    }
    out.push(48 + (n % 10) as u8);
    proof {
        if n >= 10 {
            assert((old(out)@ + decimal_digits(n as int / 10)).push((48 + n as int % 10) as u8)
                =~= old(out)@ + decimal_digits(n as int));
        } else {
            assert(old(out)@.push((48 + n as int) as u8) =~= old(out)@ + decimal_digits(n as int));
        }
    }
}

/// The label the dock badge gets for a count: the count's decimal text when
/// it is positive, nothing — clearing the badge — when it is zero.
pub open spec fn spec_badge_label(count: u32) -> Option<Seq<u8>> {
    if count > 0 {
        Some(decimal_digits(count as int))
    } else {
        None
    }
}

/// Decides the dock badge label for a count. Pass 0 to clear the badge. The
/// host applies the returned text (or its absence) to the dock tile.
pub fn badge_label(count: u32) -> (r: Option<Vec<u8>>)
    ensures
        count == 0 ==> r is None,
        count > 0 ==> (r matches Some(v) && v@ == decimal_digits(count as int)),
{
    if count > 0 {
        let mut out: Vec<u8> = Vec::new();
        push_decimal(count, &mut out);
        proof {
            assert(Seq::<u8>::empty() + decimal_digits(count as int) =~= decimal_digits(
                count as int,
            ));
        }
        Some(out)
    } else {
        None
    }
}

} // verus!
