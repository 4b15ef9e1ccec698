//! Token counts written the way model configurations write them:
//! digits with an optional `k` (thousand) or `m` (million) suffix.

use vstd::prelude::*;
use crate::text::{
    digit_char, is_white_space, trim_end_text, trim_start_text,
    chars_of, decimal, decimal_text, push_char, trimmed_text, trim,
};

verus! {

/// Whether `c` is an ASCII decimal digit.
pub open spec fn is_digit(c: char) -> bool {
    '0' <= c <= '9'
}

/// The number that the decimal digits `ds` spell.
pub open spec fn digits_value(ds: Seq<char>) -> nat
    decreases ds.len(),
{
    if ds.len() == 0 {
        0
    } else {
        digits_value(ds.drop_last()) * 10 + ((ds.last() as u32) - 48) as nat
    }
}

/// The multiplier that a trailing suffix character stands for, if any.
pub open spec fn suffix_multiplier(c: char) -> Option<nat> {
    if c == 'k' || c == 'K' {
        Some(1000)
    } else if c == 'm' || c == 'M' {
        Some(1000000)
    } else {
        None
    }
}

/// The token count that `s` writes: surrounding whitespace is ignored, the
/// rest is one or more decimal digits with an optional `k`/`K` (thousands)
/// or `m`/`M` (millions) suffix, and the count must fit in a `u64`.
pub open spec fn token_count_of(s: Seq<char>) -> Option<u64> {
    let t = trimmed_text(s);
    let ds = token_digits(t);
    let mult = token_multiplier(t);
    if ds.len() > 0 && (forall|i: int| 0 <= i < ds.len() ==> is_digit(#[trigger] ds[i]))
        && digits_value(ds) * mult <= u64::MAX {
        Some((digits_value(ds) * mult) as u64)
    } else {
        None
    }
}

/// The digits of a trimmed token count: all but a recognised suffix.
pub open spec fn token_digits(t: Seq<char>) -> Seq<char> {
    if t.len() > 0 && suffix_multiplier(t.last()) is Some {
        t.drop_last()
    } else {
        t
    }
}

/// The multiplier of a trimmed token count's suffix (1 without one).
pub open spec fn token_multiplier(t: Seq<char>) -> nat {
    if t.len() > 0 && suffix_multiplier(t.last()) is Some {
        suffix_multiplier(t.last())->0
    } else {
        1
    }
}

proof fn lemma_digits_value_prefix_le(ds: Seq<char>, i: int)
    requires
        0 <= i <= ds.len(),
        forall|j: int| 0 <= j < ds.len() ==> is_digit(#[trigger] ds[j]),
    ensures
        digits_value(ds.take(i)) <= digits_value(ds),
    decreases ds.len() - i,
{
    if i < ds.len() {
        assert(ds.take(i + 1).drop_last() =~= ds.take(i));
        lemma_digits_value_prefix_le(ds, i + 1);
    } else {
        assert(ds.take(i) =~= ds);
    }
}

/// The token count that `s` writes, or `None` where `s` is not one.
pub fn parse_token_count(s: &str) -> (r: Option<u64>)
    ensures
        r == token_count_of(s@),
{
    let t = trim(s);
    let cs = chars_of(t.as_str());
    let n = cs.len();
    let mut end = n;
    let mut mult: u128 = 1;
    if n > 0 {
        let c = cs[n - 1];
        if c == 'k' || c == 'K' {
            end = n - 1;
            mult = 1000;
        } else if c == 'm' || c == 'M' {
            end = n - 1;
            mult = 1000000;
        }
    }
    let ghost ds = cs@.take(end as int);
    assert(ds =~= token_digits(cs@));
    assert(mult == token_multiplier(cs@));
    if end == 0 {
        return None;
    }
    let mut v: u128 = 0;
    let mut i: usize = 0;
    while i < end
        invariant
            cs@ == trimmed_text(s@),
            end <= cs@.len(),
            ds == cs@.take(end as int),
            ds == token_digits(cs@),
            mult == token_multiplier(cs@),
            i <= end,
            forall|j: int| 0 <= j < i ==> is_digit(#[trigger] ds[j]),
            v == digits_value(ds.take(i as int)),
            v <= u64::MAX,
        decreases end - i,
    {
        let c = cs[i];
        assert(ds[i as int] == c);
        if !('0' <= c && c <= '9') {
            return None;
        }
        assert(ds.take(i + 1).drop_last() =~= ds.take(i as int));
        let d: u128 = ((c as u32) - 48) as u128;
        v = v * 10 + d;
        if v > 18446744073709551615u128 {
            proof {
                if forall|j: int| 0 <= j < ds.len() ==> is_digit(#[trigger] ds[j]) {
                    lemma_digits_value_prefix_le(ds, i + 1);
                }
            }
            return None;
        }
        i = i + 1;
    }
    assert(ds.take(end as int) =~= ds);
    if v * mult > 18446744073709551615u128 {
        return None;
    }
    Some((v * mult) as u64)
}


/// How a token count is shown: whole millions as `<n>M`, other whole
/// thousands as `<n>K`, anything else as the plain number.
pub open spec fn token_count_text(n: u64) -> Seq<char> {
    if n >= 1000000 && n % 1000000 == 0 {
        decimal_text((n / 1000000) as nat).push('M')
    } else if n >= 1000 && n % 1000 == 0 {
        decimal_text((n / 1000) as nat).push('K')
    } else {
        decimal_text(n as nat)
    }
}

/// The display form of a token count.
pub fn format_token_count(n: u64) -> (r: String)
    ensures
        r@ == token_count_text(n),
{
    if n >= 1000000 && n % 1000000 == 0 {
        let mut s = decimal(n / 1000000);
        push_char(&mut s, 'M');
        s
    } else if n >= 1000 && n % 1000 == 0 {
        let mut s = decimal(n / 1000);
        push_char(&mut s, 'K');
        s
    } else {
        decimal(n)
    }
}


pub(crate) proof fn lemma_decimal_digits(n: nat)
    ensures
        decimal_text(n).len() > 0,
        forall|i: int| 0 <= i < decimal_text(n).len() ==> is_digit(#[trigger] decimal_text(n)[i]),
        digits_value(decimal_text(n)) == n,
    decreases n,
{
    let d = decimal_text(n);
    if n >= 10 {
        lemma_decimal_digits(n / 10);
        assert(d.drop_last() =~= decimal_text(n / 10));
        assert(d.last() == digit_char(n % 10));
        assert((digit_char(n % 10) as u32) == 48 + n % 10);
        assert(n == (n / 10) * 10 + n % 10);
        assert(digits_value(d.drop_last()) == n / 10);
        assert(digits_value(d) == digits_value(d.drop_last()) * 10 + ((d.last() as u32) - 48) as nat);
        assert forall|i: int| 0 <= i < d.len() implies is_digit(#[trigger] d[i]) by {
            if i < d.len() - 1 {
                assert(d[i] == decimal_text(n / 10)[i]);
            }
        }
    } else {
        assert(d.drop_last() =~= Seq::<char>::empty());
        assert((digit_char(n) as u32) == 48 + n);
        assert(digits_value(d) == digits_value(d.drop_last()) * 10 + ((d.last() as u32) - 48) as nat);
    }
}

/// The decimal rendering of a token count reads back as that count: the
/// custom context option that a configured context window adds stands for
/// exactly that window.
pub proof fn law_decimal_reads_back(n: u64)
    ensures
        token_count_of(decimal_text(n as nat)) == Some(n),
{
    let d = decimal_text(n as nat);
    lemma_decimal_digits(n as nat);
    assert(!is_white_space(d[0]));
    assert(trim_start_text(d) == d);
    assert(!is_white_space(d.last()));
    assert(trim_end_text(d) == d);
    assert(suffix_multiplier(d.last()) is None);
    assert(token_digits(d) == d);
}

} // verus!
