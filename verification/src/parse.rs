//! Decimal parsing for configuration values, matching how the standard
//! library reads an unsigned number: an optional leading plus, then one or
//! more digits, rejected on overflow.

use vstd::prelude::*;
use vstd::string::StrSliceExecFns;

verus! {

/// A decimal digit character.
pub open spec fn is_dec_digit(c: char) -> bool {
    '0' <= c && c <= '9'
}

/// The value of a decimal digit character.
pub open spec fn dec_digit_val(c: char) -> nat
    recommends
        is_dec_digit(c),
{
    (c as int - 48) as nat
}

/// The value of a sequence of decimal digit characters, most significant
/// first.
pub open spec fn digits_val(s: Seq<char>) -> nat
    decreases s.len(),
{
    if s.len() == 0 {
        0
    } else {
        digits_val(s.drop_last()) * 10 + dec_digit_val(s.last())
    }
}

/// Every character is a decimal digit.
pub open spec fn all_dec_digits(s: Seq<char>) -> bool {
    forall|i: int| 0 <= i < s.len() ==> is_dec_digit(#[trigger] s[i])
}

/// The digits of an unsigned decimal literal: a single leading plus is
/// allowed and dropped.
pub open spec fn unsigned_digits(s: Seq<char>) -> Seq<char> {
    if s.len() > 0 && s[0] == '+' {
        s.drop_first()
    } else {
        s
    }
}

/// What parsing `s` as a sixteen-bit unsigned number yields: its digits'
/// value, if there is at least one digit, nothing else, and no overflow.
pub open spec fn parse_u16_spec(s: Seq<char>) -> Option<u16> {
    let ds = unsigned_digits(s);
    if ds.len() > 0 && all_dec_digits(ds) && digits_val(ds) <= u16::MAX {
        Some(digits_val(ds) as u16)
    } else {
        None
    }
}

/// A longer run of digits is worth at least as much as its prefix.
proof fn lemma_digits_val_prefix_le(s: Seq<char>, n: int)
    requires
        0 <= n <= s.len(),
    ensures
        digits_val(s.take(n)) <= digits_val(s),
    decreases s.len() - n,
{
    if n < s.len() {
        assert(s.take(n + 1).drop_last() =~= s.take(n));
        assert(s.take(n + 1).last() == s[n]);
        assert(digits_val(s.take(n)) <= digits_val(s.take(n + 1)));
        lemma_digits_val_prefix_le(s, n + 1);
        assert(s.take(s.len() as int) =~= s);
    } else {
        assert(s.take(n) =~= s);
    }
}

/// Parses a sixteen-bit unsigned decimal number.
pub fn parse_u16(s: &str) -> (r: Option<u16>)
    ensures
        r == parse_u16_spec(s@),
{
    let n = s.unicode_len();
    if n == 0 {
        return None;
    }
    let start: usize = if s.get_char(0) == '+' {
        1
    } else {
        0
    };
    if n == start {
        return None;
    }
    let ghost ds = unsigned_digits(s@);
    proof {
        assert(ds =~= s@.subrange(start as int, n as int));
    }
    let mut acc: u32 = 0;
    let mut i = start;
    while i < n
        invariant
            start <= i <= n,
            n == s@.len(),
            start < n,
            start == 0 || start == 1,
            start == 1 ==> s@[0] == '+',
            ds =~= s@.subrange(start as int, n as int),
            ds == unsigned_digits(s@),
            all_dec_digits(s@.subrange(start as int, i as int)),
            acc == digits_val(s@.subrange(start as int, i as int)),
            acc <= 65535,
        decreases n - i,
    {
        let c = s.get_char(i);
        if !(c >= '0' && c <= '9') {
            proof {
                assert(ds[i - start] == s@[i as int]);
                assert(!all_dec_digits(ds));
            }
            return None;
        }
        let d: u32 = (c as u32) - 48;
        acc = acc * 10 + d;
        proof {
            assert(s@.subrange(start as int, i as int + 1).drop_last() =~= s@.subrange(
                start as int,
                i as int,
            ));
            assert(s@.subrange(start as int, i as int + 1).last() == s@[i as int]);
        }
        if acc > 65535 {
            proof {
                assert(s@.subrange(start as int, i as int + 1) =~= ds.take(i as int + 1 - start));
                lemma_digits_val_prefix_le(ds, i as int + 1 - start);
                assert(digits_val(ds) > u16::MAX);
            }
            return None;
        }
        i += 1;
    }
    proof {
        assert(s@.subrange(start as int, i as int) =~= ds);
    }
    Some(acc as u16)
}

} // verus!
