//! Decimal rendering of chat identifiers.
//!
//! A chat's stable lookup key is the decimal text of its server-assigned id,
//! so the rendering is verified against a spec-level definition of decimal
//! digits.

use vstd::prelude::*;
use crate::helpers::collect_chars;

verus! {

/// The character for one decimal digit value.
pub open spec fn dec_digit(d: nat) -> char {
    if d == 0 {
        '0'
    } else if d == 1 {
        '1'
    } else if d == 2 {
        '2'
    } else if d == 3 {
        '3'
    } else if d == 4 {
        '4'
    } else if d == 5 {
        '5'
    } else if d == 6 {
        '6'
    } else if d == 7 {
        '7'
    } else if d == 8 {
        '8'
    } else {
        '9'
    }
}

/// The decimal text of a natural number, most significant digit first,
/// without leading zeroes (a single `'0'` for zero).
pub open spec fn spec_dec(n: nat) -> Seq<char>
    decreases n,
{
    if n < 10 {
        seq![dec_digit(n)]
    } else {
        spec_dec(n / 10).push(dec_digit(n % 10))
    }
}

/// Distinct digit values render as distinct characters.
proof fn lemma_dec_digit_injective(d1: nat, d2: nat)
    requires
        d1 < 10,
        d2 < 10,
        dec_digit(d1) == dec_digit(d2),
    ensures
        d1 == d2,
{
}

/// The decimal text is never empty.
proof fn lemma_spec_dec_len(n: nat)
    ensures
        spec_dec(n).len() >= 1,
        n >= 10 ==> spec_dec(n).len() >= 2,
    decreases n,
{
    if n >= 10 {
        lemma_spec_dec_len(n / 10);
    }
}

/// Distinct numbers render as distinct decimal texts.
pub proof fn lemma_spec_dec_injective(a: nat, b: nat)
    requires
        spec_dec(a) == spec_dec(b),
    ensures
        a == b,
    decreases a + b,
{
    lemma_spec_dec_len(a);
    lemma_spec_dec_len(b);
    if a < 10 && b < 10 {
        assert(spec_dec(a)[0] == dec_digit(a));
        assert(spec_dec(b)[0] == dec_digit(b));
        lemma_dec_digit_injective(a, b);
    } else if a < 10 {
        assert(spec_dec(a).len() == 1);
        assert(spec_dec(b).len() >= 2);
    } else if b < 10 {
        assert(spec_dec(b).len() == 1);
        assert(spec_dec(a).len() >= 2);
    } else {
        assert(spec_dec(a).last() == dec_digit(a % 10));
        assert(spec_dec(b).last() == dec_digit(b % 10));
        lemma_dec_digit_injective(a % 10, b % 10);
        assert(spec_dec(a).drop_last() =~= spec_dec(a / 10));
        assert(spec_dec(b).drop_last() =~= spec_dec(b / 10));
        lemma_spec_dec_injective(a / 10, b / 10);
    }
}

fn dec_digit_char(d: u32) -> (r: char)
    requires
        d < 10,
    ensures
        r == dec_digit(d as nat),
{
    if d == 0 {
        '0'
    } else if d == 1 {
        '1'
    } else if d == 2 {
        '2'
    } else if d == 3 {
        '3'
    } else if d == 4 {
        '4'
    } else if d == 5 {
        '5'
    } else if d == 6 {
        '6'
    } else if d == 7 {
        '7'
    } else if d == 8 {
        '8'
    } else {
        '9'
    }
}

/// The decimal text of a chat id, e.g. `7` renders as `"7"`.
pub fn u32_to_dec_string(n: u32) -> (r: String)
    ensures
        r@ == spec_dec(n as nat),
{
    let mut digits: Vec<char> = Vec::new();
    let mut m: u32 = n;
    loop
        invariant_except_break
            spec_dec(n as nat) == spec_dec(m as nat) + digits@,
        ensures
            digits@ == spec_dec(n as nat),
        decreases m,
    {
        let ghost pre = digits@;
        let d = m % 10;
        digits.insert(0, dec_digit_char(d));
        proof {
            assert(digits@ =~= seq![dec_digit((m % 10) as nat)] + pre);
        }
        if m < 10 {
            proof {
                assert(spec_dec(m as nat) =~= seq![dec_digit(m as nat)]);
                assert(digits@ =~= spec_dec(m as nat) + pre);
            }
            break;
        }
        proof {
            assert(spec_dec(m as nat) =~= spec_dec(m as nat / 10).push(dec_digit(m as nat % 10)));
            assert(spec_dec(m as nat) + pre =~= spec_dec(m as nat / 10) + digits@);
            assert(spec_dec(n as nat) =~= spec_dec((m / 10) as nat) + digits@);
        }
        m = m / 10;
    }
    collect_chars(&digits)
}

} // verus!
