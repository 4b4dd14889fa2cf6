//! Decimal rendering of the counters that the in-memory store uses as keys.

use vstd::prelude::*;
use crate::ident::id_part_ok;

verus! {

/// The character of a decimal digit.
pub open spec fn digit_char(d: nat) -> char {
    if d == 0 {
        '0'
    } else if d == 1 {
        '1'
    } else if d == 2 {
        '2'
    } else if d == 3 {
        '3'
    } else if d == 4 {
        '4'
    } else if d == 5 {
        '5'
    } else if d == 6 {
        '6'
    } else if d == 7 {
        '7'
    } else if d == 8 {
        '8'
    } else {
        '9'
    }
}

/// The decimal text of a number, without leading zeros.
pub open spec fn decimal_text(n: nat) -> Seq<char>
    decreases n,
{
    if n < 10 {
        seq![digit_char(n)]
    } else {
        decimal_text(n / 10) + seq![digit_char(n % 10)]
    }
}

/// A decimal text is never empty and holds no colon, so it can be the key
/// part of an identifier.
pub proof fn lemma_decimal_is_id_part(n: nat)
    ensures
        id_part_ok(decimal_text(n)),
    decreases n,
{
    if n >= 10 {
        lemma_decimal_is_id_part(n / 10);
        let s = decimal_text(n);
        assert forall|i: int| 0 <= i < s.len() implies s[i] != ':' by {
            if i < decimal_text(n / 10).len() {
                assert(s[i] == decimal_text(n / 10)[i]);
            }
        }
    }
}

/// Different numbers have different decimal texts.
pub proof fn lemma_decimal_injective(a: nat, b: nat)
    requires
        decimal_text(a) == decimal_text(b),
    ensures
        a == b,
    decreases a,
{
    let s = decimal_text(a);
    if a < 10 && b < 10 {
        assert(s[0] == digit_char(a));
        assert(s[0] == digit_char(b));
    } else if a < 10 {
        assert(decimal_text(b).len() >= 2) by {
            lemma_decimal_is_id_part(b / 10);
        }
    } else if b < 10 {
        assert(decimal_text(a).len() >= 2) by {
            lemma_decimal_is_id_part(a / 10);
        }
    } else {
        let pa = decimal_text(a / 10);
        let pb = decimal_text(b / 10);
        assert(s[s.len() - 1] == digit_char(a % 10));
        assert(s[s.len() - 1] == digit_char(b % 10));
        assert(pa.len() == pb.len());
        assert(pa =~= s.subrange(0, s.len() - 1));
        assert(pb =~= s.subrange(0, s.len() - 1));
        lemma_decimal_injective(a / 10, b / 10);
    }
}

/// The one-character text of a decimal digit.
fn digit_text(d: u64) -> (r: &'static str)
    requires
        d < 10,
    ensures
        r@ == seq![digit_char(d as nat)],
{
    proof {
        reveal_strlit("0");
        reveal_strlit("1");
        reveal_strlit("2");
        reveal_strlit("3");
        reveal_strlit("4");
        reveal_strlit("5");
        reveal_strlit("6");
        reveal_strlit("7");
        reveal_strlit("8");
        reveal_strlit("9");
    }
    let r = if d == 0 {
        "0"
    } else if d == 1 {
        "1"
    } else if d == 2 {
        "2"
    } else if d == 3 {
        "3"
    } else if d == 4 {
        "4"
    } else if d == 5 {
        "5"
    } else if d == 6 {
        "6"
    } else if d == 7 {
        "7"
    } else if d == 8 {
        "8"
    } else {
        "9"
    };
    assert(r@ =~= seq![digit_char(d as nat)]);
    r
}

/// The decimal text of `n`.
pub fn decimal(n: u64) -> (r: String)
    ensures
        r@ == decimal_text(n as nat),
    decreases n,
{
    if n < 10 {
        String::from_str(digit_text(n))
    } else {
        let mut r = decimal(n / 10);
        r.append(digit_text(n % 10));
        r
    }
}

} // verus!
