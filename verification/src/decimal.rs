//! Decimal rendering of identifiers.
//!
//! Variant ids are rewritten to `<experiment id>-<local id>`, so the
//! library needs the decimal text of an id, pinned down character by
//! character.

use vstd::prelude::*;
use vstd::string::StringExecFns;

verus! {

/// The character of one decimal digit.
pub open spec fn dec_digit_char(d: int) -> char {
    if d == 0 {
        '0'
    } else if d == 1 {
        '1'
    } else if d == 2 {
        '2'
    } else if d == 3 {
        '3'
    } else if d == 4 {
        '4'
    } else if d == 5 {
        '5'
    } else if d == 6 {
        '6'
    } else if d == 7 {
        '7'
    } else if d == 8 {
        '8'
    } else {
        '9'
    }
}

/// The decimal digits of a non-negative integer, most significant first,
/// without leading zeros (a single zero for zero itself).
pub open spec fn dec_str(n: int) -> Seq<char>
    decreases n,
{
    if n < 10 {
        seq![dec_digit_char(n)]
    } else {
        dec_str(n / 10).push(dec_digit_char(n % 10))
    }
}

/// A decimal text is never empty, and two digits or more from ten up.
pub proof fn lemma_dec_str_len(n: int)
    requires
        n >= 0,
    ensures
        dec_str(n).len() >= 1,
        n >= 10 ==> dec_str(n).len() >= 2,
    decreases n,
{
    if n >= 10 {
        lemma_dec_str_len(n / 10);
    }
}

/// Every character of a decimal text is a digit, never a dash.
pub proof fn lemma_dec_str_no_dash(n: int)
    requires
        n >= 0,
    ensures
        forall|i: int| 0 <= i < dec_str(n).len() ==> dec_str(n)[i] != '-',
    decreases n,
{
    if n >= 10 {
        lemma_dec_str_no_dash(n / 10);
        assert(dec_str(n).last() == dec_digit_char(n % 10));
        assert forall|i: int| 0 <= i < dec_str(n).len() implies dec_str(n)[i] != '-' by {
            if i < dec_str(n).len() - 1 {
                assert(dec_str(n)[i] == dec_str(n / 10)[i]);
            }
        }
    }
}

/// Distinct non-negative integers render to distinct decimal texts.
pub proof fn lemma_dec_str_injective(a: int, b: int)
    requires
        a >= 0,
        b >= 0,
        a != b,
    ensures
        dec_str(a) != dec_str(b),
    decreases a + b,
{
    if a < 10 && b < 10 {
        assert(dec_digit_char(a) != dec_digit_char(b));
        assert(dec_str(a)[0] != dec_str(b)[0]);
    } else if a < 10 && b >= 10 {
        lemma_dec_str_len(b);
    } else if a >= 10 && b < 10 {
        lemma_dec_str_len(a);
    } else {
        if dec_str(a) == dec_str(b) {
            if a % 10 != b % 10 {
                assert(dec_digit_char(a % 10) != dec_digit_char(b % 10));
                assert(dec_str(a).last() == dec_digit_char(a % 10));
                assert(dec_str(b).last() == dec_digit_char(b % 10));
            } else {
                assert(a / 10 != b / 10);
                lemma_dec_str_injective(a / 10, b / 10);
                assert(dec_str(a).drop_last() =~= dec_str(a / 10));
                assert(dec_str(b).drop_last() =~= dec_str(b / 10));
            }
            assert(false);
        }
    }
}

/// The one-character string of a decimal digit.
fn dec_digit_string(d: u64) -> (r: String)
    requires
        d < 10,
    ensures
        r@ == seq![dec_digit_char(d as int)],
{
    let s: String = if d == 0 {
        proof {
            reveal_strlit("0");
        }
        "0".to_owned()
    } else if d == 1 {
        proof {
            reveal_strlit("1");
        }
        "1".to_owned()
    } else if d == 2 {
        proof {
            reveal_strlit("2");
        }
        "2".to_owned()
    } else if d == 3 {
        proof {
            reveal_strlit("3");
        }
        "3".to_owned()
    } else if d == 4 {
        proof {
            reveal_strlit("4");
        }
        "4".to_owned()
    } else if d == 5 {
        proof {
            reveal_strlit("5");
        }
        "5".to_owned()
    } else if d == 6 {
        proof {
            reveal_strlit("6");
        }
        "6".to_owned()
    } else if d == 7 {
        proof {
            reveal_strlit("7");
        }
        "7".to_owned()
    } else if d == 8 {
        proof {
            reveal_strlit("8");
        }
        "8".to_owned()
    } else {
        proof {
            reveal_strlit("9");
        }
        "9".to_owned()
    };
    proof {
        assert(s@ =~= seq![dec_digit_char(d as int)]);
    }
    s
}

/// The decimal text of a non-negative 64-bit integer.
pub fn u64_to_dec_string(n: u64) -> (r: String)
    ensures
        r@ == dec_str(n as int),
    decreases n,
{
    if n < 10 {
        dec_digit_string(n)
    } else {
        let mut s = u64_to_dec_string(n / 10);
        let tail = dec_digit_string(n % 10);
        s.append(tail.as_str());
        proof {
            assert(s@ =~= dec_str((n / 10) as int).push(dec_digit_char((n % 10) as int)));
        }
        s
    }
}

/// The decimal text of a non-negative signed identifier.
pub fn i64_to_dec_string(n: i64) -> (r: String)
    requires
        n >= 0,
    ensures
        r@ == dec_str(n as int),
{
    u64_to_dec_string(n as u64)
}

} // verus!
