//! Base-ten rendering of unsigned integers, as used in channel, flow and run
//! names.
use vstd::prelude::*;

verus! {

/// The character of a decimal digit.
pub open spec fn digit_char(d: nat) -> char {
    if d == 0 {
        '0'
    } else if d == 1 {
        '1'
    } else if d == 2 {
        '2'
    } else if d == 3 {
        '3'
    } else if d == 4 {
        '4'
    } else if d == 5 {
        '5'
    } else if d == 6 {
        '6'
    } else if d == 7 {
        '7'
    } else if d == 8 {
        '8'
    } else {
        '9'
    }
}

/// Whether a character is one of `0` to `9`.
pub open spec fn is_digit(c: char) -> bool {
    '0' <= c && c <= '9'
}

/// The shortest base-ten representation of `n`, most significant digit first.
pub open spec fn dec(n: nat) -> Seq<char>
    decreases n,
{
    if n < 10 {
        seq![digit_char(n)]
    } else {
        dec(n / 10).push(digit_char(n % 10))
    }
}

proof fn lemma_digit_char_injective(a: nat, b: nat)
    requires
        a < 10,
        b < 10,
        digit_char(a) == digit_char(b),
    ensures
        a == b,
{
}

/// Every character of a rendering is a digit, and there is at least one.
pub proof fn lemma_dec_digits(n: nat)
    ensures
        dec(n).len() >= 1,
        forall|k: int| 0 <= k < dec(n).len() ==> is_digit(#[trigger] dec(n)[k]),
    decreases n,
{
    if n >= 10 {
        lemma_dec_digits(n / 10);
        assert forall|k: int| 0 <= k < dec(n).len() implies is_digit(#[trigger] dec(n)[k]) by {
            if k < dec(n / 10).len() {
                assert(dec(n)[k] == dec(n / 10)[k]);
            }
        }
    }
}

/// A rendering has a leading zero only when it is the rendering of zero.
proof fn lemma_dec_leading(n: nat)
    ensures
        dec(n).len() > 1 ==> dec(n)[0] != '0',
        dec(n).len() == 1 <==> n < 10,
    decreases n,
{
    if n >= 10 {
        lemma_dec_leading(n / 10);
        lemma_dec_digits(n / 10);
        if n / 10 < 10 {
            assert(n / 10 != 0);
            assert(dec(n)[0] == dec(n / 10)[0]);
        } else {
            assert(dec(n)[0] == dec(n / 10)[0]);
        }
    }
}

/// Distinct numbers have distinct renderings.
pub proof fn lemma_dec_injective(a: nat, b: nat)
    requires
        dec(a) == dec(b),
    ensures
        a == b,
    decreases a,
{
    lemma_dec_leading(a);
    lemma_dec_leading(b);
    if a < 10 {
        assert(b < 10);
        assert(dec(a)[0] == digit_char(a));
        assert(dec(b)[0] == digit_char(b));
        lemma_digit_char_injective(a, b);
    } else {
        assert(b >= 10);
        let da = dec(a / 10);
        let db = dec(b / 10);
        assert(dec(a).drop_last() == da);
        assert(dec(b).drop_last() == db);
        assert(dec(a).last() == digit_char(a % 10));
        assert(dec(b).last() == digit_char(b % 10));
        lemma_dec_injective(a / 10, b / 10);
        lemma_digit_char_injective(a % 10, b % 10);
    }
}

fn digit_str(d: u8) -> (r: &'static str)
    requires
        d < 10,
    ensures
        r@ == seq![digit_char(d as nat)],
{
    proof {
        reveal_strlit("0");
        reveal_strlit("1");
        reveal_strlit("2");
        reveal_strlit("3");
        reveal_strlit("4");
        reveal_strlit("5");
        reveal_strlit("6");
        reveal_strlit("7");
        reveal_strlit("8");
        reveal_strlit("9");
    }
    let r = if d == 0 {
        "0"
    } else if d == 1 {
        "1"
    } else if d == 2 {
        "2"
    } else if d == 3 {
        "3"
    } else if d == 4 {
        "4"
    } else if d == 5 {
        "5"
    } else if d == 6 {
        "6"
    } else if d == 7 {
        "7"
    } else if d == 8 {
        "8"
    } else {
        "9"
    };
    assert(r@ =~= seq![digit_char(d as nat)]);
    r
}

/// Appends the base-ten rendering of `n` to `s`.
pub fn push_decimal(s: &mut String, n: u128)
    ensures
        final(s)@ == old(s)@ + dec(n as nat),
    decreases n,
{
    if n >= 10 {
        push_decimal(s, n / 10);
    }
    let d = digit_str((n % 10) as u8);
    s.append(d);
    assert(s@ =~= old(s)@ + dec(n as nat));
}

/// The base-ten rendering of `n`.
pub fn decimal(n: u128) -> (s: String)
    ensures
        s@ == dec(n as nat),
{
    let mut s = String::new();
    push_decimal(&mut s, n);
    assert(s@ =~= dec(n as nat));
    s
}

} // verus!
