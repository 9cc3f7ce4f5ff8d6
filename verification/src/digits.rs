//! Decimal numerals: the spec-level picture of a number written in base ten,
//! the executable rendering of a number as a string, and the facts relating
//! the two that the alias round-trip rests on.

use vstd::prelude::*;
use vstd::string::StringExecFns;

verus! {

/// The character for a single decimal digit value.
pub open spec fn digit_char(d: int) -> char {
    if d == 0 {
        '0'
    } else if d == 1 {
        '1'
    } else if d == 2 {
        '2'
    } else if d == 3 {
        '3'
    } else if d == 4 {
        '4'
    } else if d == 5 {
        '5'
    } else if d == 6 {
        '6'
    } else if d == 7 {
        '7'
    } else if d == 8 {
        '8'
    } else {
        '9'
    }
}

/// Whether `c` is one of the ten decimal digit characters.
pub open spec fn is_digit(c: char) -> bool {
    48 <= (c as u32) && (c as u32) <= 57
}

/// The numeric value of a decimal digit character.
pub open spec fn digit_value(c: char) -> int {
    (c as u32) - 48
}

/// The decimal numeral of `n`, most significant digit first, with no
/// leading zeros (a lone `0` for zero itself).
pub open spec fn dec_digits(n: nat) -> Seq<char>
    decreases n,
{
    if n < 10 {
        seq![digit_char(n as int)]
    } else {
        dec_digits(n / 10) + seq![digit_char((n % 10) as int)]
    }
}

/// Whether `s` is a non-empty run of decimal digit characters.
pub open spec fn is_dec_numeral(s: Seq<char>) -> bool {
    s.len() > 0 && (forall|i: int| 0 <= i < s.len() ==> is_digit(#[trigger] s[i]))
}

/// The number that a run of decimal digit characters denotes.
pub open spec fn dec_value(s: Seq<char>) -> nat
    decreases s.len(),
{
    if s.len() == 0 {
        0
    } else {
        (dec_value(s.drop_last()) * 10 + digit_value(s.last())) as nat
    }
}

/// The numeral of a number consists of digit characters alone.
pub proof fn lemma_dec_digits_are_digits(n: nat)
    ensures
        is_dec_numeral(dec_digits(n)),
    decreases n,
{
    if n >= 10 {
        lemma_dec_digits_are_digits(n / 10);
    }
}

/// Reading the numeral of a number back gives that number.
pub proof fn lemma_dec_value_of_dec_digits(n: nat)
    ensures
        dec_value(dec_digits(n)) == n,
    decreases n,
{
    if n < 10 {
        assert(dec_digits(n).drop_last() =~= Seq::<char>::empty());
        assert(dec_value(Seq::<char>::empty()) == 0);
    } else {
        lemma_dec_value_of_dec_digits(n / 10);
        assert(dec_digits(n).drop_last() =~= dec_digits(n / 10));
    }
}

/// The string holding one decimal digit character.
pub(crate) fn digit_str(d: u64) -> (r: &'static str)
    requires
        d < 10,
    ensures
        r@ == seq![digit_char(d as int)],
{
    proof {
        reveal_strlit("0");
        reveal_strlit("1");
        reveal_strlit("2");
        reveal_strlit("3");
        reveal_strlit("4");
        reveal_strlit("5");
        reveal_strlit("6");
        reveal_strlit("7");
        reveal_strlit("8");
        reveal_strlit("9");
    }
    let r: &'static str = if d == 0 {
        "0"
    } else if d == 1 {
        "1"
    } else if d == 2 {
        "2"
    } else if d == 3 {
        "3"
    } else if d == 4 {
        "4"
    } else if d == 5 {
        "5"
    } else if d == 6 {
        "6"
    } else if d == 7 {
        "7"
    } else if d == 8 {
        "8"
    } else {
        "9"
    };
    proof {
        assert(r@ =~= seq![digit_char(d as int)]);
    }
    r
}

/// Renders `n` in decimal, most significant digit first.
pub fn dec_string(n: u64) -> (r: String)
    ensures
        r@ == dec_digits(n as nat),
    decreases n,
{
    if n < 10 {
        String::from_str(digit_str(n))
    } else {
        let prefix = dec_string(n / 10);
        let r = prefix.concat(digit_str(n % 10));
        proof {
            assert(r@ =~= dec_digits(n as nat));
        }
        r
    }
}

} // verus!
