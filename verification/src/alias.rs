//! The alias resolver: turns a token typed at the prompt into a zero-based
//! index into the most recently displayed list, under the same encoding the
//! formatter used when that list was printed, and rejects anything else.

use vstd::prelude::*;
use vstd::string::StrSliceExecFns;
use crate::digits::{dec_digits, dec_value, is_dec_numeral, is_digit};
use crate::digits::{lemma_dec_digits_are_digits, lemma_dec_value_of_dec_digits};
use crate::error::SessionError;
use crate::format::letter_alias;

verus! {

/// Whether `c` is a lowercase ASCII letter.
pub open spec fn is_lowercase_letter(c: char) -> bool {
    97 <= (c as u32) && (c as u32) <= 122
}

/// The index a lowercase letter stands for: its distance from `a`.
pub open spec fn letter_index(c: char) -> int {
    (c as u32) - 97
}

/// What letter-scheme resolution yields for a token against a list of
/// `len` items: the index of the token's first character, counted from `a`;
/// a parse failure when the token is empty or does not start with a
/// lowercase letter; a range failure when the index falls outside the list.
pub open spec fn resolve_letter_spec(token: Seq<char>, len: nat) -> Result<int, SessionError> {
    if token.len() == 0 || !is_lowercase_letter(token[0]) {
        Err(SessionError::AliasParseError)
    } else if letter_index(token[0]) >= len {
        Err(SessionError::AliasRangeError)
    } else {
        Ok(letter_index(token[0]))
    }
}

/// What decimal-scheme resolution yields for a token against a list of
/// `len` items: the number the token spells; a parse failure when the token
/// is not a non-empty run of decimal digits; a range failure when that
/// number falls outside the list.
pub open spec fn resolve_decimal_spec(token: Seq<char>, len: nat) -> Result<int, SessionError> {
    if !is_dec_numeral(token) {
        Err(SessionError::AliasParseError)
    } else if dec_value(token) >= len {
        Err(SessionError::AliasRangeError)
    } else {
        Ok(dec_value(token) as int)
    }
}

/// Resolves a letter-scheme alias against a list of `len` items.
pub fn resolve_letter(token: &str, len: usize) -> (r: Result<usize, SessionError>)
    ensures
        match r {
            Ok(i) => resolve_letter_spec(token@, len as nat) == Ok::<int, SessionError>(i as int),
            Err(e) => resolve_letter_spec(token@, len as nat) == Err::<int, SessionError>(e),
        },
{
    if token.unicode_len() == 0 {
        return Err(SessionError::AliasParseError);
    }
    let c = token.get_char(0);
    let code = c as u32;
    if code < 97 || code > 122 {
        return Err(SessionError::AliasParseError);
    }
    let index = (code - 97) as usize;
    if index >= len {
        return Err(SessionError::AliasRangeError);
    }
    Ok(index)
}

/// Resolves a decimal-scheme alias against a list of `len` items. The
/// numeric value is accumulated with a cap just above the largest possible
/// list length, so that an arbitrarily long numeral still reports a range
/// failure rather than overflowing.
pub fn resolve_decimal(token: &str, len: usize) -> (r: Result<usize, SessionError>)
    ensures
        match r {
            Ok(i) => resolve_decimal_spec(token@, len as nat) == Ok::<int, SessionError>(i as int),
            Err(e) => resolve_decimal_spec(token@, len as nat) == Err::<int, SessionError>(e),
        },
{
    let n = token.unicode_len();
    if n == 0 {
        return Err(SessionError::AliasParseError);
    }
    let big: u128 = 18446744073709551616u128;
    let mut acc: u128 = 0;
    let mut i: usize = 0;
    while i < n
        invariant
            n == token@.len(),
            big == 18446744073709551616u128,
            0 <= i <= n,
            forall|j: int| 0 <= j < i ==> is_digit(#[trigger] token@[j]),
            acc <= big,
            acc == big ==> dec_value(token@.subrange(0, i as int)) >= big,
            acc < big ==> acc == dec_value(token@.subrange(0, i as int)),
        decreases n - i,
    {
        let c = token.get_char(i);
        let code = c as u32;
        if code < 48 || code > 57 {
            proof {
                assert(!is_digit(token@[i as int]));
            }
            return Err(SessionError::AliasParseError);
        }
        let d = (code - 48) as u128;
        proof {
            assert(acc * 10 <= 184467440737095516160u128) by (nonlinear_arith)
                requires
                    acc <= 18446744073709551616u128,
            ;
        }
        let v = acc * 10 + d;
        proof {
            assert(token@.subrange(0, i + 1 as int).drop_last() =~= token@.subrange(0, i as int));
            assert(token@.subrange(0, i + 1 as int).last() == token@[i as int]);
        }
        if v >= big {
            acc = big;
        } else {
            acc = v;
        }
        i = i + 1;
    }
    proof {
        assert(token@.subrange(0, n as int) =~= token@);
        assert(is_dec_numeral(token@));
        assert((len as u128) < big);
    }
    if acc >= len as u128 {
        return Err(SessionError::AliasRangeError);
    }
    Ok(acc as usize)
}

/// Round trip under the letter scheme: for every position `i` of a list
/// short enough to be letter-rendered, resolving the one-character alias
/// that the formatter printed for position `i` yields `i` again.
pub proof fn lemma_letter_round_trip(i: int, len: nat)
    requires
        0 <= i < len,
        len <= 6,
    ensures
        resolve_letter_spec(seq![letter_alias(i)], len) == Ok::<int, SessionError>(i),
{
}

/// Round trip under the decimal scheme: for every position `i` of a list,
/// resolving the decimal alias that the formatter printed for position `i`
/// yields `i` again.
pub proof fn lemma_decimal_round_trip(i: int, len: nat)
    requires
        0 <= i < len,
    ensures
        resolve_decimal_spec(dec_digits(i as nat), len) == Ok::<int, SessionError>(i),
{
    lemma_dec_digits_are_digits(i as nat);
    lemma_dec_value_of_dec_digits(i as nat);
}

} // verus!
