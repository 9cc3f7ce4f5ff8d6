//! The listing formatter: renders an ordered sequence of names, one line per
//! item, with an optional alias column that is either decimal (`0`, `1`, ...)
//! or letter-based (the lowercase hexadecimal digit for ten onward: `a`,
//! `b`, ...).

use vstd::prelude::*;
use vstd::string::StringExecFns;
use crate::digits::{dec_digits, dec_string};

verus! {

/// One rendered listing line: the alias, a colon, a tab, then the item.
pub open spec fn alias_line(alias: Seq<char>, item: Seq<char>) -> Seq<char> {
    alias + seq![':', '\t'] + item
}

/// The lowercase hexadecimal digit character for a value between ten and
/// fifteen.
pub open spec fn lower_hex_digit_char(v: int) -> char {
    if v == 10 {
        'a'
    } else if v == 11 {
        'b'
    } else if v == 12 {
        'c'
    } else if v == 13 {
        'd'
    } else if v == 14 {
        'e'
    } else {
        'f'
    }
}

/// The letter-scheme alias for position `i`: the hexadecimal digit for
/// `10 + i`, so the first item is aliased `a`, the second `b`, and so on.
pub open spec fn letter_alias(i: int) -> char {
    lower_hex_digit_char(10 + i)
}

/// The letter-scheme listing of `items`: line `i` carries alias
/// `letter_alias(i)`.
pub open spec fn letter_lines(items: Seq<Seq<char>>) -> Seq<Seq<char>> {
    Seq::new(items.len(), |i: int| alias_line(seq![letter_alias(i)], items[i]))
}

/// The decimal-scheme listing of `items`: line `i` carries the decimal
/// numeral of `i` as its alias.
pub open spec fn decimal_lines(items: Seq<Seq<char>>) -> Seq<Seq<char>> {
    Seq::new(items.len(), |i: int| alias_line(dec_digits(i as nat), items[i]))
}

/// What the tiered formatter produces: the items alone when no alias is
/// shown, else the decimal or the letter scheme.
pub open spec fn listing_lines(items: Seq<Seq<char>>, enumerate: bool, numeric: bool) -> Seq<
    Seq<char>,
> {
    if !enumerate {
        items
    } else if numeric {
        decimal_lines(items)
    } else {
        letter_lines(items)
    }
}

/// Joins an alias and an item into one listing line.
pub fn print_alias_line(alias: String, item: String) -> (r: String)
    ensures
        r@ == alias_line(alias@, item@),
{
    proof {
        reveal_strlit(":\t");
    }
    let ghost a = alias@;
    let ghost it = item@;
    let r = alias.concat(":\t").concat(item.as_str());
    proof {
        assert(r@ =~= alias_line(a, it));
    }
    r
}

/// The string holding the letter-scheme alias for position `i`.
pub(crate) fn letter_str(i: u64) -> (r: &'static str)
    requires
        i < 6,
    ensures
        r@ == seq![letter_alias(i as int)],
{
    proof {
        reveal_strlit("a");
        reveal_strlit("b");
        reveal_strlit("c");
        reveal_strlit("d");
        reveal_strlit("e");
        reveal_strlit("f");
    }
    let r: &'static str = if i == 0 {
        "a"
    } else if i == 1 {
        "b"
    } else if i == 2 {
        "c"
    } else if i == 3 {
        "d"
    } else if i == 4 {
        "e"
    } else {
        "f"
    };
    proof {
        assert(r@ =~= seq![letter_alias(i as int)]);
    }
    r
}

/// Renders `items` under the letter scheme. Only lists of at most six items
/// are in range: the scheme stops at the last hexadecimal digit, and what a
/// longer listing would show is left undefined.
pub fn letter_print(items: &Vec<String>) -> (r: Vec<String>)
    requires
        items@.len() <= 6,
    ensures
        r.deep_view() == letter_lines(items.deep_view()),
{
    let mut r: Vec<String> = Vec::new();
    let mut i: usize = 0;
    while i < items.len()
        invariant
            i <= items@.len() <= 6,
            r@.len() == i,
            forall|j: int|
                0 <= j < i ==> (#[trigger] r@[j])@ == alias_line(
                    seq![letter_alias(j)],
                    items@[j]@,
                ),
        decreases items@.len() - i,
    {
        let alias = String::from_str(letter_str(i as u64));
        let line = print_alias_line(alias, items[i].clone());
        r.push(line);
        i = i + 1;
    }
    proof {
        assert(r.deep_view() =~= letter_lines(items.deep_view()));
    }
    r
}

/// Renders `items` under the decimal scheme: line `i` is aliased by the
/// decimal numeral of `i`, starting at zero.
pub fn enumerate_print(items: &Vec<String>) -> (r: Vec<String>)
    ensures
        r.deep_view() == decimal_lines(items.deep_view()),
{
    let mut r: Vec<String> = Vec::new();
    let mut i: usize = 0;
    while i < items.len()
        invariant
            i <= items@.len(),
            r@.len() == i,
            forall|j: int|
                0 <= j < i ==> (#[trigger] r@[j])@ == alias_line(dec_digits(j as nat), items@[j]@),
        decreases items@.len() - i,
    {
        let alias = dec_string(i as u64);
        let line = print_alias_line(alias, items[i].clone());
        r.push(line);
        i = i + 1;
    }
    proof {
        assert(r.deep_view() =~= decimal_lines(items.deep_view()));
    }
    r
}

/// Renders `items` with no alias column: each item alone, in list order,
/// nothing added.
pub fn normal_print(items: &Vec<String>) -> (r: Vec<String>)
    ensures
        r.deep_view() == items.deep_view(),
{
    let mut r: Vec<String> = Vec::new();
    let mut i: usize = 0;
    while i < items.len()
        invariant
            i <= items@.len(),
            r@.len() == i,
            forall|j: int| 0 <= j < i ==> (#[trigger] r@[j])@ == items@[j]@,
        decreases items@.len() - i,
    {
        r.push(items[i].clone());
        i = i + 1;
    }
    proof {
        assert(r.deep_view() =~= items.deep_view());
    }
    r
}

/// The tiered formatter: no alias column, the decimal scheme, or the letter
/// scheme, chosen by the two flags. The letter scheme is only defined for
/// lists of at most six items.
pub fn print(items: &Vec<String>, enumerate: bool, numeric: bool) -> (r: Vec<String>)
    requires
        enumerate && !numeric ==> items@.len() <= 6,
    ensures
        r.deep_view() == listing_lines(items.deep_view(), enumerate, numeric),
{
    if enumerate {
        if numeric {
            enumerate_print(items)
        } else {
            letter_print(items)
        }
    } else {
        normal_print(items)
    }
}

} // verus!
