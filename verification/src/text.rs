//! Verified construction of the small pieces of text the library emits:
//! decimal numerals for counters and IP octets.

use vstd::prelude::*;
use vstd::string::StringExecFns;

verus! {

/// The character for one decimal digit.
pub open spec fn digit_char(d: nat) -> char {
    if d == 0 {
        '0'
    } else if d == 1 {
        '1'
    } else if d == 2 {
        '2'
    } else if d == 3 {
        '3'
    } else if d == 4 {
        '4'
    } else if d == 5 {
        '5'
    } else if d == 6 {
        '6'
    } else if d == 7 {
        '7'
    } else if d == 8 {
        '8'
    } else {
        '9'
    }
}

/// The decimal numeral of `v`, most significant digit first, no leading zeros
/// (the numeral of zero is "0").
pub open spec fn dec_digits(v: nat) -> Seq<char>
    decreases v,
{
    if v < 10 {
        seq![digit_char(v)]
    } else {
        dec_digits(v / 10) + seq![digit_char(v % 10)]
    }
}

/// Appends the character of one decimal digit.
fn append_digit(s: &mut String, d: u64)
    requires
        d < 10,
    ensures
        final(s)@ == old(s)@ + seq![digit_char(d as nat)],
{
    let t: &str = match d {
        0 => "0",
        1 => "1",
        2 => "2",
        3 => "3",
        4 => "4",
        5 => "5",
        6 => "6",
        7 => "7",
        8 => "8",
        _ => "9",
    };
    proof {
        reveal_strlit("0");
        reveal_strlit("1");
        reveal_strlit("2");
        reveal_strlit("3");
        reveal_strlit("4");
        reveal_strlit("5");
        reveal_strlit("6");
        reveal_strlit("7");
        reveal_strlit("8");
        reveal_strlit("9");
        assert(t@ =~= seq![digit_char(d as nat)]);
    }
    s.append(t);
}

/// Appends the decimal numeral of `v`.
pub fn append_u64(s: &mut String, v: u64)
    ensures
        final(s)@ == old(s)@ + dec_digits(v as nat),
    decreases v,
{
    if v < 10 {
        append_digit(s, v);
    } else {
        append_u64(s, v / 10);
        append_digit(s, v % 10);
    }
}

/// Whether a character is a decimal digit.
pub open spec fn is_digit(c: char) -> bool {
    48 <= c as u32 <= 57
}

/// The value of a decimal digit character.
pub open spec fn digit_val(c: char) -> nat {
    (c as u32 - 48) as nat
}

/// The digit characters carry their values.
pub proof fn lemma_digit_char_val(d: nat)
    requires
        d < 10,
    ensures
        digit_char(d) as u32 == 48 + d,
        is_digit(digit_char(d)),
        digit_val(digit_char(d)) == d,
{
}

/// The shape of a decimal numeral: at least one character, all of them
/// digits, no leading zero (but for the numeral of zero itself), and as many
/// characters as the value has digits.
pub proof fn lemma_dec_digits_props(v: nat)
    ensures
        1 <= dec_digits(v).len(),
        forall|i: int| 0 <= i < dec_digits(v).len() ==> is_digit(#[trigger] dec_digits(v)[i]),
        v >= 1 ==> dec_digits(v)[0] != '0',
        dec_digits(v)[0] == '0' ==> v == 0,
        (v < 10) == (dec_digits(v).len() == 1),
        (10 <= v < 100) == (dec_digits(v).len() == 2),
        (100 <= v < 1000) == (dec_digits(v).len() == 3),
    decreases v,
{
    if v < 10 {
        lemma_digit_char_val(v);
    } else {
        lemma_dec_digits_props(v / 10);
        lemma_digit_char_val(v % 10);
        assert(dec_digits(v)[0] == dec_digits(v / 10)[0]);
    }
}

/// Decimal numerals are unique: equal numerals mean equal values.
pub proof fn lemma_dec_digits_injective(a: nat, b: nat)
    requires
        dec_digits(a) == dec_digits(b),
    ensures
        a == b,
    decreases a + b,
{
    lemma_dec_digits_props(a);
    lemma_dec_digits_props(b);
    if a < 10 && b < 10 {
        lemma_digit_char_val(a);
        lemma_digit_char_val(b);
        assert(dec_digits(a)[0] == dec_digits(b)[0]);
    } else if a >= 10 && b >= 10 {
        lemma_digit_char_val(a % 10);
        lemma_digit_char_val(b % 10);
        assert(dec_digits(a).last() == digit_char(a % 10));
        assert(dec_digits(b).last() == digit_char(b % 10));
        assert(dec_digits(a).drop_last() =~= dec_digits(a / 10));
        assert(dec_digits(b).drop_last() =~= dec_digits(b / 10));
        lemma_dec_digits_injective(a / 10, b / 10);
    }
}

/// The numeral of a value below a thousand, digit by digit.
pub proof fn lemma_dec_digits_small(v: nat)
    requires
        v < 1000,
    ensures
        v < 10 ==> dec_digits(v) == seq![digit_char(v)],
        10 <= v < 100 ==> dec_digits(v) == seq![digit_char(v / 10), digit_char(v % 10)],
        100 <= v ==> dec_digits(v) == seq![
            digit_char(v / 100),
            digit_char((v / 10) % 10),
            digit_char(v % 10),
        ],
{
    reveal_with_fuel(dec_digits, 4);
    if v < 10 {
        assert(dec_digits(v) =~= seq![digit_char(v)]);
    } else if v < 100 {
        assert(dec_digits(v) =~= seq![digit_char(v / 10), digit_char(v % 10)]);
    } else {
        vstd::arithmetic::div_mod::lemma_div_denominator(v as int, 10, 10);
        assert(dec_digits(v / 10) =~= seq![digit_char((v / 10) / 10), digit_char((v / 10) % 10)]);
        assert(dec_digits(v) =~= seq![
            digit_char(v / 100),
            digit_char((v / 10) % 10),
            digit_char(v % 10),
        ]);
    }
}

/// Whether two string slices hold the same characters.
pub fn str_eq(a: &str, b: &str) -> (r: bool)
    ensures
        r == (a@ == b@),
{
    let sa = String::from_str(a);
    let sb = String::from_str(b);
    sa == sb
}

/// The decimal numeral of `v` as an owned string.
pub fn u64_to_string(v: u64) -> (r: String)
    ensures
        r@ == dec_digits(v as nat),
{
    let mut s = String::new();
    append_u64(&mut s, v);
    proof {
        assert(s@ =~= dec_digits(v as nat));
    }
    s
}

} // verus!
