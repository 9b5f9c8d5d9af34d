//! Verified recognition of bare IP address strings: a dotted-quad parser for
//! IPv4 — the grammar accepted is exactly the canonical forms that
//! `format_ipv4` produces — and on top of it the address guards the rest of
//! the system uses.

use vstd::prelude::*;
use vstd::arithmetic::div_mod::{
    lemma_div_multiples_vanish_fancy, lemma_fundamental_div_mod, lemma_mod_breakdown,
};
use crate::ip::{CidrParse, cidr_class, ipv4_chars, parse_cidr};
use crate::text::{
    dec_digits, digit_char, digit_val, is_digit, lemma_dec_digits_injective,
    lemma_dec_digits_props, lemma_dec_digits_small, lemma_digit_char_val,
};

verus! {

/// The leading octet of an address value.
pub open spec fn oct0(a: u32) -> nat {
    (a as nat) / 16777216
}

/// The second octet.
pub open spec fn oct1(a: u32) -> nat {
    ((a as nat) / 65536) % 256
}

/// The third octet.
pub open spec fn oct2(a: u32) -> nat {
    ((a as nat) / 256) % 256
}

/// The trailing octet.
pub open spec fn oct3(a: u32) -> nat {
    (a as nat) % 256
}

/// The index of the first dot in the dotted quad of `a`.
pub open spec fn dot1_pos(a: u32) -> int {
    dec_digits(oct0(a)).len() as int
}

/// The index of the second dot.
pub open spec fn dot2_pos(a: u32) -> int {
    dot1_pos(a) + 1 + dec_digits(oct1(a)).len()
}

/// The index of the third dot.
pub open spec fn dot3_pos(a: u32) -> int {
    dot2_pos(a) + 1 + dec_digits(oct2(a)).len()
}

/// An address value is the weighted sum of its four octets.
pub proof fn lemma_octets_reconstruct(a: u32)
    ensures
        oct0(a) <= 255,
        oct1(a) <= 255,
        oct2(a) <= 255,
        oct3(a) <= 255,
        (a as nat) == oct0(a) * 16777216 + oct1(a) * 65536 + oct2(a) * 256 + oct3(a),
{
    let x = a as int;
    lemma_fundamental_div_mod(x, 16777216);
    lemma_mod_breakdown(x, 65536, 256);
    lemma_mod_breakdown(x, 256, 256);
}

/// Conversely, the weighted sum of four octet values below 256 has exactly
/// those octets.
pub proof fn lemma_octets_compose(o0: nat, o1: nat, o2: nat, o3: nat)
    requires
        o0 <= 255,
        o1 <= 255,
        o2 <= 255,
        o3 <= 255,
    ensures
        ({
            let a = o0 * 16777216 + o1 * 65536 + o2 * 256 + o3;
            a <= 0xFFFF_FFFF && oct0(a as u32) == o0 && oct1(a as u32) == o1 && oct2(a as u32)
                == o2 && oct3(a as u32) == o3
        }),
{
    let a = (o0 * 16777216 + o1 * 65536 + o2 * 256 + o3) as int;
    lemma_div_multiples_vanish_fancy(
        o0 as int,
        (o1 * 65536 + o2 * 256 + o3) as int,
        16777216,
    );
    assert(a / 16777216 == o0);
    lemma_div_multiples_vanish_fancy((o0 * 256 + o1) as int, (o2 * 256 + o3) as int, 65536);
    assert(a / 65536 == o0 * 256 + o1);
    lemma_fundamental_div_mod((o0 * 256 + o1) as int, 256);
    assert((o0 * 256 + o1) % 256 == o1) by {
        vstd::arithmetic::div_mod::lemma_mod_multiples_vanish(o0 as int, o1 as int, 256);
    }
    lemma_div_multiples_vanish_fancy(
        (o0 * 65536 + o1 * 256 + o2) as int,
        o3 as int,
        256,
    );
    assert(a / 256 == o0 * 65536 + o1 * 256 + o2);
    assert((o0 * 65536 + o1 * 256 + o2) % 256 == o2) by {
        vstd::arithmetic::div_mod::lemma_mod_multiples_vanish(
            (o0 * 256 + o1) as int,
            o2 as int,
            256,
        );
    }
    assert(a % 256 == o3) by {
        vstd::arithmetic::div_mod::lemma_mod_multiples_vanish(
            (o0 * 65536 + o1 * 256 + o2) as int,
            o3 as int,
            256,
        );
    }
}

/// The shape of a dotted quad: three dots at the computed positions, digits
/// everywhere else, and the four decimal numerals of the octets between
/// them.
pub proof fn lemma_ipv4_chars_structure(a: u32)
    ensures
        oct0(a) <= 255,
        oct1(a) <= 255,
        oct2(a) <= 255,
        oct3(a) <= 255,
        ipv4_chars(a).len() == dot3_pos(a) + 1 + dec_digits(oct3(a)).len(),
        0 < dot1_pos(a) && dot1_pos(a) + 1 < dot2_pos(a) && dot2_pos(a) + 1 < dot3_pos(a)
            && dot3_pos(a) + 1 < ipv4_chars(a).len(),
        ipv4_chars(a)[dot1_pos(a)] == '.',
        ipv4_chars(a)[dot2_pos(a)] == '.',
        ipv4_chars(a)[dot3_pos(a)] == '.',
        forall|i: int|
            0 <= i < ipv4_chars(a).len() && i != dot1_pos(a) && i != dot2_pos(a) && i != dot3_pos(
                a,
            ) ==> is_digit(#[trigger] ipv4_chars(a)[i]),
        ipv4_chars(a).subrange(0, dot1_pos(a)) == dec_digits(oct0(a)),
        ipv4_chars(a).subrange(dot1_pos(a) + 1, dot2_pos(a)) == dec_digits(oct1(a)),
        ipv4_chars(a).subrange(dot2_pos(a) + 1, dot3_pos(a)) == dec_digits(oct2(a)),
        ipv4_chars(a).subrange(dot3_pos(a) + 1, ipv4_chars(a).len() as int) == dec_digits(
            oct3(a),
        ),
{
    lemma_octets_reconstruct(a);
    lemma_dec_digits_props(oct0(a));
    lemma_dec_digits_props(oct1(a));
    lemma_dec_digits_props(oct2(a));
    lemma_dec_digits_props(oct3(a));
    let s = ipv4_chars(a);
    let d0 = dec_digits(oct0(a));
    let d1 = dec_digits(oct1(a));
    let d2 = dec_digits(oct2(a));
    let d3 = dec_digits(oct3(a));
    assert(s == d0 + seq!['.'] + d1 + seq!['.'] + d2 + seq!['.'] + d3);
    assert(s.subrange(0, dot1_pos(a)) =~= d0);
    assert(s.subrange(dot1_pos(a) + 1, dot2_pos(a)) =~= d1);
    assert(s.subrange(dot2_pos(a) + 1, dot3_pos(a)) =~= d2);
    assert(s.subrange(dot3_pos(a) + 1, s.len() as int) =~= d3);
    assert forall|i: int|
        0 <= i < s.len() && i != dot1_pos(a) && i != dot2_pos(a) && i != dot3_pos(
            a,
        ) implies is_digit(#[trigger] s[i]) by {
        if i < dot1_pos(a) {
            assert(s[i] == d0[i]);
        } else if i < dot2_pos(a) {
            assert(s[i] == d1[i - dot1_pos(a) - 1]);
        } else if i < dot3_pos(a) {
            assert(s[i] == d2[i - dot2_pos(a) - 1]);
        } else {
            assert(s[i] == d3[i - dot3_pos(a) - 1]);
        }
    }
}

/// A digit character stands for its own value.
proof fn lemma_digit_char_of_val(c: char)
    requires
        is_digit(c),
    ensures
        digit_val(c) < 10,
        digit_char(digit_val(c)) == c,
{
    lemma_digit_char_val(digit_val(c));
    assert(digit_char(digit_val(c)) as u32 == c as u32);
}

/// The digit value of a character, or nothing if it is no digit.
fn digit_of(c: char) -> (r: Option<u8>)
    ensures
        r matches Some(d) ==> d < 10 && is_digit(c) && c == digit_char(d as nat),
        r is None ==> !is_digit(c),
{
    let u = c as u32;
    if 48 <= u && u <= 57 {
        proof {
            lemma_digit_char_of_val(c);
        }
        Some((u - 48) as u8)
    } else {
        None
    }
}

/// Parses the characters `from..to` of `s` as one octet. Accepted are
/// exactly the canonical decimal numerals of the values 0 to 255: no empty
/// run, no extra leading zero, nothing but digits.
fn parse_octet(s: &str, from: usize, to: usize) -> (r: Option<u8>)
    requires
        from <= to <= s@.len(),
    ensures
        r matches Some(v) ==> s@.subrange(from as int, to as int) == dec_digits(v as nat),
        r is None ==> forall|v: u8| s@.subrange(from as int, to as int) != dec_digits(v as nat),
{
    let ghost sub = s@.subrange(from as int, to as int);
    let len = to - from;
    if len == 0 || len > 3 {
        proof {
            assert forall|v: u8| sub != dec_digits(v as nat) by {
                lemma_dec_digits_props(v as nat);
            }
        }
        return None;
    }
    let c0 = s.get_char(from);
    let d0 = match digit_of(c0) {
        Some(d) => d,
        None => {
            proof {
                assert forall|v: u8| sub != dec_digits(v as nat) by {
                    lemma_dec_digits_props(v as nat);
                    if sub == dec_digits(v as nat) {
                        assert(is_digit(dec_digits(v as nat)[0]));
                    }
                }
            }
            return None;
        },
    };
    if d0 == 0 && len > 1 {
        proof {
            assert forall|v: u8| sub != dec_digits(v as nat) by {
                lemma_dec_digits_props(v as nat);
                if sub == dec_digits(v as nat) {
                    assert(dec_digits(v as nat)[0] == digit_char(0));
                }
            }
        }
        return None;
    }
    if len == 1 {
        proof {
            lemma_dec_digits_small(d0 as nat);
            assert(sub =~= dec_digits(d0 as nat));
        }
        return Some(d0);
    }
    let c1 = s.get_char(from + 1);
    let d1 = match digit_of(c1) {
        Some(d) => d,
        None => {
            proof {
                assert forall|v: u8| sub != dec_digits(v as nat) by {
                    lemma_dec_digits_props(v as nat);
                    if sub == dec_digits(v as nat) {
                        assert(is_digit(dec_digits(v as nat)[1]));
                    }
                }
            }
            return None;
        },
    };
    if len == 2 {
        let v = d0 * 10 + d1;
        proof {
            lemma_dec_digits_small(v as nat);
            assert(v as nat / 10 == d0 as nat && v as nat % 10 == d1 as nat);
            assert(sub =~= dec_digits(v as nat));
        }
        return Some(v);
    }
    let c2 = s.get_char(from + 2);
    let d2 = match digit_of(c2) {
        Some(d) => d,
        None => {
            proof {
                assert forall|v: u8| sub != dec_digits(v as nat) by {
                    lemma_dec_digits_props(v as nat);
                    if sub == dec_digits(v as nat) {
                        assert(is_digit(dec_digits(v as nat)[2]));
                    }
                }
            }
            return None;
        },
    };
    let v3: u32 = (d0 as u32) * 100 + (d1 as u32) * 10 + (d2 as u32);
    if v3 > 255 {
        proof {
            assert forall|v: u8| sub != dec_digits(v as nat) by {
                lemma_dec_digits_props(v as nat);
                if sub == dec_digits(v as nat) {
                    let n = v as nat;
                    lemma_dec_digits_small(n);
                    lemma_digit_char_val(n / 100);
                    lemma_digit_char_val((n / 10) % 10);
                    lemma_digit_char_val(n % 10);
                    lemma_digit_char_val(d0 as nat);
                    lemma_digit_char_val(d1 as nat);
                    lemma_digit_char_val(d2 as nat);
                    assert(n / 100 == d0 as nat && (n / 10) % 10 == d1 as nat && n % 10
                        == d2 as nat);
                    lemma_fundamental_div_mod(n as int, 100);
                    lemma_mod_breakdown(n as int, 10, 10);
                }
            }
        }
        return None;
    }
    let v = v3 as u8;
    proof {
        let n = v as nat;
        lemma_dec_digits_small(n);
        lemma_div_multiples_vanish_fancy(d0 as int, (d1 * 10 + d2) as int, 100);
        assert(n / 100 == d0 as nat);
        lemma_div_multiples_vanish_fancy((d0 * 10 + d1) as int, d2 as int, 10);
        assert(n / 10 == d0 as nat * 10 + d1 as nat);
        vstd::arithmetic::div_mod::lemma_mod_multiples_vanish(d0 as int, d1 as int, 10);
        assert((n / 10) % 10 == d1 as nat);
        vstd::arithmetic::div_mod::lemma_mod_multiples_vanish(
            (d0 * 10 + d1) as int,
            d2 as int,
            10,
        );
        assert(n % 10 == d2 as nat);
        assert(sub =~= dec_digits(n));
    }
    Some(v)
}

/// Two addresses with the same dotted quad are the same address.
pub proof fn lemma_ipv4_chars_injective(a: u32, b: u32)
    requires
        ipv4_chars(a) == ipv4_chars(b),
    ensures
        a == b,
{
    lemma_ipv4_chars_structure(a);
    lemma_ipv4_chars_structure(b);
    let s = ipv4_chars(a);
    assert(dot1_pos(a) == dot1_pos(b)) by {
        if dot1_pos(a) < dot1_pos(b) {
            assert(is_digit(s[dot1_pos(a)]));
        } else if dot1_pos(b) < dot1_pos(a) {
            assert(is_digit(s[dot1_pos(b)]));
        }
    }
    assert(dot2_pos(a) == dot2_pos(b)) by {
        if dot2_pos(a) < dot2_pos(b) {
            assert(is_digit(s[dot2_pos(a)]));
        } else if dot2_pos(b) < dot2_pos(a) {
            assert(is_digit(s[dot2_pos(b)]));
        }
    }
    assert(dot3_pos(a) == dot3_pos(b)) by {
        if dot3_pos(a) < dot3_pos(b) {
            assert(is_digit(s[dot3_pos(a)]));
        } else if dot3_pos(b) < dot3_pos(a) {
            assert(is_digit(s[dot3_pos(b)]));
        }
    }
    assert(dec_digits(oct0(a)) == dec_digits(oct0(b)));
    assert(dec_digits(oct1(a)) == dec_digits(oct1(b)));
    assert(dec_digits(oct2(a)) == dec_digits(oct2(b)));
    assert(dec_digits(oct3(a)) == dec_digits(oct3(b)));
    lemma_dec_digits_injective(oct0(a), oct0(b));
    lemma_dec_digits_injective(oct1(a), oct1(b));
    lemma_dec_digits_injective(oct2(a), oct2(b));
    lemma_dec_digits_injective(oct3(a), oct3(b));
    lemma_octets_reconstruct(a);
    lemma_octets_reconstruct(b);
}

/// The first dot of `s` at or after `from`, if any.
fn next_dot(s: &str, from: usize) -> (r: Option<usize>)
    requires
        from <= s@.len(),
    ensures
        r matches Some(j) ==> from <= j < s@.len() && s@[j as int] == '.' && (forall|i: int|
            from <= i < j ==> s@[i] != '.'),
        r is None ==> forall|i: int| from <= i < s@.len() ==> s@[i] != '.',
{
    let n = s.unicode_len();
    let mut j = from;
    while j < n
        invariant
            from <= j <= n,
            n == s@.len(),
            forall|i: int| from <= i < j ==> s@[i] != '.',
        decreases n - j,
    {
        if s.get_char(j) == '.' {
            return Some(j);
        }
        j = j + 1;
    }
    None
}

/// In a dotted quad, a first dot can only stand where the first dot stands.
proof fn lemma_first_dot_is(a: u32, s: Seq<char>, p: int)
    requires
        s == ipv4_chars(a),
        0 <= p < s.len(),
        s[p] == '.',
        forall|i: int| 0 <= i < p ==> s[i] != '.',
    ensures
        p == dot1_pos(a),
{
    lemma_ipv4_chars_structure(a);
    if p < dot1_pos(a) {
        assert(is_digit(s[p]));
    }
    if dot1_pos(a) < p {
        assert(s[dot1_pos(a)] == '.');
    }
}

/// Likewise for the dot after the first.
proof fn lemma_second_dot_is(a: u32, s: Seq<char>, p: int)
    requires
        s == ipv4_chars(a),
        dot1_pos(a) < p < s.len(),
        s[p] == '.',
        forall|i: int| dot1_pos(a) < i < p ==> s[i] != '.',
    ensures
        p == dot2_pos(a),
{
    lemma_ipv4_chars_structure(a);
    if p < dot2_pos(a) {
        assert(is_digit(s[p]));
    }
    if dot2_pos(a) < p {
        assert(s[dot2_pos(a)] == '.');
    }
}

/// Likewise for the dot after the second.
proof fn lemma_third_dot_is(a: u32, s: Seq<char>, p: int)
    requires
        s == ipv4_chars(a),
        dot2_pos(a) < p < s.len(),
        s[p] == '.',
        forall|i: int| dot2_pos(a) < i < p ==> s[i] != '.',
    ensures
        p == dot3_pos(a),
{
    lemma_ipv4_chars_structure(a);
    if p < dot3_pos(a) {
        assert(is_digit(s[p]));
    }
    if dot3_pos(a) < p {
        assert(s[dot3_pos(a)] == '.');
    }
}

/// Parses a dotted-quad IPv4 address string into its 32-bit value. Accepted
/// are exactly the canonical forms that `format_ipv4` produces: four decimal
/// octets below 256, without extra leading zeros, separated by single dots.
#[verifier::rlimit(100)]
pub fn parse_ipv4(s: &str) -> (r: Option<u32>)
    ensures
        r matches Some(a) ==> s@ == ipv4_chars(a),
        r is None ==> forall|a: u32| s@ != ipv4_chars(a),
{
    let n = s.unicode_len();
    let p1 = match next_dot(s, 0) {
        Some(p) => p,
        None => {
            proof {
                assert forall|a: u32| s@ != ipv4_chars(a) by {
                    if s@ == ipv4_chars(a) {
                        lemma_ipv4_chars_structure(a);
                        assert(s@[dot1_pos(a)] == '.');
                    }
                }
            }
            return None;
        },
    };
    let o0 = match parse_octet(s, 0, p1) {
        Some(v) => v,
        None => {
            proof {
                assert forall|a: u32| s@ != ipv4_chars(a) by {
                    if s@ == ipv4_chars(a) {
                        lemma_ipv4_chars_structure(a);
                        lemma_first_dot_is(a, s@, p1 as int);
                        assert(s@.subrange(0, p1 as int) == dec_digits(oct0(a)));
                        assert(s@.subrange(0, p1 as int) != dec_digits(
                            (oct0(a) as u8) as nat,
                        ));
                    }
                }
            }
            return None;
        },
    };
    let p2 = match next_dot(s, p1 + 1) {
        Some(p) => p,
        None => {
            proof {
                assert forall|a: u32| s@ != ipv4_chars(a) by {
                    if s@ == ipv4_chars(a) {
                        lemma_ipv4_chars_structure(a);
                        lemma_first_dot_is(a, s@, p1 as int);
                        assert(s@[dot2_pos(a)] == '.');
                    }
                }
            }
            return None;
        },
    };
    let o1 = match parse_octet(s, p1 + 1, p2) {
        Some(v) => v,
        None => {
            proof {
                assert forall|a: u32| s@ != ipv4_chars(a) by {
                    if s@ == ipv4_chars(a) {
                        lemma_ipv4_chars_structure(a);
                        lemma_first_dot_is(a, s@, p1 as int);
                        lemma_second_dot_is(a, s@, p2 as int);
                        assert(s@.subrange(p1 as int + 1, p2 as int) == dec_digits(oct1(a)));
                        assert(s@.subrange(p1 as int + 1, p2 as int) != dec_digits(
                            (oct1(a) as u8) as nat,
                        ));
                    }
                }
            }
            return None;
        },
    };
    let p3 = match next_dot(s, p2 + 1) {
        Some(p) => p,
        None => {
            proof {
                assert forall|a: u32| s@ != ipv4_chars(a) by {
                    if s@ == ipv4_chars(a) {
                        lemma_ipv4_chars_structure(a);
                        lemma_first_dot_is(a, s@, p1 as int);
                        lemma_second_dot_is(a, s@, p2 as int);
                        assert(s@[dot3_pos(a)] == '.');
                    }
                }
            }
            return None;
        },
    };
    let o2 = match parse_octet(s, p2 + 1, p3) {
        Some(v) => v,
        None => {
            proof {
                assert forall|a: u32| s@ != ipv4_chars(a) by {
                    if s@ == ipv4_chars(a) {
                        lemma_ipv4_chars_structure(a);
                        lemma_first_dot_is(a, s@, p1 as int);
                        lemma_second_dot_is(a, s@, p2 as int);
                        lemma_third_dot_is(a, s@, p3 as int);
                        assert(s@.subrange(p2 as int + 1, p3 as int) == dec_digits(oct2(a)));
                        assert(s@.subrange(p2 as int + 1, p3 as int) != dec_digits(
                            (oct2(a) as u8) as nat,
                        ));
                    }
                }
            }
            return None;
        },
    };
    let o3 = match parse_octet(s, p3 + 1, n) {
        Some(v) => v,
        None => {
            proof {
                assert forall|a: u32| s@ != ipv4_chars(a) by {
                    if s@ == ipv4_chars(a) {
                        lemma_ipv4_chars_structure(a);
                        lemma_first_dot_is(a, s@, p1 as int);
                        lemma_second_dot_is(a, s@, p2 as int);
                        lemma_third_dot_is(a, s@, p3 as int);
                        assert(s@.subrange(p3 as int + 1, n as int) == dec_digits(oct3(a)));
                        assert(s@.subrange(p3 as int + 1, n as int) != dec_digits(
                            (oct3(a) as u8) as nat,
                        ));
                    }
                }
            }
            return None;
        },
    };
    let a = (o0 as u32) * 16777216 + (o1 as u32) * 65536 + (o2 as u32) * 256 + (o3 as u32);
    proof {
        lemma_octets_compose(o0 as nat, o1 as nat, o2 as nat, o3 as nat);
        lemma_ipv4_chars_structure(a);
        assert(s@ =~= s@.subrange(0, p1 as int) + seq![s@[p1 as int]] + s@.subrange(
            p1 as int + 1,
            p2 as int,
        ) + seq![s@[p2 as int]] + s@.subrange(p2 as int + 1, p3 as int) + seq![s@[p3 as int]]
            + s@.subrange(p3 as int + 1, n as int));
        assert(s@ =~= ipv4_chars(a));
    }
    Some(a)
}

/// Whether `s` holds a slash anywhere.
fn has_slash(s: &str) -> (r: bool)
    ensures
        r == s@.contains('/'),
{
    let n = s.unicode_len();
    let mut i: usize = 0;
    while i < n
        invariant
            i <= n,
            n == s@.len(),
            forall|k: int| 0 <= k < i ==> s@[k] != '/',
        decreases n - i,
    {
        if s.get_char(i) == '/' {
            return true;
        }
        i = i + 1;
    }
    proof {
        if s@.contains('/') {
            let j = choose|j: int| 0 <= j < s@.len() && s@[j] == '/';
            assert(s@[j] != '/');
        }
    }
    false
}

/// Whether a string is a bare IP address: an IPv4 dotted quad in canonical
/// form, or an IPv6 address — recognised through the subnet parser, a bare
/// address being a full-length network.
pub fn is_valid_ip(ip: &str) -> (r: bool)
    ensures
        r == ((exists|a: u32| ip@ == ipv4_chars(a)) || (!ip@.contains('/') && cidr_class(
            ip@,
        ) is V6)),
{
    match parse_ipv4(ip) {
        Some(v) => {
            proof {
                assert(ip@ == ipv4_chars(v));
            }
            true
        },
        None => {
            if has_slash(ip) {
                false
            } else {
                match parse_cidr(ip) {
                    CidrParse::V6 { .. } => true,
                    _ => false,
                }
            }
        },
    }
}

/// Whether an IPv4 address value lies in a range the system may fetch from:
/// loopback, the private ranges, or link-local.
pub open spec fn spec_v4_allowed(a: u32) -> bool {
    ||| oct0(a) == 127  // 127.0.0.0/8 loopback
    ||| oct0(a) == 10  // 10.0.0.0/8 private
    ||| 0xAC10_0000 <= a < 0xAC20_0000  // 172.16.0.0/12 private
    ||| 0xC0A8_0000 <= a < 0xC0A9_0000  // 192.168.0.0/16 private
    ||| 0xA9FE_0000 <= a < 0xA9FF_0000  // 169.254.0.0/16 link-local
}

/// Whether an IPv6 address value lies in such a range: loopback, unique
/// local, or link-local.
pub open spec fn spec_v6_allowed(n: u128) -> bool {
    ||| n == 1  // ::1 loopback
    ||| 0xfc000000000000000000000000000000u128 <= n
        < 0xfe000000000000000000000000000000u128  // fc00::/7 unique local
    ||| 0xfe800000000000000000000000000000u128 <= n
        < 0xfec00000000000000000000000000000u128  // fe80::/10 link-local
}

/// Validates an address before the system fetches from it, to prevent
/// server-side request forgery: only loopback, private-range and link-local
/// addresses pass, and nothing that is no bare IP address at all.
pub fn is_valid_ip_address(ip: &str) -> (r: bool)
    ensures
        forall|a: u32| ip@ == ipv4_chars(a) ==> r == spec_v4_allowed(a),
        ((forall|a: u32| ip@ != ipv4_chars(a)) && ip@.contains('/')) ==> !r,
        cidr_class(ip@) matches CidrParse::V6 { net, prefix } ==> (((forall|a: u32|
            ip@ != ipv4_chars(a)) && !ip@.contains('/')) ==> r == spec_v6_allowed(net)),
        ((forall|a: u32| ip@ != ipv4_chars(a)) && !(cidr_class(ip@) is V6)) ==> !r,
{
    match parse_ipv4(ip) {
        Some(v) => {
            let top = v / 16777216;
            let allowed = top == 127 || top == 10 || (0xAC10_0000 <= v && v < 0xAC20_0000) || (
            0xC0A8_0000 <= v && v < 0xC0A9_0000) || (0xA9FE_0000 <= v && v < 0xA9FF_0000);
            proof {
                assert forall|a: u32| ip@ == ipv4_chars(a) implies allowed == spec_v4_allowed(
                    a,
                ) by {
                    lemma_ipv4_chars_injective(a, v);
                }
            }
            allowed
        },
        None => {
            if has_slash(ip) {
                false
            } else {
                match parse_cidr(ip) {
                    CidrParse::V6 { net, prefix: _ } => {
                        net == 1 || (0xfc000000000000000000000000000000u128 <= net && net
                            < 0xfe000000000000000000000000000000u128) || (
                        0xfe800000000000000000000000000000u128 <= net && net
                            < 0xfec00000000000000000000000000000u128)
                    },
                    _ => false,
                }
            }
        },
    }
}

} // verus!
