//! Decimal numbers written as text: parsing them as the standard library's
//! `FromStr` impls for integers do, and writing them as `Display` does.

use vstd::prelude::*;
use crate::text::{chars_of, push_char};

verus! {

/// Whether `c` is an ASCII decimal digit.
pub open spec fn is_digit(c: char) -> bool {
    '0' <= c && c <= '9'
}

/// The value of a decimal digit.
pub open spec fn digit_value(c: char) -> nat {
    ((c as int) - ('0' as int)) as nat
}

/// Whether every character of `s` is a decimal digit.
pub open spec fn all_digits(s: Seq<char>) -> bool {
    forall|i: int| 0 <= i < s.len() ==> is_digit(#[trigger] s[i])
}

/// The number that a string of decimal digits denotes.
pub open spec fn decimal_value(s: Seq<char>) -> nat
    decreases s.len(),
{
    if s.len() == 0 {
        0
    } else {
        decimal_value(s.drop_last()) * 10 + digit_value(s.last())
    }
}

/// The magnitude that `s` denotes as an unsigned number: digits, optionally
/// after one `+`, at least one of them.
pub open spec fn unsigned_magnitude(s: Seq<char>) -> Option<nat> {
    let body = if s.len() > 0 && s[0] == '+' {
        s.drop_first()
    } else {
        s
    };
    if body.len() > 0 && all_digits(body) {
        Some(decimal_value(body))
    } else {
        None
    }
}

/// What `s.parse::<u64>()` gives, `None` standing for its error.
pub open spec fn spec_parse_u64(s: Seq<char>) -> Option<u64> {
    match unsigned_magnitude(s) {
        Some(v) => if v <= u64::MAX {
            Some(v as u64)
        } else {
            None
        },
        None => None,
    }
}

/// What `s.parse::<u16>()` gives, `None` standing for its error.
pub open spec fn spec_parse_u16(s: Seq<char>) -> Option<u16> {
    match unsigned_magnitude(s) {
        Some(v) => if v <= u16::MAX {
            Some(v as u16)
        } else {
            None
        },
        None => None,
    }
}

/// What `s.parse::<i64>()` gives, `None` standing for its error: digits,
/// optionally after one `+` or `-`, within the range of `i64`.
pub open spec fn spec_parse_i64(s: Seq<char>) -> Option<i64> {
    if s.len() > 0 && s[0] == '-' {
        let body = s.drop_first();
        if body.len() > 0 && all_digits(body) && decimal_value(body) <= 0x8000_0000_0000_0000 {
            Some((-(decimal_value(body) as int)) as i64)
        } else {
            None
        }
    } else {
        match unsigned_magnitude(s) {
            Some(v) => if v <= i64::MAX {
                Some(v as i64)
            } else {
                None
            },
            None => None,
        }
    }
}

proof fn lemma_decimal_value_grows(s: Seq<char>, k: int)
    requires
        all_digits(s),
        0 <= k <= s.len(),
    ensures
        decimal_value(s.subrange(0, k)) <= decimal_value(s),
    decreases s.len() - k,
{
    if k < s.len() {
        lemma_decimal_value_grows(s, k + 1);
        assert(s.subrange(0, k + 1).drop_last() =~= s.subrange(0, k));
    } else {
        assert(s.subrange(0, k) =~= s);
    }
}

/// Reads the digits of `v` from index `start` to its end: their value, or
/// `None` where there are none, one is not a digit, or the value exceeds
/// `u64::MAX`.
pub(crate) fn digits_from(v: &Vec<char>, start: usize) -> (r: Option<u64>)
    requires
        start <= v@.len(),
    ensures
        ({
            let body = v@.subrange(start as int, v@.len() as int);
            r == (if body.len() > 0 && all_digits(body) && decimal_value(body) <= u64::MAX {
                Some(decimal_value(body) as u64)
            } else {
                None
            })
        }),
{
    let n = v.len();
    let ghost body = v@.subrange(start as int, n as int);
    if start == n {
        return None;
    }
    let mut acc: u64 = 0;
    let mut i = start;
    while i < n
        invariant
            start <= i <= n,
            n == v@.len(),
            body == v@.subrange(start as int, n as int),
            all_digits(body.subrange(0, i - start)),
            acc == decimal_value(body.subrange(0, i - start)),
        decreases n - i,
    {
        let c = v[i];
        let ghost k = i - start;
        assert(body[k] == c);
        if !('0' <= c && c <= '9') {
            return None;
        }
        let d = (c as u32 - '0' as u32) as u64;
        assert(body.subrange(0, k + 1).drop_last() =~= body.subrange(0, k));
        assert(body.subrange(0, k + 1).last() == c);
        assert(all_digits(body.subrange(0, k + 1)));
        let next = match acc.checked_mul(10) {
            Some(m) => m.checked_add(d),
            None => None,
        };
        match next {
            Some(x) => {
                acc = x;
            },
            None => {
                proof {
                    assert(decimal_value(body.subrange(0, k + 1)) == acc * 10 + d);
                    if all_digits(body) {
                        lemma_decimal_value_grows(body, k + 1);
                    }
                }
                return None;
            },
        }
        i = i + 1;
    }
    assert(body.subrange(0, n - start) =~= body);
    Some(acc)
}


/// `s.parse::<u64>()`, `None` standing for its error.
pub fn parse_u64(s: &str) -> (r: Option<u64>)
    ensures
        r == spec_parse_u64(s@),
{
    let v = chars_of(s);
    let start: usize = if v.len() > 0 && v[0] == '+' {
        1
    } else {
        0
    };
    proof {
        if start == 1 {
            assert(s@.drop_first() =~= v@.subrange(1, v@.len() as int));
        } else {
            assert(s@ =~= v@.subrange(0, v@.len() as int));
        }
    }
    digits_from(&v, start)
}

/// `s.parse::<u16>()`, `None` standing for its error.
pub fn parse_u16(s: &str) -> (r: Option<u16>)
    ensures
        r == spec_parse_u16(s@),
{
    let v = chars_of(s);
    let start: usize = if v.len() > 0 && v[0] == '+' {
        1
    } else {
        0
    };
    proof {
        if start == 1 {
            assert(s@.drop_first() =~= v@.subrange(1, v@.len() as int));
        } else {
            assert(s@ =~= v@.subrange(0, v@.len() as int));
        }
    }
    match digits_from(&v, start) {
        Some(x) => if x <= 0xffff {
            Some(x as u16)
        } else {
            None
        },
        None => None,
    }
}

/// `s.parse::<i64>()`, `None` standing for its error.
pub fn parse_i64(s: &str) -> (r: Option<i64>)
    ensures
        r == spec_parse_i64(s@),
{
    let v = chars_of(s);
    if v.len() > 0 && v[0] == '-' {
        proof {
            assert(s@.drop_first() =~= v@.subrange(1, v@.len() as int));
        }
        match digits_from(&v, 1) {
            Some(m) => if m < 0x8000_0000_0000_0000 {
                Some(-(m as i64))
            } else if m == 0x8000_0000_0000_0000 {
                Some(i64::MIN)
            } else {
                None
            },
            None => None,
        }
    } else {
        let start: usize = if v.len() > 0 && v[0] == '+' {
            1
        } else {
            0
        };
        proof {
            if start == 1 {
                assert(s@.drop_first() =~= v@.subrange(1, v@.len() as int));
            } else {
                assert(s@ =~= v@.subrange(0, v@.len() as int));
            }
        }
        match digits_from(&v, start) {
            Some(x) => if x <= 0x7fff_ffff_ffff_ffff {
                Some(x as i64)
            } else {
                None
            },
            None => None,
        }
    }
}

/// The digit character for a value below ten.
pub open spec fn digit_char(d: nat) -> char {
    (('0' as int) + d) as char
}

/// How `Display` writes a natural number in decimal.
pub open spec fn decimal_repr(n: nat) -> Seq<char>
    decreases n,
{
    if n < 10 {
        seq![digit_char(n)]
    } else {
        decimal_repr(n / 10).push(digit_char(n % 10))
    }
}

/// How `Display` writes an `i64` in decimal.
pub open spec fn signed_repr(n: int) -> Seq<char> {
    if n < 0 {
        seq!['-'] + decimal_repr((-n) as nat)
    } else {
        decimal_repr(n as nat)
    }
}

fn digit(d: u64) -> (c: char)
    requires
        d < 10,
    ensures
        c == digit_char(d as nat),
{
    match d {
        0 => '0',
        1 => '1',
        2 => '2',
        3 => '3',
        4 => '4',
        5 => '5',
        6 => '6',
        7 => '7',
        8 => '8',
        _ => '9',
    }
}

/// `n.to_string()` for a `u64`.
pub fn u64_to_decimal(n: u64) -> (s: String)
    ensures
        s@ == decimal_repr(n as nat),
    decreases n,
{
    if n < 10 {
        let mut s = String::new();
        push_char(&mut s, digit(n));
        assert(s@ =~= seq![digit_char(n as nat)]);
        s
    } else {
        let mut s = u64_to_decimal(n / 10);
        push_char(&mut s, digit(n % 10));
        s
    }
}

/// `n.to_string()` for a `u128`.
pub fn u128_to_decimal(n: u128) -> (s: String)
    ensures
        s@ == decimal_repr(n as nat),
    decreases n,
{
    if n < 10 {
        let mut s = String::new();
        push_char(&mut s, digit(n as u64));
        assert(s@ =~= seq![digit_char(n as nat)]);
        s
    } else {
        let mut s = u128_to_decimal(n / 10);
        push_char(&mut s, digit((n % 10) as u64));
        s
    }
}

/// `n.to_string()` for an `i64`.
pub fn i64_to_decimal(n: i64) -> (s: String)
    ensures
        s@ == signed_repr(n as int),
{
    if n < 0 {
        let m: u64 = if n == i64::MIN {
            0x8000_0000_0000_0000
        } else {
            (-n) as u64
        };
        let digits = u64_to_decimal(m);
        let mut s = String::new();
        push_char(&mut s, '-');
        let d = chars_of(digits.as_str());
        let k = d.len();
        for i in 0..k
            invariant
                k == d@.len(),
                d@ == decimal_repr(m as nat),
                s@ == seq!['-'] + d@.take(i as int),
        {
            push_char(&mut s, d[i]);
            assert(d@.take(i + 1) =~= d@.take(i as int).push(d@[i as int]));
            assert(seq!['-'] + d@.take(i + 1) =~= (seq!['-'] + d@.take(i as int)).push(
                d@[i as int],
            ));
        }
        assert(d@.take(k as int) =~= d@);
        s
    } else {
        u64_to_decimal(n as u64)
    }
}

proof fn lemma_decimal_repr_reads_back(n: nat)
    ensures
        decimal_repr(n).len() > 0,
        all_digits(decimal_repr(n)),
        decimal_value(decimal_repr(n)) == n,
    decreases n,
{
    if n < 10 {
        let r = decimal_repr(n);
        assert(r.drop_last() =~= Seq::<char>::empty());
        assert(digit_value(digit_char(n)) == n);
        assert(r.last() == digit_char(n));
        assert(decimal_value(r) == decimal_value(r.drop_last()) * 10 + digit_value(r.last()));
        assert(decimal_value(Seq::<char>::empty()) == 0);
    } else {
        lemma_decimal_repr_reads_back(n / 10);
        let r = decimal_repr(n);
        assert(r.drop_last() =~= decimal_repr(n / 10));
        assert(digit_value(digit_char(n % 10)) == n % 10);
        assert((n / 10) * 10 + n % 10 == n) by {
            vstd::arithmetic::div_mod::lemma_fundamental_div_mod(n as int, 10);
        }
        assert(r.last() == digit_char(n % 10));
        assert(decimal_value(r) == decimal_value(r.drop_last()) * 10 + digit_value(r.last()));
        assert forall|i: int| 0 <= i < r.len() implies is_digit(#[trigger] r[i]) by {
            if i < r.len() - 1 {
                assert(r[i] == decimal_repr(n / 10)[i]);
            }
        }
    }
}

/// What `to_string` writes for a `u64`, `parse::<u64>` reads back.
pub proof fn lemma_u64_round_trip(n: u64)
    ensures
        spec_parse_u64(decimal_repr(n as nat)) == Some(n),
{
    lemma_decimal_repr_reads_back(n as nat);
}

/// What `to_string` writes for an `i64`, `parse::<i64>` reads back.
pub proof fn lemma_i64_round_trip(n: i64)
    ensures
        spec_parse_i64(signed_repr(n as int)) == Some(n),
{
    if n < 0 {
        let m = (-(n as int)) as nat;
        lemma_decimal_repr_reads_back(m);
        let r = signed_repr(n as int);
        assert(r.drop_first() =~= decimal_repr(m));
    } else {
        lemma_decimal_repr_reads_back(n as nat);
    }
}

/// Two to the power `n`.
pub open spec fn two_pow(n: nat) -> nat
    decreases n,
{
    if n == 0 {
        1
    } else {
        2 * two_pow((n - 1) as nat)
    }
}

pub proof fn lemma_two_pow_monotone(a: nat, b: nat)
    requires
        a <= b,
    ensures
        two_pow(a) <= two_pow(b),
    decreases b,
{
    if a < b {
        lemma_two_pow_monotone(a, (b - 1) as nat);
    }
}

pub proof fn lemma_two_pow_32()
    ensures
        two_pow(32) == 0x1_0000_0000,
{
    reveal_with_fuel(two_pow, 33);
}

} // verus!
