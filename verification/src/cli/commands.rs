//! CLI command decisions: which jobs a command names, how a setting is
//! written, and how sizes are shown.

use vstd::prelude::*;
use crate::numeric::{
    decimal_repr, lemma_two_pow_monotone, parse_i64, spec_parse_i64, two_pow, u128_to_decimal,
    u64_to_decimal,
};
use crate::text::{chars_of, str_concat, owned, str_eq, string_from_chars};
use vstd::string::StringSliceAdditionalSpecFns;
use vstd::utf8::{encode_utf8, is_char_boundary};

verus! {

/// A command-line ID was not a job ID.
#[derive(Debug)]
pub struct InvalidId {
    /// The text given.
    pub text: String,
}

/// Which jobs a pause or resume command names.
#[derive(Debug, PartialEq, Eq, Structural)]
pub enum IdTarget {
    /// Every job (the word `all`).
    All,
    /// One job.
    Job(i64),
}

/// Read a job ID.
pub fn parse_job_id(id: &str) -> (r: Result<i64, InvalidId>)
    ensures
        match spec_parse_i64(id@) {
            Some(n) => r matches Ok(m) && m == n,
            None => r matches Err(e) && e.text@ == id@,
        },
{
    match parse_i64(id) {
        Some(n) => Ok(n),
        None => Err(InvalidId { text: owned(id) }),
    }
}

/// What a pause or resume argument names: all jobs for `all`, else one job
/// by its ID.
pub fn parse_target(id: &str) -> (r: Result<IdTarget, InvalidId>)
    ensures
        id@ == "all"@ ==> r == Ok::<IdTarget, InvalidId>(IdTarget::All),
        id@ != "all"@ ==> match spec_parse_i64(id@) {
            Some(n) => r == Ok::<IdTarget, InvalidId>(IdTarget::Job(n)),
            None => r matches Err(e) && e.text@ == id@,
        },
{
    if str_eq(id, "all") {
        return Ok(IdTarget::All);
    }
    match parse_job_id(id) {
        Ok(n) => Ok(IdTarget::Job(n)),
        Err(e) => Err(e),
    }
}

/// A `--set` value was not of the form `key=value`.
#[derive(Debug)]
pub struct InvalidAssignment;

/// Split `key=value` at its first `=`.
pub fn parse_assignment(kv: &str) -> (r: Result<(String, String), InvalidAssignment>)
    ensures
        (forall|i: int| 0 <= i < kv@.len() ==> kv@[i] != '=') ==> r is Err,
        r matches Ok(p) ==> (exists|i: int|
            0 <= i < kv@.len() && kv@[i] == '=' && (forall|j: int| 0 <= j < i ==> kv@[j] != '=')
                && p.0@ == kv@.subrange(0, i) && p.1@ == kv@.subrange(i + 1, kv@.len() as int)),
        (exists|i: int| 0 <= i < kv@.len() && kv@[i] == '=') ==> r is Ok,
{
    let v = chars_of(kv);
    let n = v.len();
    let mut i: usize = 0;
    while i < n && v[i] != '='
        invariant
            i <= n,
            n == v@.len(),
            v@ == kv@,
            forall|j: int| 0 <= j < i ==> v@[j] != '=',
        decreases n - i,
    {
        i = i + 1;
    }
    if i == n {
        return Err(InvalidAssignment);
    }
    let mut key: Vec<char> = Vec::new();
    for j in 0..i
        invariant
            i < n,
            n == v@.len(),
            key@ == v@.subrange(0, j as int),
    {
        key.push(v[j]);
        assert(v@.subrange(0, j + 1) =~= v@.subrange(0, j as int).push(v@[j as int]));
    }
    let mut value: Vec<char> = Vec::new();
    for j in i + 1..n
        invariant
            i < n,
            n == v@.len(),
            value@ == v@.subrange(i + 1, j as int),
    {
        value.push(v[j]);
        assert(v@.subrange(i + 1, j + 1) =~= v@.subrange(i + 1, j as int).push(v@[j as int]));
    }
    Ok((string_from_chars(&key), string_from_chars(&value)))
}

/// The size units, by powers of 1024.
pub open spec fn unit_name(k: nat) -> Seq<char> {
    if k == 0 {
        "B"@
    } else if k == 1 {
        "KB"@
    } else if k == 2 {
        "MB"@
    } else if k == 3 {
        "GB"@
    } else {
        "TB"@
    }
}

/// The unit a size is shown in: the largest power of 1024 (up to TB) that
/// does not exceed it.
pub open spec fn unit_index(b: nat) -> nat {
    if b >= two_pow(40) {
        4
    } else if b >= two_pow(30) {
        3
    } else if b >= two_pow(20) {
        2
    } else if b >= two_pow(10) {
        1
    } else {
        0
    }
}

/// The number of low bits that an `f64` loses on `b` (from `e` on).
pub open spec fn float_shift_from(b: nat, e: nat) -> nat
    decreases 11 - e,
{
    if e >= 11 || b < two_pow(53 + e) {
        e
    } else {
        float_shift_from(b, e + 1)
    }
}

/// The number of low bits that an `f64` loses on a `u64` `b`.
pub open spec fn float_shift(b: nat) -> nat {
    if b < two_pow(53) {
        0
    } else {
        float_shift_from(b, 1)
    }
}

/// `num / den` rounded to the nearest integer, ties to the even one.
pub open spec fn round_half_even(num: nat, den: nat) -> nat {
    let q = num / den;
    let r = num % den;
    if 2 * r > den {
        q + 1
    } else if 2 * r == den {
        q + q % 2
    } else {
        q
    }
}

/// The value of `b as f64`: `b` rounded to 53 significant bits, ties to even.
pub open spec fn f64_value(b: nat) -> nat {
    let e = float_shift(b);
    round_half_even(b, two_pow(e)) * two_pow(e)
}

/// A size in tenths of its unit, rounded as `{:.1}` rounds it.
pub open spec fn size_tenths(b: nat) -> nat {
    round_half_even(f64_value(b) * 10, two_pow(10 * unit_index(b)))
}

/// How a size is shown: `0 B`; a size under 1 KB in bytes; otherwise in the
/// largest unit it reaches (up to TB), with one decimal.
pub open spec fn spec_format_size(b: nat) -> Seq<char> {
    if b == 0 {
        "0 B"@
    } else if unit_index(b) == 0 {
        decimal_repr(b) + " B"@
    } else {
        let t = size_tenths(b);
        decimal_repr(t / 10) + "."@ + decimal_repr(t % 10) + " "@ + unit_name(unit_index(b))
    }
}

fn pow2(n: u32) -> (p: u128)
    requires
        n <= 64,
    ensures
        p == two_pow(n as nat),
{
    let mut p: u128 = 1;
    let mut i: u32 = 0;
    while i < n
        invariant
            i <= n <= 64,
            p == two_pow(i as nat),
        decreases n - i,
    {
        proof {
            lemma_two_pow_monotone((i + 1) as nat, 64);
            lemma_two_pow_64();
        }
        p = p * 2;
        i = i + 1;
    }
    p
}

fn round_half_even_exec(num: u128, den: u128) -> (r: u128)
    requires
        den > 0,
        num < 0x1_0000_0000_0000_0000_0000_0000,
    ensures
        r == round_half_even(num as nat, den as nat),
{
    let q = num / den;
    let r = num % den;
    if r > den - r {
        q + 1
    } else if r == den - r {
        q + q % 2
    } else {
        q
    }
}

fn unit_str(k: u32) -> (s: &'static str)
    ensures
        s@ == unit_name(k as nat),
{
    if k == 0 {
        "B"
    } else if k == 1 {
        "KB"
    } else if k == 2 {
        "MB"
    } else if k == 3 {
        "GB"
    } else {
        "TB"
    }
}

/// Format bytes as human-readable size.
#[verifier::spinoff_prover]
#[verifier::rlimit(40)]
pub fn format_size(bytes: u64) -> (s: String)
    ensures
        s@ == spec_format_size(bytes as nat),
{
    if bytes == 0 {
        return owned("0 B");
    }
    let b = bytes as u128;
    let mut k: u32 = 0;
    assert(two_pow(0) == 1);
    while k < 4 && b >= pow2(10 * (k + 1))
        invariant
            k <= 4,
            b == bytes,
            bytes >= two_pow((10 * k) as nat),
        decreases 4 - k,
    {
        k = k + 1;
    }
    proof {
        if k < 4 {
            assert(bytes < two_pow(10 * (k + 1) as nat));
        }
        lemma_two_pow_monotone(10, 20);
        lemma_two_pow_monotone(20, 30);
        lemma_two_pow_monotone(30, 40);
        if k == 0 {
            assert(bytes < two_pow(10));
        } else if k == 1 {
            assert(bytes < two_pow(20));
        } else if k == 2 {
            lemma_two_pow_monotone(20, 30);
            assert(bytes < two_pow(30));
        } else if k == 3 {
            assert(bytes < two_pow(40));
        }
        assert(k == unit_index(bytes as nat));
    }
    if k == 0 {
        let d = u64_to_decimal(bytes);
        return str_concat(d.as_str(), " B");
    }
    let mut e: u32 = 0;
    if b >= pow2(53) {
        e = 1;
        while e < 11 && b >= pow2(53 + e)
            invariant
                1 <= e <= 11,
                b == bytes,
                bytes >= two_pow(53),
                float_shift_from(bytes as nat, 1) == float_shift_from(bytes as nat, e as nat),
            decreases 11 - e,
        {
            e = e + 1;
        }
    }
    let p = pow2(e);
    proof {
        assert(e == float_shift(bytes as nat));
        lemma_two_pow_monotone(e as nat, 11);
        reveal_with_fuel(two_pow, 12);
        lemma_two_pow_64();
    }
    let m = round_half_even_exec(b, p);
    proof {
        let bi = bytes as int;
        let pi = p as int;
        let q = bi / pi;
        assert(m <= q + 1);
        assert(q * pi <= bi) by (nonlinear_arith)
            requires
                pi >= 1,
                bi >= 0,
                q == bi / pi,
        ;
        assert(m * pi <= bi + pi) by (nonlinear_arith)
            requires
                m <= q + 1,
                q * pi <= bi,
                pi >= 1,
                m >= 0,
        ;
    }
    let x = m * p;
    let den = pow2(10 * k);
    let t = round_half_even_exec(x * 10, den);
    let whole = u128_to_decimal(t / 10);
    let frac = u128_to_decimal(t % 10);
    let a = str_concat(whole.as_str(), ".");
    let a = str_concat(a.as_str(), frac.as_str());
    let a = str_concat(a.as_str(), " ");
    str_concat(a.as_str(), unit_str(k))
}

proof fn lemma_two_pow_64()
    ensures
        two_pow(64) == 0x1_0000_0000_0000_0000,
{
    reveal_with_fuel(two_pow, 65);
}

/// How the job list shows a URL: one longer than 48 bytes is cut to its
/// first 45 bytes, followed by `...`; a shorter one is shown whole. (Cutting
/// inside a character is refused, as slicing a `str` there is.)
pub fn url_display(url: &str) -> (r: String)
    requires
        url.spec_bytes().len() > 48 ==> is_char_boundary(url.spec_bytes(), 45),
    ensures
        url.spec_bytes().len() <= 48 ==> r@ == url@,
        url.spec_bytes().len() > 48 ==> exists|p: Seq<char>|
            #[trigger] encode_utf8(p) == url.spec_bytes().subrange(0, 45) && r@ == p + "..."@,
{
    if url.as_bytes().len() > 48 {
        let (head, _) = url.split_at(45);
        let r = str_concat(head, "...");
        assert(encode_utf8(head@) == url.spec_bytes().subrange(0, 45));
        assert(r@ == head@ + "..."@);
        r
    } else {
        owned(url)
    }
}

/// Whether a job of category `c` is listed when the listing asks for
/// `wanted`: every job where no category is asked for, else the jobs of that
/// category.
pub open spec fn in_category(c: Option<String>, wanted: Option<String>) -> bool {
    match wanted {
        None => true,
        Some(w) => c matches Some(x) && x@ == w@,
    }
}

/// The positions, in order, of the categories in `cats` that a listing
/// asking for `wanted` shows.
pub open spec fn category_positions(cats: Seq<Option<String>>, wanted: Option<String>) -> Seq<int>
    decreases cats.len(),
{
    if cats.len() == 0 {
        Seq::empty()
    } else if in_category(cats.last(), wanted) {
        category_positions(cats.drop_last(), wanted).push(cats.len() - 1)
    } else {
        category_positions(cats.drop_last(), wanted)
    }
}

/// The list command's category filter: of the jobs whose categories are
/// `categories`, the positions of those it shows, in order.
pub fn filter_by_category(categories: &Vec<Option<String>>, wanted: &Option<String>) -> (r: Vec<usize>)
    ensures
        r@.map_values(|i: usize| i as int) == category_positions(categories@, *wanted),
{
    let mut r: Vec<usize> = Vec::new();
    let n = categories.len();
    for i in 0..n
        invariant
            n == categories@.len(),
            r@.map_values(|i: usize| i as int) == category_positions(categories@.take(i as int), *wanted),
    {
        let ghost pre = categories@.take(i as int);
        assert(categories@.take(i + 1).drop_last() =~= pre);
        assert(categories@.take(i + 1).last() == categories@[i as int]);
        let shown = match wanted {
            None => true,
            Some(w) => match &categories[i] {
                Some(c) => str_eq(c.as_str(), w.as_str()),
                None => false,
            },
        };
        if shown {
            let ghost before = r@;
            r.push(i);
            assert(r@.map_values(|i: usize| i as int) =~= before.map_values(|i: usize| i as int).push(
                i as int,
            ));
        }
    }
    assert(categories@.take(n as int) =~= categories@);
    r
}

} // verus!
