//! Small verified helpers on character strings.

use vstd::prelude::*;

verus! {

/// Appends one character to a `String` (`String::push`).
#[verifier::external_body]
pub(crate) fn push_char(s: &mut String, c: char)
    ensures
        final(s)@ == old(s)@.push(c),
{
    s.push(c);
}

/// The characters of `s`, in order.
pub fn chars_of(s: &str) -> (v: Vec<char>)
    ensures
        v@ == s@,
{
    let mut v: Vec<char> = Vec::new();
    for c in it: s.chars()
        invariant
            v@ == it.seq().take(it.index() as int),
            it.seq() == s@,
    {
        v.push(c);
    }
    v
}


/// Whether two character sequences are equal.
pub fn chars_eq(a: &Vec<char>, b: &Vec<char>) -> (r: bool)
    ensures
        r == (a@ == b@),
{
    if a.len() != b.len() {
        return false;
    }
    let n = a.len();
    for i in 0..n
        invariant
            n == a@.len(),
            n == b@.len(),
            forall|j: int| 0 <= j < i ==> a@[j] == b@[j],
    {
        if a[i] != b[i] {
            return false;
        }
    }
    assert(a@ =~= b@);
    true
}

/// Whether two strings hold the same characters.
pub fn str_eq(a: &str, b: &str) -> (r: bool)
    ensures
        r == (a@ == b@),
{
    let va = chars_of(a);
    let vb = chars_of(b);
    chars_eq(&va, &vb)
}

/// Whether `s` begins with `prefix`.
pub fn starts_with(s: &str, prefix: &str) -> (r: bool)
    ensures
        r == (prefix@.len() <= s@.len() && s@.subrange(0, prefix@.len() as int) == prefix@),
{
    let vs = chars_of(s);
    let vp = chars_of(prefix);
    if vp.len() > vs.len() {
        return false;
    }
    let n = vp.len();
    for i in 0..n
        invariant
            n == vp@.len(),
            n <= vs@.len(),
            vs@ == s@,
            vp@ == prefix@,
            forall|j: int| 0 <= j < i ==> vs@[j] == vp@[j],
    {
        if vs[i] != vp[i] {
            assert(vs@.subrange(0, n as int)[i as int] == vs@[i as int]);
            return false;
        }
    }
    assert(vs@.subrange(0, n as int) =~= vp@);
    true
}

/// Whether `s` ends with `suffix`.
pub fn ends_with(s: &str, suffix: &str) -> (r: bool)
    ensures
        r == (suffix@.len() <= s@.len() && s@.subrange(s@.len() - suffix@.len(), s@.len() as int)
            == suffix@),
{
    let vs = chars_of(s);
    let vp = chars_of(suffix);
    if vp.len() > vs.len() {
        return false;
    }
    let n = vp.len();
    let off = vs.len() - n;
    for i in 0..n
        invariant
            n == vp@.len(),
            off + n == vs@.len(),
            off + n <= usize::MAX,
            vs@.len() == s@.len(),
            vp@.len() == suffix@.len(),
            vs@ == s@,
            vp@ == suffix@,
            forall|j: int| 0 <= j < i ==> vs@[off + j] == vp@[j],
    {
        if vs[off + i] != vp[i] {
            assert(vs@.subrange(off as int, vs@.len() as int)[i as int] == vs@[off + i]);
            return false;
        }
    }
    assert(vs@.subrange(off as int, vs@.len() as int) =~= vp@);
    true
}

/// A new `String` holding the characters of `v`.
pub fn string_from_chars(v: &Vec<char>) -> (s: String)
    ensures
        s@ == v@,
{
    let mut s = String::new();
    let n = v.len();
    for i in 0..n
        invariant
            n == v@.len(),
            s@ == v@.take(i as int),
    {
        push_char(&mut s, v[i]);
        assert(v@.take(i + 1) =~= v@.take(i as int).push(v@[i as int]));
    }
    assert(v@.take(n as int) =~= v@);
    s
}

/// A new `String` holding the characters of `s`.
pub fn owned(s: &str) -> (r: String)
    ensures
        r@ == s@,
{
    let v = chars_of(s);
    string_from_chars(&v)
}

/// The concatenation of `a` and `b`.
pub fn str_concat(a: &str, b: &str) -> (r: String)
    ensures
        r@ == a@ + b@,
{
    let mut r = owned(a);
    let vb = chars_of(b);
    let n = vb.len();
    for i in 0..n
        invariant
            n == vb@.len(),
            r@ == a@ + vb@.take(i as int),
    {
        push_char(&mut r, vb[i]);
        assert(vb@.take(i + 1) =~= vb@.take(i as int).push(vb@[i as int]));
        assert(a@ + vb@.take(i + 1) =~= (a@ + vb@.take(i as int)).push(vb@[i as int]));
    }
    assert(vb@.take(n as int) =~= b@);
    r
}

/// The ASCII lower-case form of a character; other characters are kept.
pub open spec fn ascii_lower_char(c: char) -> char {
    if 'A' <= c && c <= 'Z' {
        ((c as u32) + 32) as char
    } else {
        c
    }
}

/// Whether every character of `s` is ASCII.
pub open spec fn all_ascii(s: Seq<char>) -> bool {
    forall|i: int| 0 <= i < s.len() ==> (s[i] as u32) < 128
}

/// The ASCII lower-case form of each character of `s`.
pub open spec fn ascii_lower(s: Seq<char>) -> Seq<char> {
    Seq::new(s.len(), |i: int| ascii_lower_char(s[i]))
}

/// The ASCII upper-case form of a character; other characters are kept.
pub open spec fn ascii_upper_char(c: char) -> char {
    if 'a' <= c && c <= 'z' {
        ((c as u32) - 32) as char
    } else {
        c
    }
}

/// The ASCII upper-case form of each character of `s`.
pub open spec fn ascii_upper(s: Seq<char>) -> Seq<char> {
    Seq::new(s.len(), |i: int| ascii_upper_char(s[i]))
}

/// What `str::to_lowercase` returns for `s` (lower case in the sense of Unicode).
pub uninterp spec fn unicode_lowercase(s: Seq<char>) -> Seq<char>;

/// `str::to_lowercase`: the lower-case form of `s` in the sense of Unicode.
/// The contract names the result, and states one documented fact of it: on a
/// string of ASCII characters it maps `A`..`Z` to `a`..`z` and keeps the rest.
#[verifier::external_body]
pub(crate) fn to_lowercase(s: &str) -> (r: String)
    ensures
        r@ == unicode_lowercase(s@),
        all_ascii(s@) ==> r@ == ascii_lower(s@),
{
    s.to_lowercase()
}


/// A copy of an optional string.
pub fn clone_opt(o: &Option<String>) -> (r: Option<String>)
    ensures
        r == *o,
{
    match o {
        Some(s) => Some(s.clone()),
        None => None,
    }
}

/// A copy of a list of strings.
pub fn clone_strings(v: &Vec<String>) -> (r: Vec<String>)
    ensures
        r@ == v@,
{
    let mut r: Vec<String> = Vec::new();
    let n = v.len();
    for i in 0..n
        invariant
            n == v@.len(),
            r@ == v@.take(i as int),
    {
        r.push(v[i].clone());
        assert(v@.take(i + 1) =~= v@.take(i as int).push(v@[i as int]));
    }
    assert(v@.take(n as int) =~= v@);
    r
}

/// The characters of each string of a list.
pub open spec fn views(v: Seq<String>) -> Seq<Seq<char>> {
    v.map_values(|s: String| s@)
}

/// The characters of each string slice of a list.
pub open spec fn str_views(v: Seq<&str>) -> Seq<Seq<char>> {
    v.map_values(|s: &str| s@)
}

/// Owned copies of a list of string slices.
pub fn strings_of(v: &[&str]) -> (r: Vec<String>)
    ensures
        views(r@) == str_views(v@),
{
    let mut r: Vec<String> = Vec::new();
    let n = v.len();
    for i in 0..n
        invariant
            n == v@.len(),
            r@.len() == i,
            forall|j: int| 0 <= j < i ==> #[trigger] r@[j]@ == v@[j]@,
    {
        r.push(owned(v[i]));
    }
    assert(views(r@) =~= str_views(v@));
    r
}


/// The strings of `list` joined with `sep` between each two.
pub open spec fn seq_join(list: Seq<Seq<char>>, sep: Seq<char>) -> Seq<char>
    decreases list.len(),
{
    if list.len() == 0 {
        Seq::empty()
    } else if list.len() == 1 {
        list[0]
    } else {
        seq_join(list.drop_last(), sep) + sep + list.last()
    }
}

/// `list.join(sep)`.
pub fn join_strings(list: &Vec<String>, sep: &str) -> (r: String)
    ensures
        r@ == seq_join(views(list@), sep@),
{
    let mut r = String::new();
    let n = list.len();
    for i in 0..n
        invariant
            n == list@.len(),
            r@ == seq_join(views(list@.take(i as int)), sep@),
    {
        let ghost prev = views(list@.take(i as int));
        assert(views(list@.take(i + 1)) =~= prev.push(list@[i as int]@));
        assert(views(list@.take(i + 1)).drop_last() =~= prev);
        if i > 0 {
            r = str_concat(r.as_str(), sep);
        } else {
            assert(views(list@.take(1))[0] == list@[0]@);
        }
        r = str_concat(r.as_str(), list[i].as_str());
    }
    assert(list@.take(n as int) =~= list@);
    r
}

/// The characters of an optional string, or none where it is absent.
pub open spec fn or_empty(o: Option<String>) -> Seq<char> {
    match o {
        Some(s) => s@,
        None => Seq::empty(),
    }
}

/// `o.as_deref().unwrap_or("")`, owned.
pub fn owned_or_empty(o: &Option<String>) -> (r: String)
    ensures
        r@ == or_empty(*o),
{
    match o {
        Some(s) => owned(s.as_str()),
        None => String::new(),
    }
}


/// `s.replace(pat, rep)`: every occurrence of `pat`, found from left to right
/// without overlap, replaced by `rep` (an empty `pat` occurs before each
/// character and at the end).
pub open spec fn spec_replace(s: Seq<char>, pat: Seq<char>, rep: Seq<char>) -> Seq<char>
    decreases s.len(),
{
    if pat.len() == 0 {
        if s.len() == 0 {
            rep
        } else {
            rep + seq![s[0]] + spec_replace(s.drop_first(), pat, rep)
        }
    } else if s.len() < pat.len() {
        s
    } else if s.subrange(0, pat.len() as int) == pat {
        rep + spec_replace(s.skip(pat.len() as int), pat, rep)
    } else {
        seq![s[0]] + spec_replace(s.drop_first(), pat, rep)
    }
}

/// Whether `p` occurs in `v` at index `i`.
pub fn occurs_at(v: &Vec<char>, p: &Vec<char>, i: usize) -> (r: bool)
    requires
        i <= v@.len(),
    ensures
        r == (i + p@.len() <= v@.len() && v@.subrange(i as int, i + p@.len()) == p@),
{
    if p.len() > v.len() - i {
        return false;
    }
    let m = p.len();
    for k in 0..m
        invariant
            m == p@.len(),
            i + m <= v@.len(),
            i + m <= usize::MAX,
            forall|j: int| 0 <= j < k ==> v@[i + j] == p@[j],
    {
        if v[i + k] != p[k] {
            assert(v@.subrange(i as int, i + m)[k as int] == v@[i + k]);
            return false;
        }
    }
    assert(v@.subrange(i as int, i + m) =~= p@);
    true
}

fn push_all(out: &mut Vec<char>, v: &Vec<char>)
    ensures
        final(out)@ == old(out)@ + v@,
{
    let ghost start = out@;
    let n = v.len();
    for i in 0..n
        invariant
            n == v@.len(),
            out@ == start + v@.take(i as int),
    {
        out.push(v[i]);
        assert(v@.take(i + 1) =~= v@.take(i as int).push(v@[i as int]));
        assert(start + v@.take(i + 1) =~= (start + v@.take(i as int)).push(v@[i as int]));
    }
    assert(v@.take(n as int) =~= v@);
}

/// `s.replace(pat, rep)`.
pub fn replace_all(s: &str, pat: &str, rep: &str) -> (r: String)
    ensures
        r@ == spec_replace(s@, pat@, rep@),
{
    let v = chars_of(s);
    let p = chars_of(pat);
    let rv = chars_of(rep);
    let n = v.len();
    let m = p.len();
    let mut out: Vec<char> = Vec::new();
    let mut i: usize = 0;
    assert(v@.skip(0) =~= v@);
    while i < n
        invariant
            n == v@.len(),
            m == p@.len(),
            v@ == s@,
            p@ == pat@,
            rv@ == rep@,
            i <= n,
            out@ + spec_replace(v@.skip(i as int), p@, rv@) == spec_replace(v@, p@, rv@),
        decreases n - i,
    {
        let ghost rest = v@.skip(i as int);
        if m == 0 {
            assert(rest.drop_first() =~= v@.skip(i + 1));
            assert(rest[0] == v@[i as int]);
            let ghost before = out@;
            push_all(&mut out, &rv);
            out.push(v[i]);
            assert(out@ + spec_replace(v@.skip(i + 1), p@, rv@) =~= before + spec_replace(
                rest,
                p@,
                rv@,
            ));
            i = i + 1;
        } else if occurs_at(&v, &p, i) {
            assert(rest.subrange(0, m as int) =~= v@.subrange(i as int, i + m));
            assert(rest.skip(m as int) =~= v@.skip(i + m));
            let ghost before = out@;
            push_all(&mut out, &rv);
            assert(out@ + spec_replace(v@.skip(i + m), p@, rv@) =~= before + spec_replace(
                rest,
                p@,
                rv@,
            ));
            i = i + m;
        } else if m > n - i {
            let ghost before = out@;
            let mut j = i;
            while j < n
                invariant
                    i <= j <= n,
                    n == v@.len(),
                    out@ == before + v@.subrange(i as int, j as int),
                decreases n - j,
            {
                out.push(v[j]);
                assert(v@.subrange(i as int, j + 1) =~= v@.subrange(i as int, j as int).push(
                    v@[j as int],
                ));
                j = j + 1;
            }
            assert(v@.subrange(i as int, n as int) =~= rest);
            assert(v@.skip(n as int) =~= Seq::<char>::empty());
            assert(spec_replace(v@.skip(n as int), p@, rv@) =~= Seq::<char>::empty());
            assert(out@ + spec_replace(v@.skip(n as int), p@, rv@) =~= before + rest);
            i = n;
        } else {
            assert(rest.subrange(0, m as int) =~= v@.subrange(i as int, i + m));
            assert(rest.drop_first() =~= v@.skip(i + 1));
            assert(rest[0] == v@[i as int]);
            let ghost before = out@;
            out.push(v[i]);
            assert(out@ + spec_replace(v@.skip(i + 1), p@, rv@) =~= before + spec_replace(
                rest,
                p@,
                rv@,
            ));
            i = i + 1;
        }
    }
    assert(v@.skip(n as int) =~= Seq::<char>::empty());
    if m == 0 {
        let ghost before = out@;
        push_all(&mut out, &rv);
        assert(spec_replace(v@.skip(n as int), p@, rv@) == rv@);
    } else {
        assert(spec_replace(v@.skip(n as int), p@, rv@) =~= Seq::<char>::empty());
        assert(out@ + Seq::<char>::empty() =~= out@);
    }
    string_from_chars(&out)
}

} // verus!
