//! Paths written as text, read as `std::path::Path` reads them on Unix: the
//! file name, its extension, replacing the extension, joining, comparing by
//! components, and expanding a leading `~`.

use vstd::prelude::*;
use crate::text::{chars_eq, chars_of, push_char, string_from_chars};

verus! {

/// Where the segment ending at `end` starts: just after the last `/` before
/// `end`, or at 0.
pub open spec fn seg_start(s: Seq<char>, end: int) -> int
    decreases end,
{
    if end <= 0 {
        0
    } else if s[end - 1] == '/' {
        end
    } else {
        seg_start(s, end - 1)
    }
}

/// Whether a segment is one that the components of a path skip (empty, or `.`).
pub open spec fn skipped(seg: Seq<char>) -> bool {
    seg.len() == 0 || seg == "."@
}

proof fn lemma_seg_start_bounds(s: Seq<char>, end: int)
    requires
        0 <= end <= s.len(),
    ensures
        0 <= seg_start(s, end) <= end,
        seg_start(s, end) > 0 ==> s[seg_start(s, end) - 1] == '/',
        forall|i: int| seg_start(s, end) <= i < end ==> s[i] != '/',
    decreases end,
{
    if end > 0 && s[end - 1] != '/' {
        lemma_seg_start_bounds(s, end - 1);
    }
}

/// The bounds of the last segment, among those that end at or before `end`,
/// that the components of the path keep.
pub open spec fn last_seg(s: Seq<char>, end: int) -> Option<(int, int)>
    decreases end,
{
    if end <= 0 {
        None
    } else {
        let st = seg_start(s, end);
        if st < 0 || st > end {
            None
        } else if skipped(s.subrange(st, end)) {
            if st == 0 {
                None
            } else {
                last_seg(s, st - 1)
            }
        } else {
            Some((st, end))
        }
    }
}

/// `Path::file_name`: the last component of the path, if it is a name.
pub open spec fn spec_file_name(s: Seq<char>) -> Option<Seq<char>> {
    match last_seg(s, s.len() as int) {
        Some((a, b)) => if s.subrange(a, b) == ".."@ {
            None
        } else {
            Some(s.subrange(a, b))
        },
        None => None,
    }
}

/// The index of the last `.` of `n`, if any.
pub open spec fn last_dot(n: Seq<char>) -> Option<int>
    decreases n.len(),
{
    if n.len() == 0 {
        None
    } else if n.last() == '.' {
        Some(n.len() - 1)
    } else {
        last_dot(n.drop_last())
    }
}

/// The extension of a file name: what follows its last `.`, unless that
/// `.` is its first character or there is none.
pub open spec fn name_extension(n: Seq<char>) -> Option<Seq<char>> {
    match last_dot(n) {
        Some(i) => if i > 0 {
            Some(n.subrange(i + 1, n.len() as int))
        } else {
            None
        },
        None => None,
    }
}

/// The stem of a file name: the name without its extension and its `.`.
pub open spec fn name_stem(n: Seq<char>) -> Seq<char> {
    match last_dot(n) {
        Some(i) => if i > 0 {
            n.subrange(0, i)
        } else {
            n
        },
        None => n,
    }
}

/// `Path::extension`.
pub open spec fn spec_extension(s: Seq<char>) -> Option<Seq<char>> {
    match spec_file_name(s) {
        Some(n) => name_extension(n),
        None => None,
    }
}

/// `Path::with_extension(ext)`: the path cut just after the stem of its file
/// name, with `.` and `ext` appended where `ext` is not empty; unchanged where
/// the path has no file name.
pub open spec fn spec_with_extension(s: Seq<char>, ext: Seq<char>) -> Seq<char> {
    match last_seg(s, s.len() as int) {
        Some((a, b)) => if s.subrange(a, b) == ".."@ {
            s
        } else {
            let cut = s.subrange(0, a) + name_stem(s.subrange(a, b));
            if ext.len() == 0 {
                cut
            } else {
                cut + seq!['.'] + ext
            }
        },
        None => s,
    }
}

/// `Path::join(rel)` (`PathBuf::push`): an absolute `rel` replaces the path;
/// otherwise `rel` is appended, after a `/` unless the path is empty or
/// already ends with one.
pub open spec fn spec_join(base: Seq<char>, rel: Seq<char>) -> Seq<char> {
    if rel.len() > 0 && rel[0] == '/' {
        rel
    } else if base.len() == 0 || base.last() == '/' {
        base + rel
    } else {
        base + seq!['/'] + rel
    }
}

/// The kept segments of the path up to `end`, last first.
pub open spec fn rev_segments(s: Seq<char>, end: int) -> Seq<Seq<char>>
    decreases end,
{
    if end <= 0 {
        Seq::empty()
    } else {
        let st = seg_start(s, end);
        if st < 0 || st > end {
            Seq::empty()
        } else {
            let rest = if st == 0 {
                Seq::empty()
            } else {
                rev_segments(s, st - 1)
            };
            if skipped(s.subrange(st, end)) {
                rest
            } else {
                seq![s.subrange(st, end)] + rest
            }
        }
    }
}

/// What comes before the named components of a path: the root for an absolute
/// path, a leading `.` for a relative path that starts with one, else nothing.
pub open spec fn path_head(s: Seq<char>) -> int {
    if s.len() > 0 && s[0] == '/' {
        1
    } else if s.len() > 0 && s[0] == '.' && (s.len() == 1 || s[1] == '/') {
        2
    } else {
        0
    }
}

/// Whether two paths have the same components (as `Path`'s `==` compares them).
pub open spec fn same_components(a: Seq<char>, b: Seq<char>) -> bool {
    path_head(a) == path_head(b) && rev_segments(a, a.len() as int) == rev_segments(
        b,
        b.len() as int,
    )
}

/// The start of the segment that ends at `end`.
fn find_seg_start(v: &Vec<char>, end: usize) -> (st: usize)
    requires
        end <= v@.len(),
    ensures
        st == seg_start(v@, end as int),
        st <= end,
{
    let mut j = end;
    while j > 0 && v[j - 1] != '/'
        invariant
            j <= end <= v@.len(),
            seg_start(v@, end as int) == seg_start(v@, j as int),
        decreases j,
    {
        j = j - 1;
    }
    j
}

/// The bounds of the last kept segment of `v`.
fn name_range(v: &Vec<char>) -> (r: Option<(usize, usize)>)
    ensures
        match last_seg(v@, v@.len() as int) {
            Some((a, b)) => r matches Some((x, y)) && x == a && y == b && x <= y <= v@.len(),
            None => r is None,
        },
{
    let mut end = v.len();
    loop
        invariant
            end <= v@.len(),
            last_seg(v@, v@.len() as int) == last_seg(v@, end as int),
        decreases end,
    {
        if end == 0 {
            return None;
        }
        let st = find_seg_start(v, end);
        let is_skipped = st == end || (end - st == 1 && v[st] == '.');
        proof {
            lemma_seg_start_bounds(v@, end as int);
            let seg = v@.subrange(st as int, end as int);
            if end - st == 1 {
                assert(seg.len() == 1 && seg[0] == v@[st as int]);
                reveal_strlit(".");
                assert(("."@).len() == 1 && ("."@)[0] == '.');
                if v@[st as int] == '.' {
                    assert(seg =~= "."@);
                }
                assert((seg == "."@) <==> (v@[st as int] == '.'));
            } else if st != end {
                reveal_strlit(".");
                assert(seg.len() != ("."@).len());
            }
            assert(is_skipped == skipped(seg));
        }
        if is_skipped {
            if st == 0 {
                return None;
            }
            end = st - 1;
        } else {
            return Some((st, end));
        }
    }
}

/// Whether `v[a..b]` is `..`.
fn is_dot_dot(v: &Vec<char>, a: usize, b: usize) -> (r: bool)
    requires
        a <= b <= v@.len(),
    ensures
        r == (v@.subrange(a as int, b as int) == ".."@),
{
    proof {
        reveal_strlit("..");
    }
    let r = b - a == 2 && v[a] == '.' && v[a + 1] == '.';
    proof {
        let seg = v@.subrange(a as int, b as int);
        if r {
            assert(seg =~= ".."@);
        } else if seg.len() == 2 {
            assert(seg[0] == v@[a as int] && seg[1] == v@[a + 1]);
        }
    }
    r
}

/// The characters `v[a..b]` as a new vector.
fn slice_chars(v: &Vec<char>, a: usize, b: usize) -> (r: Vec<char>)
    requires
        a <= b <= v@.len(),
    ensures
        r@ == v@.subrange(a as int, b as int),
{
    let mut r: Vec<char> = Vec::new();
    for i in a..b
        invariant
            b <= v@.len(),
            r@ == v@.subrange(a as int, i as int),
    {
        r.push(v[i]);
        assert(v@.subrange(a as int, i + 1) =~= v@.subrange(a as int, i as int).push(v@[i as int]));
    }
    r
}

/// `Path::file_name`.
pub fn file_name(p: &str) -> (r: Option<String>)
    ensures
        match spec_file_name(p@) {
            Some(n) => r matches Some(s) && s@ == n,
            None => r is None,
        },
{
    let v = chars_of(p);
    match name_range(&v) {
        Some((a, b)) => {
            if is_dot_dot(&v, a, b) {
                None
            } else {
                let c = slice_chars(&v, a, b);
                Some(string_from_chars(&c))
            }
        },
        None => None,
    }
}

/// The index of the last `.` of `n`.
fn find_last_dot(n: &Vec<char>) -> (r: Option<usize>)
    ensures
        match last_dot(n@) {
            Some(i) => r == Some(i as usize) && 0 <= i < n@.len(),
            None => r is None,
        },
{
    let mut i = n.len();
    assert(n@.take(i as int) =~= n@);
    while i > 0
        invariant
            i <= n@.len(),
            last_dot(n@) == last_dot(n@.take(i as int)),
        decreases i,
    {
        assert(n@.take(i as int).drop_last() =~= n@.take(i - 1));
        if n[i - 1] == '.' {
            return Some(i - 1);
        }
        i = i - 1;
    }
    None
}

/// `Path::extension`.
pub fn extension(p: &str) -> (r: Option<String>)
    ensures
        match spec_extension(p@) {
            Some(e) => r matches Some(s) && s@ == e,
            None => r is None,
        },
{
    let v = chars_of(p);
    match name_range(&v) {
        Some((a, b)) => {
            if is_dot_dot(&v, a, b) {
                return None;
            }
            let name = slice_chars(&v, a, b);
            match find_last_dot(&name) {
                Some(i) => {
                    if i > 0 {
                        let e = slice_chars(&name, i + 1, name.len());
                        Some(string_from_chars(&e))
                    } else {
                        None
                    }
                },
                None => None,
            }
        },
        None => None,
    }
}

/// `Path::file_stem`: the file name without its extension.
pub open spec fn spec_file_stem(s: Seq<char>) -> Option<Seq<char>> {
    match spec_file_name(s) {
        Some(n) => Some(name_stem(n)),
        None => None,
    }
}

/// `Path::file_stem`.
pub fn file_stem(p: &str) -> (r: Option<String>)
    ensures
        match spec_file_stem(p@) {
            Some(n) => r matches Some(s) && s@ == n,
            None => r is None,
        },
{
    let v = chars_of(p);
    match name_range(&v) {
        Some((a, b)) => {
            if is_dot_dot(&v, a, b) {
                return None;
            }
            let name = slice_chars(&v, a, b);
            let stem_len = match find_last_dot(&name) {
                Some(i) => if i > 0 {
                    i
                } else {
                    name.len()
                },
                None => name.len(),
            };
            let stem = slice_chars(&name, 0, stem_len);
            assert(name_stem(name@) =~= stem@);
            Some(string_from_chars(&stem))
        },
        None => None,
    }
}

/// `Path::with_extension`.
pub fn with_extension(p: &str, ext: &str) -> (r: String)
    ensures
        r@ == spec_with_extension(p@, ext@),
{
    let v = chars_of(p);
    match name_range(&v) {
        Some((a, b)) => {
            if is_dot_dot(&v, a, b) {
                return string_from_chars(&v);
            }
            let name = slice_chars(&v, a, b);
            let stem_len = match find_last_dot(&name) {
                Some(i) => if i > 0 {
                    i
                } else {
                    name.len()
                },
                None => name.len(),
            };
            let mut out = slice_chars(&v, 0, a + stem_len);
            proof {
                let n = v@.subrange(a as int, b as int);
                assert(name_stem(n) =~= n.subrange(0, stem_len as int));
                assert(v@.subrange(0, a + stem_len) =~= v@.subrange(0, a as int) + name_stem(n));
            }
            let e = chars_of(ext);
            if e.len() > 0 {
                out.push('.');
                let ghost base = out@;
                let k = e.len();
                for i in 0..k
                    invariant
                        k == e@.len(),
                        out@ == base + e@.take(i as int),
                {
                    out.push(e[i]);
                    assert(e@.take(i + 1) =~= e@.take(i as int).push(e@[i as int]));
                    assert(base + e@.take(i + 1) =~= (base + e@.take(i as int)).push(e@[i as int]));
                }
                assert(e@.take(k as int) =~= e@);
            }
            string_from_chars(&out)
        },
        None => string_from_chars(&v),
    }
}

/// `Path::join`.
pub fn join(base: &str, rel: &str) -> (r: String)
    ensures
        r@ == spec_join(base@, rel@),
{
    let b = chars_of(base);
    let rl = chars_of(rel);
    if rl.len() > 0 && rl[0] == '/' {
        return string_from_chars(&rl);
    }
    let mut out = b;
    if out.len() > 0 && out[out.len() - 1] != '/' {
        out.push('/');
    }
    let ghost head = out@;
    let k = rl.len();
    for i in 0..k
        invariant
            k == rl@.len(),
            out@ == head + rl@.take(i as int),
    {
        out.push(rl[i]);
        assert(rl@.take(i + 1) =~= rl@.take(i as int).push(rl@[i as int]));
        assert(head + rl@.take(i + 1) =~= (head + rl@.take(i as int)).push(rl@[i as int]));
    }
    assert(rl@.take(k as int) =~= rl@);
    string_from_chars(&out)
}

/// The kept segments of `v`, last first.
fn segments_rev(v: &Vec<char>) -> (r: Vec<Vec<char>>)
    ensures
        r@.map_values(|c: Vec<char>| c@) == rev_segments(v@, v@.len() as int),
{
    let mut out: Vec<Vec<char>> = Vec::new();
    let mut end = v.len();
    loop
        invariant
            end <= v@.len(),
            out@.map_values(|c: Vec<char>| c@) + rev_segments(v@, end as int) == rev_segments(
                v@,
                v@.len() as int,
            ),
        decreases end,
    {
        if end == 0 {
            assert(out@.map_values(|c: Vec<char>| c@) + rev_segments(v@, 0) =~= out@.map_values(
                |c: Vec<char>| c@,
            ));
            return out;
        }
        let st = find_seg_start(v, end);
        let seg = slice_chars(v, st, end);
        let is_skipped = st == end || (end - st == 1 && v[st] == '.');
        proof {
            lemma_seg_start_bounds(v@, end as int);
            let s = v@.subrange(st as int, end as int);
            if end - st == 1 {
                assert(s.len() == 1 && s[0] == v@[st as int]);
                reveal_strlit(".");
                assert(("."@).len() == 1 && ("."@)[0] == '.');
                if v@[st as int] == '.' {
                    assert(s =~= "."@);
                }
                assert((s == "."@) <==> (v@[st as int] == '.'));
            } else if st != end {
                reveal_strlit(".");
                assert(s.len() != ("."@).len());
            }
            assert(is_skipped == skipped(s));
        }
        let ghost before = out@.map_values(|c: Vec<char>| c@);
        if !is_skipped {
            out.push(seg);
            assert(out@.map_values(|c: Vec<char>| c@) =~= before.push(v@.subrange(
                st as int,
                end as int,
            )));
        }
        if st == 0 {
            assert(out@.map_values(|c: Vec<char>| c@) =~= rev_segments(v@, v@.len() as int));
            return out;
        }
        end = st - 1;
    }
}

/// The kind of head of a path (see `path_head`).
fn head_of(v: &Vec<char>) -> (h: u8)
    ensures
        h == path_head(v@),
{
    if v.len() > 0 && v[0] == '/' {
        1
    } else if v.len() > 0 && v[0] == '.' && (v.len() == 1 || v[1] == '/') {
        2
    } else {
        0
    }
}

/// `Path::new(a) == Path::new(b)`: whether the paths have the same components.
pub fn same_path(a: &str, b: &str) -> (r: bool)
    ensures
        r == same_components(a@, b@),
{
    let va = chars_of(a);
    let vb = chars_of(b);
    if head_of(&va) != head_of(&vb) {
        return false;
    }
    let sa = segments_rev(&va);
    let sb = segments_rev(&vb);
    let ghost ma = sa@.map_values(|c: Vec<char>| c@);
    let ghost mb = sb@.map_values(|c: Vec<char>| c@);
    if sa.len() != sb.len() {
        assert(ma.len() != mb.len());
        return false;
    }
    let n = sa.len();
    for i in 0..n
        invariant
            n == sa@.len(),
            n == sb@.len(),
            ma == sa@.map_values(|c: Vec<char>| c@),
            mb == sb@.map_values(|c: Vec<char>| c@),
            ma == rev_segments(a@, a@.len() as int),
            mb == rev_segments(b@, b@.len() as int),
            forall|j: int| 0 <= j < i ==> ma[j] == mb[j],
    {
        if !chars_eq(&sa[i], &sb[i]) {
            assert(ma[i as int] != mb[i as int]);
            return false;
        }
    }
    assert(ma =~= mb);
    true
}

/// Whether `s` starts with a `~` that `shellexpand::tilde` may expand: one
/// that stands alone or is followed by `/` (or by `\`, which counts on
/// Windows only).
pub open spec fn tilde_prefixed(s: Seq<char>) -> bool {
    s.len() > 0 && s[0] == '~' && (s.len() == 1 || s[1] == '/' || s[1] == '\\')
}

/// Whether `r` is what expanding a leading `~` of `s` may give: `s` itself,
/// or, where `s` starts with a `~` that may be expanded, some home directory
/// followed by the rest of `s`.
pub open spec fn tilde_expansion_of(r: Seq<char>, s: Seq<char>) -> bool {
    &&& !tilde_prefixed(s) ==> r == s
    &&& tilde_prefixed(s) ==> r == s || exists|home: Seq<char>| r == home + s.drop_first()
}

/// `shellexpand::tilde`: where `s` starts with a `~` that stands alone or is
/// followed by a path separator, that `~` is replaced by the home directory,
/// if the environment gives one; anything else is returned unchanged. Which
/// home directory is used depends on the environment and is not stated, nor
/// whether a `~\` prefix counts (it does on Windows only).
#[verifier::external_body]
pub(crate) fn expand_tilde(s: &str) -> (r: String)
    ensures
        tilde_expansion_of(r@, s@),
{
    shellexpand::tilde(s).to_string()
}

} // verus!
