//! Cron expressions for the active download window: five fields (minute,
//! hour, day of month, month, day of week), each a comma-separated list of
//! items; an item is `*`, a number or a range `a-b`, optionally followed by
//! `/step`. A time lies in the window when every field admits it; where
//! neither the day-of-month nor the day-of-week field starts with `*`, either
//! of the two admitting the day suffices. Day of week 7 is Sunday, as 0 is.

use vstd::prelude::*;
use crate::numeric::{all_digits, decimal_value, digits_from};

verus! {

/// Which characters separate the pieces of a text.
#[derive(Debug, Clone, Copy, PartialEq, Eq, Structural)]
pub enum SepKind {
    /// Spaces and tabs.
    Blank,
    /// `,`
    Comma,
    /// `/`
    Slash,
    /// `-`
    Dash,
}

/// Whether `c` is a separator of kind `k`.
pub open spec fn is_sep(k: SepKind, c: char) -> bool {
    match k {
        SepKind::Blank => c == ' ' || c == '\t',
        SepKind::Comma => c == ',',
        SepKind::Slash => c == '/',
        SepKind::Dash => c == '-',
    }
}

/// The pieces of `s` between its separators of kind `k`, empty pieces
/// included: one piece more than there are separators.
pub open spec fn split_at_seps(s: Seq<char>, k: SepKind) -> Seq<Seq<char>>
    decreases s.len(),
{
    if s.len() == 0 {
        seq![Seq::empty()]
    } else {
        let w = split_at_seps(s.drop_last(), k);
        if is_sep(k, s.last()) {
            w.push(Seq::empty())
        } else {
            w.drop_last().push(w.last().push(s.last()))
        }
    }
}

/// The pieces of `p` that are not empty, in order.
pub open spec fn nonempty_pieces(p: Seq<Seq<char>>) -> Seq<Seq<char>>
    decreases p.len(),
{
    if p.len() == 0 {
        Seq::empty()
    } else if p.last().len() > 0 {
        nonempty_pieces(p.drop_last()).push(p.last())
    } else {
        nonempty_pieces(p.drop_last())
    }
}

/// The characters of each vector of a list.
pub open spec fn char_pieces(v: Seq<Vec<char>>) -> Seq<Seq<char>> {
    v.map_values(|x: Vec<char>| x@)
}

proof fn lemma_split_len(s: Seq<char>, k: SepKind)
    ensures
        split_at_seps(s, k).len() >= 1,
    decreases s.len(),
{
    if s.len() > 0 {
        lemma_split_len(s.drop_last(), k);
    }
}

fn sep_char(k: SepKind, c: char) -> (b: bool)
    ensures
        b == is_sep(k, c),
{
    match k {
        SepKind::Blank => c == ' ' || c == '\t',
        SepKind::Comma => c == ',',
        SepKind::Slash => c == '/',
        SepKind::Dash => c == '-',
    }
}

fn copy_chars(v: &Vec<char>) -> (r: Vec<char>)
    ensures
        r@ == v@,
{
    let mut r: Vec<char> = Vec::new();
    let n = v.len();
    for i in 0..n
        invariant
            n == v@.len(),
            r@ == v@.take(i as int),
    {
        r.push(v[i]);
        assert(v@.take(i + 1) =~= v@.take(i as int).push(v@[i as int]));
    }
    assert(v@.take(n as int) =~= v@);
    r
}

/// The pieces of `v` between its separators of kind `k`.
fn split_at(v: &Vec<char>, k: SepKind) -> (r: Vec<Vec<char>>)
    ensures
        char_pieces(r@) == split_at_seps(v@, k),
{
    let mut r: Vec<Vec<char>> = Vec::new();
    r.push(Vec::new());
    let n = v.len();
    assert(v@.take(0) =~= Seq::<char>::empty());
    assert(char_pieces(r@) =~= seq![Seq::<char>::empty()]);
    for i in 0..n
        invariant
            n == v@.len(),
            r@.len() >= 1,
            char_pieces(r@) == split_at_seps(v@.take(i as int), k),
    {
        let c = v[i];
        let ghost pre = v@.take(i as int);
        let ghost w = split_at_seps(pre, k);
        assert(v@.take(i + 1).drop_last() =~= pre);
        assert(v@.take(i + 1).last() == c);
        if sep_char(k, c) {
            r.push(Vec::new());
            assert(char_pieces(r@) =~= w.push(Seq::empty()));
        } else {
            let ghost before = r@;
            let mut last = r.pop().unwrap();
            assert(last@ == w.last());
            last.push(c);
            r.push(last);
            assert(char_pieces(before.drop_last()) =~= w.drop_last());
            assert(char_pieces(r@) =~= w.drop_last().push(w.last().push(c)));
        }
    }
    assert(v@.take(n as int) =~= v@);
    r
}

/// The non-empty pieces of `p`.
fn nonempty(p: &Vec<Vec<char>>) -> (r: Vec<Vec<char>>)
    ensures
        char_pieces(r@) == nonempty_pieces(char_pieces(p@)),
        forall|j: int| 0 <= j < r@.len() ==> (#[trigger] r@[j])@.len() > 0,
{
    let mut r: Vec<Vec<char>> = Vec::new();
    let n = p.len();
    for i in 0..n
        invariant
            n == p@.len(),
            char_pieces(r@) == nonempty_pieces(char_pieces(p@.take(i as int))),
            forall|j: int| 0 <= j < r@.len() ==> (#[trigger] r@[j])@.len() > 0,
    {
        let ghost pre = char_pieces(p@.take(i as int));
        assert(char_pieces(p@.take(i + 1)).drop_last() =~= pre);
        assert(char_pieces(p@.take(i + 1)).last() == p@[i as int]@);
        if p[i].len() > 0 {
            let ghost before = r@;
            r.push(copy_chars(&p[i]));
            assert(char_pieces(r@) =~= char_pieces(before).push(p@[i as int]@));
        }
    }
    assert(p@.take(n as int) =~= p@);
    r
}

/// The number that `t` writes in decimal digits, if it is one (and fits in
/// 64 bits).
pub open spec fn cron_number(t: Seq<char>) -> Option<nat> {
    if t.len() > 0 && all_digits(t) && decimal_value(t) <= u64::MAX {
        Some(decimal_value(t))
    } else {
        None
    }
}

/// The step of an item split at its `/`: 1 without a step, else the number
/// after the `/`, which must be at least 1.
pub open spec fn item_step(parts: Seq<Seq<char>>) -> Option<nat> {
    if parts.len() == 1 {
        Some(1)
    } else if parts.len() == 2 {
        match cron_number(parts[1]) {
            Some(n) => if n >= 1 {
                Some(n)
            } else {
                None
            },
            None => None,
        }
    } else {
        None
    }
}

/// The first and last values of an item's base: all of `min..=max` for `*`,
/// one number, or a range `a-b`.
pub open spec fn item_bounds(base: Seq<char>, min: nat, max: nat) -> Option<(nat, nat)> {
    if base == seq!['*'] {
        Some((min, max))
    } else {
        let ends = split_at_seps(base, SepKind::Dash);
        if ends.len() == 1 {
            match cron_number(ends[0]) {
                Some(n) => Some((n, n)),
                None => None,
            }
        } else if ends.len() == 2 {
            match (cron_number(ends[0]), cron_number(ends[1])) {
                (Some(a), Some(b)) => Some((a, b)),
                _ => None,
            }
        } else {
            None
        }
    }
}

/// What an item of a field whose values run from `min` to `max` stands for:
/// its first value, its last value and its step, where it is well formed
/// and `min <= first <= last <= max`.
pub open spec fn item_range(t: Seq<char>, min: nat, max: nat) -> Option<(nat, nat, nat)> {
    let parts = split_at_seps(t, SepKind::Slash);
    match (item_bounds(parts[0], min, max), item_step(parts)) {
        (Some((a, b)), Some(st)) => if min <= a && a <= b && b <= max {
            Some((a, b, st))
        } else {
            None
        },
        _ => None,
    }
}

/// Whether the item `r` (first, last, step) admits `v`.
pub open spec fn in_item(r: (nat, nat, nat), v: nat) -> bool {
    r.0 <= v && v <= r.1 && (v - r.0) % (r.2 as int) == 0
}

/// The items of a field.
pub open spec fn field_items(f: Seq<char>) -> Seq<Seq<char>> {
    split_at_seps(f, SepKind::Comma)
}

/// Whether every item of a field is well formed within `min..=max`.
pub open spec fn field_valid(f: Seq<char>, min: nat, max: nat) -> bool {
    forall|i: int|
        0 <= i < field_items(f).len() ==> (#[trigger] item_range(field_items(f)[i], min, max)) is Some
}

/// Whether some item of a field admits `v`.
pub open spec fn field_contains(f: Seq<char>, min: nat, max: nat, v: nat) -> bool {
    exists|i: int|
        0 <= i < field_items(f).len() && (#[trigger] item_range(field_items(f)[i], min, max) matches Some(
            r,
        ) && in_item(r, v))
}

/// A triple of 64-bit numbers read as naturals.
pub open spec fn nat_triple(r: (u64, u64, u64)) -> (nat, nat, nat) {
    (r.0 as nat, r.1 as nat, r.2 as nat)
}

fn number(t: &Vec<char>) -> (r: Option<u64>)
    ensures
        match cron_number(t@) {
            Some(n) => r == Some(n as u64),
            None => r is None,
        },
{
    assert(t@.subrange(0, t@.len() as int) =~= t@);
    digits_from(t, 0)
}

/// What item `t` stands for, within `min..=max`.
fn item(t: &Vec<char>, min: u64, max: u64) -> (r: Option<(u64, u64, u64)>)
    ensures
        match item_range(t@, min as nat, max as nat) {
            Some(x) => r matches Some(y) && nat_triple(y) == x,
            None => r is None,
        },
{
    let parts = split_at(t, SepKind::Slash);
    proof {
        lemma_split_len(t@, SepKind::Slash);
    }
    let ghost pv = split_at_seps(t@, SepKind::Slash);
    assert(parts@[0]@ == pv[0]);
    let step: Option<u64> = if parts.len() == 1 {
        Some(1)
    } else if parts.len() == 2 {
        assert(parts@[1]@ == pv[1]);
        match number(&parts[1]) {
            Some(n) => if n >= 1 {
                Some(n)
            } else {
                None
            },
            None => None,
        }
    } else {
        None
    };
    assert(match item_step(pv) {
        Some(x) => step == Some(x as u64),
        None => step is None,
    });
    let base = &parts[0];
    let is_star = base.len() == 1 && base[0] == '*';
    assert(is_star == (base@ == seq!['*'])) by {
        if base@.len() == 1 && base@[0] == '*' {
            assert(base@ =~= seq!['*']);
        }
    }
    let bounds: Option<(u64, u64)> = if is_star {
        Some((min, max))
    } else {
        let ends = split_at(base, SepKind::Dash);
        let ghost ev = split_at_seps(base@, SepKind::Dash);
        proof {
            lemma_split_len(base@, SepKind::Dash);
        }
        assert(ends@[0]@ == ev[0]);
        if ends.len() == 1 {
            match number(&ends[0]) {
                Some(n) => Some((n, n)),
                None => None,
            }
        } else if ends.len() == 2 {
            assert(ends@[1]@ == ev[1]);
            match (number(&ends[0]), number(&ends[1])) {
                (Some(a), Some(b)) => Some((a, b)),
                _ => None,
            }
        } else {
            None
        }
    };
    assert(match item_bounds(pv[0], min as nat, max as nat) {
        Some(x) => bounds matches Some(y) && y.0 == x.0 && y.1 == x.1,
        None => bounds is None,
    });
    match (bounds, step) {
        (Some((a, b)), Some(st)) => if min <= a && a <= b && b <= max {
            Some((a, b, st))
        } else {
            None
        },
        _ => None,
    }
}

/// The items of field `f`, each with what it stands for, where every item
/// is well formed within `min..=max`.
fn field(f: &Vec<char>, min: u64, max: u64) -> (r: Option<Vec<(u64, u64, u64)>>)
    ensures
        r is Some <==> field_valid(f@, min as nat, max as nat),
        r matches Some(rs) ==> rs@.len() == field_items(f@).len() && forall|j: int|
            0 <= j < rs@.len() ==> item_range(field_items(f@)[j], min as nat, max as nat) == Some(
                nat_triple(#[trigger] rs@[j]),
            ) && rs@[j].2 >= 1,
{
    let items = split_at(f, SepKind::Comma);
    let ghost iv = field_items(f@);
    let mut rs: Vec<(u64, u64, u64)> = Vec::new();
    let n = items.len();
    for i in 0..n
        invariant
            n == items@.len(),
            char_pieces(items@) == iv,
            iv == field_items(f@),
            rs@.len() == i,
            forall|j: int|
                0 <= j < i ==> item_range(iv[j], min as nat, max as nat) == Some(
                    nat_triple(#[trigger] rs@[j]),
                ) && rs@[j].2 >= 1,
    {
        assert(items@[i as int]@ == iv[i as int]);
        match item(&items[i], min, max) {
            Some(x) => {
                rs.push(x);
            },
            None => {
                assert(item_range(iv[i as int], min as nat, max as nat) is None);
                return None;
            },
        }
    }
    assert forall|j: int| 0 <= j < iv.len() implies (#[trigger] item_range(
        iv[j],
        min as nat,
        max as nat,
    )) is Some by {
        assert(item_range(iv[j], min as nat, max as nat) == Some(nat_triple(rs@[j])));
    }
    Some(rs)
}

/// Whether some item of `rs` admits `v`.
fn ranges_contain(rs: &Vec<(u64, u64, u64)>, v: u64) -> (b: bool)
    requires
        forall|j: int| 0 <= j < rs@.len() ==> (#[trigger] rs@[j]).2 >= 1,
    ensures
        b == exists|j: int| 0 <= j < rs@.len() && in_item(nat_triple(#[trigger] rs@[j]), v as nat),
{
    let n = rs.len();
    for i in 0..n
        invariant
            n == rs@.len(),
            forall|j: int| 0 <= j < rs@.len() ==> (#[trigger] rs@[j]).2 >= 1,
            forall|j: int| 0 <= j < i ==> !in_item(nat_triple(#[trigger] rs@[j]), v as nat),
    {
        let (a, b, st) = rs[i];
        if a <= v && v <= b && (v - a) % st == 0 {
            assert(in_item(nat_triple(rs@[i as int]), v as nat));
            return true;
        }
    }
    false
}

/// Whether the field whose items stand for `rs` admits `v`.
proof fn lemma_field_contains(f: Seq<char>, min: nat, max: nat, rs: Seq<(u64, u64, u64)>, v: nat)
    requires
        rs.len() == field_items(f).len(),
        forall|j: int|
            0 <= j < rs.len() ==> item_range(field_items(f)[j], min, max) == Some(
                nat_triple(#[trigger] rs[j]),
            ),
    ensures
        field_contains(f, min, max, v) == exists|j: int|
            0 <= j < rs.len() && in_item(nat_triple(#[trigger] rs[j]), v),
{
    if field_contains(f, min, max, v) {
        let i = choose|i: int|
            0 <= i < field_items(f).len() && (#[trigger] item_range(field_items(f)[i], min, max) matches Some(
                r,
            ) && in_item(r, v));
        assert(in_item(nat_triple(rs[i]), v));
    }
    if exists|j: int| 0 <= j < rs.len() && in_item(nat_triple(#[trigger] rs[j]), v) {
        let j = choose|j: int| 0 <= j < rs.len() && in_item(nat_triple(#[trigger] rs[j]), v);
        assert(item_range(field_items(f)[j], min, max) == Some(nat_triple(rs[j])));
    }
}

/// A calendar time, to the minute, as the window is checked against it.
#[derive(Debug, Clone, Copy, PartialEq, Eq, Structural)]
pub struct CalendarTime {
    /// Minute of the hour, 0 to 59.
    pub minute: u32,
    /// Hour of the day, 0 to 23.
    pub hour: u32,
    /// Day of the month, 1 to 31.
    pub day: u32,
    /// Month of the year, 1 to 12.
    pub month: u32,
    /// Day of the week, 0 (Sunday) to 6 (Saturday).
    pub weekday: u32,
}

/// The fields of a cron expression: its pieces between blanks.
pub open spec fn cron_fields(s: Seq<char>) -> Seq<Seq<char>> {
    nonempty_pieces(split_at_seps(s, SepKind::Blank))
}

/// Whether `s` is a well-formed cron expression: five fields, for the minute
/// (0-59), the hour (0-23), the day of the month (1-31), the month (1-12) and
/// the day of the week (0-7).
pub open spec fn cron_valid(s: Seq<char>) -> bool {
    let f = cron_fields(s);
    &&& f.len() == 5
    &&& field_valid(f[0], 0, 59)
    &&& field_valid(f[1], 0, 23)
    &&& field_valid(f[2], 1, 31)
    &&& field_valid(f[3], 1, 12)
    &&& field_valid(f[4], 0, 7)
}

/// Whether the day-of-week field admits weekday `w` (7 standing for Sunday
/// as 0 does).
pub open spec fn weekday_admitted(f: Seq<char>, w: nat) -> bool {
    field_contains(f, 0, 7, w) || (w == 0 && field_contains(f, 0, 7, 7))
}

/// Whether the time `t` lies in the window that the cron expression `s`
/// describes: `s` is well formed, its minute, hour and month fields admit
/// `t`, and so does its day-of-month field and its day-of-week field, or
/// either of them where neither starts with `*`. An expression that is not
/// well formed describes no time.
pub open spec fn window_contains(s: Seq<char>, t: CalendarTime) -> bool {
    let f = cron_fields(s);
    let dom = field_contains(f[2], 1, 31, t.day as nat);
    let dow = weekday_admitted(f[4], t.weekday as nat);
    &&& cron_valid(s)
    &&& field_contains(f[0], 0, 59, t.minute as nat)
    &&& field_contains(f[1], 0, 23, t.hour as nat)
    &&& field_contains(f[3], 1, 12, t.month as nat)
    &&& if f[2][0] == '*' || f[4][0] == '*' {
        dom && dow
    } else {
        dom || dow
    }
}

/// Whether the time `now` lies in the window that the cron expression `cron`
/// describes.
pub fn cron_matches(cron: &str, now: &CalendarTime) -> (r: bool)
    ensures
        r == window_contains(cron@, *now),
{
    let chars = crate::text::chars_of(cron);
    let pieces = split_at(&chars, SepKind::Blank);
    let f = nonempty(&pieces);
    let ghost fv = cron_fields(cron@);
    assert(char_pieces(f@) == fv);
    if f.len() != 5 {
        return false;
    }
    assert(f@[0]@ == fv[0] && f@[1]@ == fv[1] && f@[2]@ == fv[2] && f@[3]@ == fv[3] && f@[4]@ == fv[4]);
    let minutes = match field(&f[0], 0, 59) {
        Some(x) => x,
        None => return false,
    };
    let hours = match field(&f[1], 0, 23) {
        Some(x) => x,
        None => return false,
    };
    let days = match field(&f[2], 1, 31) {
        Some(x) => x,
        None => return false,
    };
    let months = match field(&f[3], 1, 12) {
        Some(x) => x,
        None => return false,
    };
    let weekdays = match field(&f[4], 0, 7) {
        Some(x) => x,
        None => return false,
    };
    proof {
        lemma_field_contains(fv[0], 0, 59, minutes@, now.minute as nat);
        lemma_field_contains(fv[1], 0, 23, hours@, now.hour as nat);
        lemma_field_contains(fv[2], 1, 31, days@, now.day as nat);
        lemma_field_contains(fv[3], 1, 12, months@, now.month as nat);
        lemma_field_contains(fv[4], 0, 7, weekdays@, now.weekday as nat);
        lemma_field_contains(fv[4], 0, 7, weekdays@, 7);
    }
    let minute_ok = ranges_contain(&minutes, now.minute as u64);
    let hour_ok = ranges_contain(&hours, now.hour as u64);
    let month_ok = ranges_contain(&months, now.month as u64);
    let dom = ranges_contain(&days, now.day as u64);
    let dow = ranges_contain(&weekdays, now.weekday as u64) || (now.weekday == 0
        && ranges_contain(&weekdays, 7));
    let star = f[2][0] == '*' || f[4][0] == '*';
    let day_ok = if star {
        dom && dow
    } else {
        dom || dow
    };
    minute_ok && hour_ok && month_ok && day_ok
}

} // verus!
