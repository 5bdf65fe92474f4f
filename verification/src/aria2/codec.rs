//! The bytes in which the session's (GID, job) mappings are persisted: the
//! format that `bincode::serialize` writes for a `Vec<(String, i64)>` under
//! its default options (fixed-width little-endian integers, no byte limit,
//! trailing bytes allowed), and how `bincode::deserialize` reads them back.

use vstd::prelude::*;
use vstd::utf8::{decode_utf8, encode_utf8, valid_utf8};

verus! {

/// The `k` little-endian bytes of `n` (its low `8 * k` bits).
pub open spec fn bytes_le(n: nat, k: nat) -> Seq<u8>
    decreases k,
{
    if k == 0 {
        Seq::empty()
    } else {
        seq![(n % 256) as u8] + bytes_le(n / 256, (k - 1) as nat)
    }
}

/// The number that little-endian bytes denote.
pub open spec fn value_le(b: Seq<u8>) -> nat
    decreases b.len(),
{
    if b.len() == 0 {
        0
    } else {
        b[0] as nat + 256 * value_le(b.drop_first())
    }
}

/// 256 to the power `k`.
pub open spec fn pow256(k: nat) -> nat
    decreases k,
{
    if k == 0 {
        1
    } else {
        256 * pow256((k - 1) as nat)
    }
}

/// The 64-bit two's complement pattern of `x`, as a natural.
pub open spec fn i64_bits(x: i64) -> nat {
    if x >= 0 {
        x as nat
    } else {
        (x + 0x1_0000_0000_0000_0000) as nat
    }
}

/// The `i64` whose two's complement pattern is `v`.
pub open spec fn i64_of_bits(v: nat) -> i64 {
    if v < 0x8000_0000_0000_0000 {
        v as i64
    } else {
        (v - 0x1_0000_0000_0000_0000) as i64
    }
}

/// The bytes of one mapping: the GID's UTF-8 length (8 bytes), its UTF-8
/// bytes, then the job ID (8 bytes).
pub open spec fn entry_bytes(e: (Seq<char>, i64)) -> Seq<u8> {
    bytes_le(encode_utf8(e.0).len(), 8) + encode_utf8(e.0) + bytes_le(i64_bits(e.1), 8)
}

/// The bytes of the mappings, one after another.
pub open spec fn entries_bytes(m: Seq<(Seq<char>, i64)>) -> Seq<u8>
    decreases m.len(),
{
    if m.len() == 0 {
        Seq::empty()
    } else {
        entries_bytes(m.drop_last()) + entry_bytes(m.last())
    }
}

/// The bytes that `bincode::serialize` writes for a list of (GID, job)
/// mappings: their number (8 bytes), then each mapping.
pub open spec fn bincode_mappings(m: Seq<(Seq<char>, i64)>) -> Seq<u8> {
    bytes_le(m.len(), 8) + entries_bytes(m)
}

/// The 64-bit little-endian number at `pos` in `b`, if `b` holds 8 bytes
/// there.
pub open spec fn read_u64(b: Seq<u8>, pos: int) -> Option<nat> {
    if 0 <= pos && pos + 8 <= b.len() {
        Some(value_le(b.subrange(pos, pos + 8)))
    } else {
        None
    }
}

/// The mapping read at `pos`, and where the next one starts: a length, that
/// many bytes of valid UTF-8, and an `i64`.
pub open spec fn read_entry(b: Seq<u8>, pos: int) -> Option<((Seq<char>, i64), int)> {
    match read_u64(b, pos) {
        Some(l) => {
            let s = pos + 8;
            let e = s + l;
            if e <= b.len() && valid_utf8(b.subrange(s, e)) {
                match read_u64(b, e) {
                    Some(v) => Some(((decode_utf8(b.subrange(s, e)), i64_of_bits(v)), e + 8)),
                    None => None,
                }
            } else {
                None
            }
        },
        None => None,
    }
}

/// The `k` mappings read one after another from `pos`, and where they end.
pub open spec fn read_entries(b: Seq<u8>, pos: int, k: nat) -> Option<(Seq<(Seq<char>, i64)>, int)>
    decreases k,
{
    if k == 0 {
        Some((Seq::empty(), pos))
    } else {
        match read_entries(b, pos, (k - 1) as nat) {
            Some((es, p)) => match read_entry(b, p) {
                Some((e, q)) => Some((es.push(e), q)),
                None => None,
            },
            None => None,
        }
    }
}

/// The list of (GID, job) mappings that `bincode::deserialize` reads from
/// `b`: their number, then that many mappings; bytes after them are
/// ignored. `None` where the bytes run out or a GID is not valid UTF-8.
pub open spec fn bincode_read_mappings(b: Seq<u8>) -> Option<Seq<(Seq<char>, i64)>> {
    match read_u64(b, 0) {
        Some(n) => match read_entries(b, 8, n) {
            Some((es, _)) => Some(es),
            None => None,
        },
        None => None,
    }
}

/// Whether every length that the format writes fits in 64 bits.
pub open spec fn lengths_fit(m: Seq<(Seq<char>, i64)>) -> bool {
    &&& m.len() < 0x1_0000_0000_0000_0000
    &&& forall|i: int| 0 <= i < m.len() ==> encode_utf8((#[trigger] m[i]).0).len() < 0x1_0000_0000_0000_0000
}

proof fn lemma_pow256_8()
    ensures
        pow256(8) == 0x1_0000_0000_0000_0000,
{
    reveal_with_fuel(pow256, 9);
}

proof fn lemma_le_round_trip(n: nat, k: nat)
    requires
        n < pow256(k),
    ensures
        bytes_le(n, k).len() == k,
        value_le(bytes_le(n, k)) == n,
    decreases k,
{
    if k > 0 {
        let p = pow256((k - 1) as nat);
        assert(n / 256 < p) by (nonlinear_arith)
            requires
                n < 256 * p,
        ;
        lemma_le_round_trip(n / 256, (k - 1) as nat);
        let b = bytes_le(n, k);
        assert(b.drop_first() =~= bytes_le(n / 256, (k - 1) as nat));
        assert(n == n % 256 + 256 * (n / 256)) by (nonlinear_arith);
    }
}

proof fn lemma_read_u64_at(pre: Seq<u8>, n: nat, suf: Seq<u8>)
    requires
        n < 0x1_0000_0000_0000_0000,
    ensures
        read_u64(pre + bytes_le(n, 8) + suf, pre.len() as int) == Some(n),
{
    lemma_pow256_8();
    lemma_le_round_trip(n, 8);
    let b = pre + bytes_le(n, 8) + suf;
    assert(b.subrange(pre.len() as int, pre.len() + 8int) =~= bytes_le(n, 8));
}

proof fn lemma_i64_round_trip(x: i64)
    ensures
        i64_bits(x) < 0x1_0000_0000_0000_0000,
        i64_of_bits(i64_bits(x)) == x,
{
}

proof fn lemma_read_entry_at(pre: Seq<u8>, e: (Seq<char>, i64), suf: Seq<u8>)
    requires
        encode_utf8(e.0).len() < 0x1_0000_0000_0000_0000,
    ensures
        read_entry(pre + entry_bytes(e) + suf, pre.len() as int) == Some(
            (e, (pre.len() + entry_bytes(e).len()) as int),
        ),
{
    let g = encode_utf8(e.0);
    let l = g.len();
    let j = i64_bits(e.1);
    lemma_i64_round_trip(e.1);
    lemma_pow256_8();
    lemma_le_round_trip(l, 8);
    lemma_le_round_trip(j, 8);
    let b = pre + entry_bytes(e) + suf;
    assert(b =~= pre + bytes_le(l, 8) + (g + bytes_le(j, 8) + suf));
    lemma_read_u64_at(pre, l, g + bytes_le(j, 8) + suf);
    let s = pre.len() + 8int;
    assert(b.subrange(s, s + l as int) =~= g);
    vstd::utf8::encode_utf8_valid_utf8(e.0);
    vstd::utf8::encode_utf8_decode_utf8(e.0);
    assert(b =~= (pre + bytes_le(l, 8) + g) + bytes_le(j, 8) + suf);
    lemma_read_u64_at(pre + bytes_le(l, 8) + g, j, suf);
}

proof fn lemma_read_entries_at(pre: Seq<u8>, m: Seq<(Seq<char>, i64)>, suf: Seq<u8>)
    requires
        lengths_fit(m),
    ensures
        read_entries(pre + entries_bytes(m) + suf, pre.len() as int, m.len()) == Some(
            (m, (pre.len() + entries_bytes(m).len()) as int),
        ),
    decreases m.len(),
{
    if m.len() > 0 {
        let init = m.drop_last();
        let last = m.last();
        assert(lengths_fit(init)) by {
            assert forall|i: int| 0 <= i < init.len() implies encode_utf8((#[trigger] init[i]).0).len()
                < 0x1_0000_0000_0000_0000 by {
                assert(init[i] == m[i]);
            }
        }
        assert(encode_utf8(m[m.len() - 1].0).len() < 0x1_0000_0000_0000_0000);
        let b = pre + entries_bytes(m) + suf;
        assert(b =~= pre + entries_bytes(init) + (entry_bytes(last) + suf));
        lemma_read_entries_at(pre, init, entry_bytes(last) + suf);
        assert(b =~= (pre + entries_bytes(init)) + entry_bytes(last) + suf);
        lemma_read_entry_at(pre + entries_bytes(init), last, suf);
        assert(init.push(last) =~= m);
    }
}

/// What `bincode::serialize` writes for a list of mappings,
/// `bincode::deserialize` reads back as that list.
pub proof fn lemma_bincode_round_trip(m: Seq<(Seq<char>, i64)>)
    requires
        lengths_fit(m),
    ensures
        bincode_read_mappings(bincode_mappings(m)) == Some(m),
{
    let b = bincode_mappings(m);
    assert(b =~= Seq::<u8>::empty() + bytes_le(m.len(), 8) + entries_bytes(m));
    lemma_read_u64_at(Seq::empty(), m.len(), entries_bytes(m));
    assert(b =~= bytes_le(m.len(), 8) + entries_bytes(m) + Seq::<u8>::empty());
    lemma_pow256_8();
    lemma_le_round_trip(m.len(), 8);
    lemma_read_entries_at(bytes_le(m.len(), 8), m, Seq::empty());
}

} // verus!
