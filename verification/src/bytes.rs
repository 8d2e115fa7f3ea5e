//! Fixed-width integers in byte sequences.

use vstd::prelude::*;

use crate::text;
use crate::text::chars_of;

verus! {

/// The little-endian 16-bit number at `i`.
pub open spec fn le16(b: Seq<u8>, i: int) -> u16 {
    (b[i] + 0x100 * b[i + 1]) as u16
}

/// The little-endian 32-bit number at `i`.
pub open spec fn le32(b: Seq<u8>, i: int) -> u32 {
    (b[i] + 0x100 * b[i + 1] + 0x1_0000 * b[i + 2] + 0x100_0000 * b[i + 3]) as u32
}

/// The little-endian 64-bit number at `i`.
pub open spec fn le64(b: Seq<u8>, i: int) -> u64 {
    (le32(b, i) + 0x1_0000_0000 * le32(b, i + 4)) as u64
}

/// The big-endian 16-bit number at `i`.
pub open spec fn be16(b: Seq<u8>, i: int) -> u16 {
    (0x100 * b[i] + b[i + 1]) as u16
}

/// The big-endian 32-bit number at `i`.
pub open spec fn be32(b: Seq<u8>, i: int) -> u32 {
    (0x100_0000 * b[i] + 0x1_0000 * b[i + 1] + 0x100 * b[i + 2] + b[i + 3]) as u32
}

/// The big-endian 64-bit number at `i`.
pub open spec fn be64(b: Seq<u8>, i: int) -> u64 {
    (0x1_0000_0000 * be32(b, i) + be32(b, i + 4)) as u64
}

/// The little-endian 16-bit number at `i`.
pub fn get_le16(b: &[u8], i: usize) -> (r: u16)
    requires
        i + 2 <= b.len(),
    ensures
        r == le16(b@, i as int),
{
    b[i] as u16 + 0x100 * b[i + 1] as u16
}

/// The little-endian 32-bit number at `i`.
pub fn get_le32(b: &[u8], i: usize) -> (r: u32)
    requires
        i + 4 <= b.len(),
    ensures
        r == le32(b@, i as int),
{
    b[i] as u32 + 0x100 * b[i + 1] as u32 + 0x1_0000 * b[i + 2] as u32 + 0x100_0000 * b[i
        + 3] as u32
}

/// The little-endian 64-bit number at `i`.
pub fn get_le64(b: &[u8], i: usize) -> (r: u64)
    requires
        i + 8 <= b.len(),
    ensures
        r == le64(b@, i as int),
{
    get_le32(b, i) as u64 + 0x1_0000_0000 * get_le32(b, i + 4) as u64
}

/// The big-endian 16-bit number at `i`.
pub fn get_be16(b: &[u8], i: usize) -> (r: u16)
    requires
        i + 2 <= b.len(),
    ensures
        r == be16(b@, i as int),
{
    0x100 * b[i] as u16 + b[i + 1] as u16
}

/// The big-endian 32-bit number at `i`.
pub fn get_be32(b: &[u8], i: usize) -> (r: u32)
    requires
        i + 4 <= b.len(),
    ensures
        r == be32(b@, i as int),
{
    0x100_0000 * b[i] as u32 + 0x1_0000 * b[i + 1] as u32 + 0x100 * b[i + 2] as u32 + b[i
        + 3] as u32
}

/// The big-endian 64-bit number at `i`.
pub fn get_be64(b: &[u8], i: usize) -> (r: u64)
    requires
        i + 8 <= b.len(),
    ensures
        r == be64(b@, i as int),
{
    0x1_0000_0000 * get_be32(b, i) as u64 + get_be32(b, i + 4) as u64
}

/// The index of the first zero byte, or the length where there is none.
pub open spec fn nul_index(b: Seq<u8>) -> int
    decreases b.len(),
{
    if b.len() == 0 || b[0] == 0 {
        0
    } else {
        1 + nul_index(b.drop_first())
    }
}

proof fn nul_index_is(b: Seq<u8>, i: int)
    requires
        0 <= i <= b.len(),
        forall|j: int| 0 <= j < i ==> b[j] != 0,
        i < b.len() ==> b[i] == 0,
    ensures
        nul_index(b) == i,
    decreases b.len(),
{
    if b.len() > 0 && b[0] != 0 {
        nul_index_is(b.drop_first(), i - 1);
    }
}

/// The bytes before the first zero byte.
pub open spec fn until_nul(b: Seq<u8>) -> Seq<u8> {
    b.take(nul_index(b))
}

/// The bytes before the first zero byte hold none, and do not change with what follows it.
pub proof fn nothing_behind_the_nul(b: Seq<u8>, s: Seq<u8>)
    ensures
        !until_nul(b).contains(0),
        !b.contains(0) ==> until_nul(b) == b && until_nul(b + seq![0u8] + s) == b,
    decreases b.len(),
{
    if b.contains(0) {
        if b[0] != 0 {
            let d = b.drop_first();
            nothing_behind_the_nul(d, s);
            nul_index_bound(d);
            assert forall|i: int| 0 <= i < until_nul(b).len() implies #[trigger] until_nul(b)[i]
                != 0 by {
                if i > 0 {
                    assert(until_nul(d)[i - 1] == b[i]);
                }
            }
        }
    } else {
        let all = b + seq![0u8] + s;
        assert forall|j: int| 0 <= j < b.len() implies b[j] != 0 by {}
        nul_index_is(b, b.len() as int);
        nul_index_is(all, b.len() as int);
        assert(until_nul(b) =~= b);
        assert(until_nul(all) =~= b);
    }
}

proof fn nul_index_bound(b: Seq<u8>)
    ensures
        0 <= nul_index(b) <= b.len(),
    decreases b.len(),
{
    if b.len() > 0 && b[0] != 0 {
        nul_index_bound(b.drop_first());
    }
}

/// The bytes before the first zero byte.
pub fn cut_at_nul(b: &[u8]) -> (r: &[u8])
    ensures
        r@ == until_nul(b@),
{
    let mut i: usize = 0;
    while i < b.len() && b[i] != 0
        invariant
            i <= b.len(),
            forall|j: int| 0 <= j < i ==> b@[j] != 0,
        decreases b.len() - i,
    {
        i = i + 1;
    }
    proof {
        nul_index_is(b@, i as int);
    }
    cut(b, 0, i)
}

/// The bytes of a text whose characters are all ASCII.
pub open spec fn ascii(s: Seq<char>) -> Seq<u8> {
    Seq::new(s.len(), |i: int| s[i] as u8)
}

fn ascii_bytes(s: &str) -> (r: Vec<u8>)
    ensures
        r@ == ascii(s@),
{
    let chars = chars_of(s);
    let mut v: Vec<u8> = Vec::new();
    let mut i: usize = 0;
    while i < chars.len()
        invariant
            i <= chars.len(),
            v@.len() == i,
            forall|j: int| 0 <= j < i ==> #[trigger] v@[j] == chars@[j] as u8,
        decreases chars.len() - i,
    {
        v.push(chars[i] as u8);
        i = i + 1;
    }
    assert(v@ =~= ascii(s@));
    v
}

/// Whether `pat` stands in `b` from `i` on.
pub fn bytes_at(b: &[u8], pat: &[u8], i: usize) -> (r: bool)
    requires
        i + pat.len() <= b.len(),
    ensures
        r == text::occurs_at(b@, pat@, i as int),
{
    let mut k: usize = 0;
    while k < pat.len()
        invariant
            k <= pat.len(),
            i + pat.len() <= b.len(),
            forall|j: int| 0 <= j < k ==> #[trigger] pat@[j] == b@[i + j],
        decreases pat.len() - k,
    {
        if b[i + k] != pat[k] {
            assert(b@.subrange(i as int, i + pat@.len())[k as int] != pat@[k as int]);
            return false;
        }
        k = k + 1;
    }
    assert(b@.subrange(i as int, i + pat@.len()) =~= pat@);
    true
}

/// Whether an ASCII text stands anywhere in `b`.
pub fn contains_ascii(b: &[u8], pat: &str) -> (r: bool)
    ensures
        r == text::occurs(b@, ascii(pat@)),
{
    let p = ascii_bytes(pat);
    if p.len() > b.len() {
        return false;
    }
    let last: usize = b.len() - p.len();
    let mut i: usize = 0;
    while i <= last
        invariant
            last == b.len() - p.len(),
            i <= last + 1,
            p@ == ascii(pat@),
            forall|j: int| 0 <= j < i ==> !#[trigger] text::occurs_at(b@, p@, j),
        decreases last + 1 - i,
    {
        if bytes_at(b, p.as_slice(), i) {
            return true;
        }
        if i == last {
            return false;
        }
        i = i + 1;
    }
    false
}

/// Whether a byte is among the bytes of a slice.
pub fn contains_byte(b: &[u8], x: u8) -> (r: bool)
    ensures
        r == b@.contains(x),
{
    let mut i: usize = 0;
    while i < b.len()
        invariant
            i <= b.len(),
            forall|j: int| 0 <= j < i ==> b@[j] != x,
        decreases b.len() - i,
    {
        if b[i] == x {
            assert(b@[i as int] == x);
            return true;
        }
        i = i + 1;
    }
    false
}

/// A copy of the bytes of a slice.
pub fn copy_bytes(b: &[u8]) -> (r: Vec<u8>)
    ensures
        r@ == b@,
{
    vstd::slice::slice_to_vec(b)
}

/// The bytes from `i` up to `j`.
pub fn cut(b: &[u8], i: usize, j: usize) -> (r: &[u8])
    requires
        i <= j <= b.len(),
    ensures
        r@ == b@.subrange(i as int, j as int),
{
    vstd::slice::slice_subrange(b, i, j)
}

// ---------------------------------------------------------------------------
// Writing numbers
// ---------------------------------------------------------------------------

/// The bytes of a 16-bit number, the least significant first.
#[verifier::opaque]
pub open spec fn le16_bytes(n: u16) -> Seq<u8> {
    seq![(n % 0x100) as u8, (n / 0x100) as u8]
}

/// The bytes of a 32-bit number, the least significant first.
#[verifier::opaque]
pub open spec fn le32_bytes(n: u32) -> Seq<u8> {
    seq![
        (n % 0x100) as u8,
        (n / 0x100 % 0x100) as u8,
        (n / 0x100 / 0x100 % 0x100) as u8,
        (n / 0x100 / 0x100 / 0x100) as u8,
    ]
}

/// The bytes of a 64-bit number, the least significant first.
#[verifier::opaque]
pub open spec fn le64_bytes(n: u64) -> Seq<u8> {
    le32_bytes((n % 0x1_0000_0000) as u32) + le32_bytes((n / 0x1_0000_0000) as u32)
}

/// The bytes of a 16-bit number, the most significant first.
#[verifier::opaque]
pub open spec fn be16_bytes(n: u16) -> Seq<u8> {
    seq![(n / 0x100) as u8, (n % 0x100) as u8]
}

/// The bytes of a 32-bit number, the most significant first.
#[verifier::opaque]
pub open spec fn be32_bytes(n: u32) -> Seq<u8> {
    seq![
        (n / 0x100 / 0x100 / 0x100) as u8,
        (n / 0x100 / 0x100 % 0x100) as u8,
        (n / 0x100 % 0x100) as u8,
        (n % 0x100) as u8,
    ]
}

/// The bytes of a 64-bit number, the most significant first.
#[verifier::opaque]
pub open spec fn be64_bytes(n: u64) -> Seq<u8> {
    be32_bytes((n / 0x1_0000_0000) as u32) + be32_bytes((n % 0x1_0000_0000) as u32)
}

proof fn four_digits(n: u32)
    ensures
        n / 0x100 / 0x100 / 0x100 < 0x100,
        n % 0x100 + 0x100 * (n / 0x100 % 0x100) + 0x1_0000 * (n / 0x100 / 0x100 % 0x100)
            + 0x100_0000 * (n / 0x100 / 0x100 / 0x100) == n,
{
}

proof fn number_alone_reads_back(x: u16, y: u32)
    ensures
        le16(le16_bytes(x), 0) == x,
        le32(le32_bytes(y), 0) == y,
        be16(be16_bytes(x), 0) == x,
        be32(be32_bytes(y), 0) == y,
        le16_bytes(x).len() == 2,
        le32_bytes(y).len() == 4,
        be16_bytes(x).len() == 2,
        be32_bytes(y).len() == 4,
{
    reveal(le16_bytes);
    reveal(le32_bytes);
    reveal(be16_bytes);
    reveal(be32_bytes);
    four_digits(y);
}

/// A number that was written is read back, whatever stands before and behind it.
pub proof fn little_endian_reads_back(a: Seq<u8>, x: u16, y: u32, z: u64, b: Seq<u8>)
    ensures
        le16(a + le16_bytes(x) + b, a.len() as int) == x,
        le32(a + le32_bytes(y) + b, a.len() as int) == y,
        le64(a + le64_bytes(z) + b, a.len() as int) == z,
        le16_bytes(x).len() == 2,
        le32_bytes(y).len() == 4,
        le64_bytes(z).len() == 8,
{
    reveal(le64_bytes);
    let i = a.len() as int;
    let lo = (z % 0x1_0000_0000) as u32;
    let hi = (z / 0x1_0000_0000) as u32;
    number_alone_reads_back(x, y);
    number_alone_reads_back(x, lo);
    number_alone_reads_back(x, hi);
    let p = a + le16_bytes(x) + b;
    assert(p[i] == le16_bytes(x)[0] && p[i + 1] == le16_bytes(x)[1]);
    let q = a + le32_bytes(y) + b;
    assert(q[i] == le32_bytes(y)[0] && q[i + 1] == le32_bytes(y)[1]);
    assert(q[i + 2] == le32_bytes(y)[2] && q[i + 3] == le32_bytes(y)[3]);
    let r = a + le64_bytes(z) + b;
    let f = le32_bytes(lo);
    let g = le32_bytes(hi);
    assert(r[i] == f[0] && r[i + 1] == f[1] && r[i + 2] == f[2] && r[i + 3] == f[3]);
    assert(r[i + 4] == g[0] && r[i + 5] == g[1] && r[i + 6] == g[2] && r[i + 7] == g[3]);
    assert(le32(r, i) == le32(f, 0));
    assert(le32(r, i + 4) == le32(g, 0));
}

/// A number that was written is read back, whatever stands before and behind it.
pub proof fn big_endian_reads_back(a: Seq<u8>, x: u16, y: u32, z: u64, b: Seq<u8>)
    ensures
        be16(a + be16_bytes(x) + b, a.len() as int) == x,
        be32(a + be32_bytes(y) + b, a.len() as int) == y,
        be64(a + be64_bytes(z) + b, a.len() as int) == z,
        be16_bytes(x).len() == 2,
        be32_bytes(y).len() == 4,
        be64_bytes(z).len() == 8,
{
    reveal(be64_bytes);
    let i = a.len() as int;
    let lo = (z % 0x1_0000_0000) as u32;
    let hi = (z / 0x1_0000_0000) as u32;
    number_alone_reads_back(x, y);
    number_alone_reads_back(x, lo);
    number_alone_reads_back(x, hi);
    let p = a + be16_bytes(x) + b;
    assert(p[i] == be16_bytes(x)[0] && p[i + 1] == be16_bytes(x)[1]);
    let q = a + be32_bytes(y) + b;
    assert(q[i] == be32_bytes(y)[0] && q[i + 1] == be32_bytes(y)[1]);
    assert(q[i + 2] == be32_bytes(y)[2] && q[i + 3] == be32_bytes(y)[3]);
    let r = a + be64_bytes(z) + b;
    let f = be32_bytes(hi);
    let g = be32_bytes(lo);
    assert(r[i] == f[0] && r[i + 1] == f[1] && r[i + 2] == f[2] && r[i + 3] == f[3]);
    assert(r[i + 4] == g[0] && r[i + 5] == g[1] && r[i + 6] == g[2] && r[i + 7] == g[3]);
    assert(be32(r, i) == be32(f, 0));
    assert(be32(r, i + 4) == be32(g, 0));
}

/// `rest` with the part in front of it, where it is there.
#[verifier::opaque]
pub open spec fn with_part(there: bool, part: Seq<u8>, rest: Seq<u8>) -> Seq<u8> {
    if there {
        part + rest
    } else {
        rest
    }
}

/// What stands at a place is found there, and the rest behind it.
pub proof fn next_part(b: Seq<u8>, i: int, part: Seq<u8>, tail: Seq<u8>)
    requires
        0 <= i <= b.len(),
        b.skip(i) == part + tail,
    ensures
        i + part.len() <= b.len(),
        b.subrange(i, i + part.len()) == part,
        b.skip(i + part.len()) == tail,
        forall|k: int|
            #![trigger b[i + k]]
            #![trigger part[k]]
            0 <= k < part.len() ==> b[i + k] == part[k],
{
    let s = b.skip(i);
    assert(s.len() == part.len() + tail.len());
    assert forall|k: int| 0 <= k < part.len() implies #[trigger] b[i + k] == part[k] by {
        assert(s[k] == b[i + k]);
    }
    assert forall|k: int| 0 <= k < part.len() implies #[trigger] b.subrange(i, i + part.len())[k]
        == part[k] by {
        assert(b[i + k] == part[k]);
    }
    assert(b.subrange(i, i + part.len()) =~= part);
    assert forall|k: int| 0 <= k < tail.len() implies #[trigger] b.skip(i + part.len())[k]
        == tail[k] by {
        assert(s[part.len() + k] == b[i + part.len() + k]);
    }
    assert(b.skip(i + part.len()) =~= tail);
}

/// A little endian number that stands at a place is read there, and the rest stands behind it.
pub proof fn next_le(b: Seq<u8>, i: int, x: u16, y: u32, z: u64, tail: Seq<u8>)
    requires
        0 <= i <= b.len(),
    ensures
        b.skip(i) == le16_bytes(x) + tail ==> le16(b, i) == x && b.skip(i + 2) == tail && i + 2
            <= b.len(),
        b.skip(i) == le32_bytes(y) + tail ==> le32(b, i) == y && b.skip(i + 4) == tail && i + 4
            <= b.len(),
        b.skip(i) == le64_bytes(z) + tail ==> le64(b, i) == z && b.skip(i + 8) == tail && i + 8
            <= b.len(),
{
    let a = b.take(i);
    assert(b =~= a + b.skip(i));
    little_endian_reads_back(a, x, y, z, tail);
    if b.skip(i) == le16_bytes(x) + tail {
        next_part(b, i, le16_bytes(x), tail);
        assert(b =~= a + le16_bytes(x) + tail);
    }
    if b.skip(i) == le32_bytes(y) + tail {
        next_part(b, i, le32_bytes(y), tail);
        assert(b =~= a + le32_bytes(y) + tail);
    }
    if b.skip(i) == le64_bytes(z) + tail {
        next_part(b, i, le64_bytes(z), tail);
        assert(b =~= a + le64_bytes(z) + tail);
    }
}

/// A big endian number that stands at a place is read there, and the rest stands behind it.
pub proof fn next_be(b: Seq<u8>, i: int, x: u16, y: u32, z: u64, tail: Seq<u8>)
    requires
        0 <= i <= b.len(),
    ensures
        b.skip(i) == be16_bytes(x) + tail ==> be16(b, i) == x && b.skip(i + 2) == tail && i + 2
            <= b.len(),
        b.skip(i) == be32_bytes(y) + tail ==> be32(b, i) == y && b.skip(i + 4) == tail && i + 4
            <= b.len(),
        b.skip(i) == be64_bytes(z) + tail ==> be64(b, i) == z && b.skip(i + 8) == tail && i + 8
            <= b.len(),
{
    let a = b.take(i);
    assert(b =~= a + b.skip(i));
    big_endian_reads_back(a, x, y, z, tail);
    if b.skip(i) == be16_bytes(x) + tail {
        next_part(b, i, be16_bytes(x), tail);
        assert(b =~= a + be16_bytes(x) + tail);
    }
    if b.skip(i) == be32_bytes(y) + tail {
        next_part(b, i, be32_bytes(y), tail);
        assert(b =~= a + be32_bytes(y) + tail);
    }
    if b.skip(i) == be64_bytes(z) + tail {
        next_part(b, i, be64_bytes(z), tail);
        assert(b =~= a + be64_bytes(z) + tail);
    }
}

} // verus!
