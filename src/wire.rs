//! Little-endian integers and fixed-size byte runs, read from and written
//! to byte buffers.
//!
//! The readers take the bytes already consumed as a ghost prefix so that a
//! caller decoding a whole layout field by field keeps, at each step, the
//! fact that what it has read re-encodes to the buffer's prefix.
use vstd::prelude::*;

verus! {

/// The four bytes of `x`, least significant first.
pub open spec fn le32(x: u32) -> Seq<u8> {
    seq![x as u8, (x >> 8) as u8, (x >> 16) as u8, (x >> 24) as u8]
}

/// The eight bytes of `x`, least significant first.
pub open spec fn le64(x: u64) -> Seq<u8> {
    seq![
        x as u8,
        (x >> 8) as u8,
        (x >> 16) as u8,
        (x >> 24) as u8,
        (x >> 32) as u8,
        (x >> 40) as u8,
        (x >> 48) as u8,
        (x >> 56) as u8,
    ]
}

/// The integer whose little-endian bytes are the first four of `s`.
pub open spec fn u32_from_le(s: Seq<u8>) -> u32 {
    (s[0] as u32) | ((s[1] as u32) << 8) | ((s[2] as u32) << 16) | ((s[3] as u32) << 24)
}

proof fn lemma_u32_bytes(b0: u8, b1: u8, b2: u8, b3: u8, r: u32)
    by (bit_vector)
    requires
        r == (b0 as u32) | ((b1 as u32) << 8) | ((b2 as u32) << 16) | ((b3 as u32) << 24),
    ensures
        r as u8 == b0,
        (r >> 8) as u8 == b1,
        (r >> 16) as u8 == b2,
        (r >> 24) as u8 == b3,
{
}

proof fn lemma_u64_bytes(b0: u8, b1: u8, b2: u8, b3: u8, b4: u8, b5: u8, b6: u8, b7: u8, r: u64)
    by (bit_vector)
    requires
        r == (b0 as u64) | ((b1 as u64) << 8) | ((b2 as u64) << 16) | ((b3 as u64) << 24) | ((
        b4 as u64) << 32) | ((b5 as u64) << 40) | ((b6 as u64) << 48) | ((b7 as u64) << 56),
    ensures
        r as u8 == b0,
        (r >> 8) as u8 == b1,
        (r >> 16) as u8 == b2,
        (r >> 24) as u8 == b3,
        (r >> 32) as u8 == b4,
        (r >> 40) as u8 == b5,
        (r >> 48) as u8 == b6,
        (r >> 56) as u8 == b7,
{
}

/// An integer reads back from its own encoding.
pub proof fn lemma_u32_from_le32(x: u32)
    ensures
        u32_from_le(le32(x)) == x,
{
    let (b0, b1, b2, b3) = (x as u8, (x >> 8) as u8, (x >> 16) as u8, (x >> 24) as u8);
    assert(((b0 as u32) | ((b1 as u32) << 8) | ((b2 as u32) << 16) | ((b3 as u32) << 24)) == x)
        by (bit_vector)
        requires
            b0 == x as u8,
            b1 == (x >> 8) as u8,
            b2 == (x >> 16) as u8,
            b3 == (x >> 24) as u8,
    ;
}

/// Distinct integers have distinct encodings.
pub proof fn lemma_le32_injective(x: u32, y: u32)
    requires
        le32(x) == le32(y),
    ensures
        x == y,
{
    assert(le32(x)[0] == le32(y)[0] && le32(x)[1] == le32(y)[1] && le32(x)[2] == le32(y)[2]
        && le32(x)[3] == le32(y)[3]);
    assert(x == y) by (bit_vector)
        requires
            x as u8 == y as u8,
            (x >> 8) as u8 == (y >> 8) as u8,
            (x >> 16) as u8 == (y >> 16) as u8,
            (x >> 24) as u8 == (y >> 24) as u8,
    ;
}

/// Distinct 64-bit integers have distinct encodings.
pub proof fn lemma_le64_injective(x: u64, y: u64)
    requires
        le64(x) == le64(y),
    ensures
        x == y,
{
    assert(le64(x)[0] == le64(y)[0] && le64(x)[1] == le64(y)[1] && le64(x)[2] == le64(y)[2]
        && le64(x)[3] == le64(y)[3] && le64(x)[4] == le64(y)[4] && le64(x)[5] == le64(y)[5]
        && le64(x)[6] == le64(y)[6] && le64(x)[7] == le64(y)[7]);
    assert(x == y) by (bit_vector)
        requires
            x as u8 == y as u8,
            (x >> 8) as u8 == (y >> 8) as u8,
            (x >> 16) as u8 == (y >> 16) as u8,
            (x >> 24) as u8 == (y >> 24) as u8,
            (x >> 32) as u8 == (y >> 32) as u8,
            (x >> 40) as u8 == (y >> 40) as u8,
            (x >> 48) as u8 == (y >> 48) as u8,
            (x >> 56) as u8 == (y >> 56) as u8,
    ;
}

/// Reads the little-endian `u32` at `pos`, which follows the bytes `done`.
pub fn read_u32(b: &[u8], pos: usize, Ghost(done): Ghost<Seq<u8>>) -> (r: u32)
    requires
        pos + 4 <= b@.len(),
        done == b@.subrange(0, pos as int),
    ensures
        done + le32(r) == b@.subrange(0, pos + 4),
        r == u32_from_le(b@.subrange(pos as int, pos + 4)),
{
    let b0 = b[pos];
    let b1 = b[pos + 1];
    let b2 = b[pos + 2];
    let b3 = b[pos + 3];
    let r: u32 = (b0 as u32) | ((b1 as u32) << 8) | ((b2 as u32) << 16) | ((b3 as u32) << 24);
    proof {
        lemma_u32_bytes(b0, b1, b2, b3, r);
        assert(done + le32(r) =~= b@.subrange(0, pos + 4));
    }
    r
}

/// Reads the little-endian `u64` at `pos`, which follows the bytes `done`.
pub fn read_u64(b: &[u8], pos: usize, Ghost(done): Ghost<Seq<u8>>) -> (r: u64)
    requires
        pos + 8 <= b@.len(),
        done == b@.subrange(0, pos as int),
    ensures
        done + le64(r) == b@.subrange(0, pos + 8),
{
    let b0 = b[pos];
    let b1 = b[pos + 1];
    let b2 = b[pos + 2];
    let b3 = b[pos + 3];
    let b4 = b[pos + 4];
    let b5 = b[pos + 5];
    let b6 = b[pos + 6];
    let b7 = b[pos + 7];
    let r: u64 = (b0 as u64) | ((b1 as u64) << 8) | ((b2 as u64) << 16) | ((b3 as u64) << 24) | ((
    b4 as u64) << 32) | ((b5 as u64) << 40) | ((b6 as u64) << 48) | ((b7 as u64) << 56);
    proof {
        lemma_u64_bytes(b0, b1, b2, b3, b4, b5, b6, b7, r);
        assert(done + le64(r) =~= b@.subrange(0, pos + 8));
    }
    r
}

/// Reads the byte at `pos`, which follows the bytes `done`.
pub fn read_u8(b: &[u8], pos: usize, Ghost(done): Ghost<Seq<u8>>) -> (r: u8)
    requires
        pos + 1 <= b@.len(),
        done == b@.subrange(0, pos as int),
    ensures
        done + seq![r] == b@.subrange(0, pos + 1),
{
    let r = b[pos];
    proof {
        assert(done + seq![r] =~= b@.subrange(0, pos + 1));
    }
    r
}

/// Copies the `N` bytes at `pos`, which follow the bytes `done`.
pub fn read_array<const N: usize>(b: &[u8], pos: usize, Ghost(done): Ghost<Seq<u8>>) -> (r: [u8; N])
    requires
        pos + N <= b@.len(),
        done == b@.subrange(0, pos as int),
    ensures
        done + r@ == b@.subrange(0, pos + N),
{
    let mut a: [u8; N] = [0u8; N];
    let len = b.len();
    let mut i: usize = 0;
    while i < N
        invariant
            i <= N,
            len == b@.len(),
            pos + N <= b@.len(),
            a@.len() == N,
            forall|j: int| 0 <= j < i ==> a@[j] == b@[pos + j],
        decreases N - i,
    {
        a[i] = b[pos + i];
        i = i + 1;
    }
    proof {
        assert(done + a@ =~= b@.subrange(0, pos + N));
    }
    a
}

/// Appends the little-endian bytes of `x`.
pub fn push_u32(out: &mut Vec<u8>, x: u32)
    ensures
        final(out)@ == old(out)@ + le32(x),
{
    out.push(x as u8);
    out.push((x >> 8) as u8);
    out.push((x >> 16) as u8);
    out.push((x >> 24) as u8);
    proof {
        assert(final(out)@ =~= old(out)@ + le32(x));
    }
}

/// Appends the little-endian bytes of `x`.
pub fn push_u64(out: &mut Vec<u8>, x: u64)
    ensures
        final(out)@ == old(out)@ + le64(x),
{
    out.push(x as u8);
    out.push((x >> 8) as u8);
    out.push((x >> 16) as u8);
    out.push((x >> 24) as u8);
    out.push((x >> 32) as u8);
    out.push((x >> 40) as u8);
    out.push((x >> 48) as u8);
    out.push((x >> 56) as u8);
    proof {
        assert(final(out)@ =~= old(out)@ + le64(x));
    }
}

/// Appends one byte.
pub fn push_u8(out: &mut Vec<u8>, x: u8)
    ensures
        final(out)@ == old(out)@ + seq![x],
{
    out.push(x);
    proof {
        assert(final(out)@ =~= old(out)@ + seq![x]);
    }
}

/// Appends every byte of `s`, in order.
pub fn push_bytes(out: &mut Vec<u8>, s: &[u8])
    ensures
        final(out)@ == old(out)@ + s@,
{
    let ghost start = out@;
    let mut i: usize = 0;
    while i < s.len()
        invariant
            i <= s@.len(),
            out@ == start + s@.subrange(0, i as int),
        decreases s@.len() - i,
    {
        out.push(s[i]);
        i = i + 1;
        proof {
            assert(out@ =~= start + s@.subrange(0, i as int));
        }
    }
    proof {
        assert(s@.subrange(0, s@.len() as int) =~= s@);
    }
}

} // verus!
