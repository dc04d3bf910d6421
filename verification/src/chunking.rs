//! Partition of a firmware image into the fixed-size chunks of the transfer
//! protocol: 64-byte slices in order, the last one possibly shorter.

use vstd::prelude::*;

verus! {

/// Bytes per transfer chunk.
pub const CHUNK_SIZE: usize = 64;

/// How many chunks an image of `n` bytes is sent as: ⌈n / 64⌉.
pub open spec fn num_chunks(n: nat) -> nat {
    ((n + 63) / 64) as nat
}

/// The `i`-th chunk of `s`: bytes 64·i up to 64·(i+1), capped at the end.
pub open spec fn chunk_of(s: Seq<u8>, i: int) -> Seq<u8>
    recommends
        0 <= i < num_chunks(s.len()),
{
    s.subrange(64 * i, if 64 * i + 64 <= s.len() { 64 * i + 64 } else { s.len() as int })
}

/// The number of chunks of an image of `n` bytes.
pub fn chunk_count(n: usize) -> (r: usize)
    ensures
        r == num_chunks(n as nat),
{
    if n == 0 {
        0
    } else {
        proof {
            assert((n - 1) / 64 + 1 == (n + 63) / 64) by (nonlinear_arith)
                requires
                    n >= 1,
            ;
        }
        (n - 1) / 64 + 1
    }
}

/// Copies the `i`-th chunk of `fw` out as an owned vector.
pub fn chunk_at(fw: &[u8], i: usize) -> (r: Vec<u8>)
    requires
        i < num_chunks(fw@.len()),
    ensures
        r@ == chunk_of(fw@, i as int),
{
    let n = fw.len();
    proof {
        assert(i * 64 < n && 64 * i == i * 64) by (nonlinear_arith)
            requires
                i < (n + 63) / 64,
        ;
    }
    let start = i * 64;
    let end = if n - start >= CHUNK_SIZE {
        start + CHUNK_SIZE
    } else {
        n
    };
    let piece = vstd::slice::slice_subrange(fw, start, end);
    vstd::slice::slice_to_vec(piece)
}

/// The chunk partition law: an image of length `n` is sent as ⌈n/64⌉ chunks;
/// every chunk but the last holds exactly 64 bytes; the last holds `n mod 64`
/// bytes, or 64 when `n` is a positive multiple of 64; and each chunk is the
/// corresponding slice of the image.
pub proof fn lemma_chunk_partition(s: Seq<u8>)
    ensures
        num_chunks(s.len()) == (s.len() + 63) / 64,
        forall|i: int|
            0 <= i < num_chunks(s.len()) - 1 ==> (#[trigger] chunk_of(s, i)).len() == 64,
        s.len() > 0 && s.len() % 64 == 0 ==> chunk_of(
            s,
            num_chunks(s.len()) - 1,
        ).len() == 64,
        s.len() % 64 != 0 ==> chunk_of(s, num_chunks(s.len()) - 1).len() == s.len() % 64,
        forall|i: int|
            0 <= i < num_chunks(s.len()) ==> (#[trigger] chunk_of(s, i)) == s.subrange(
                64 * i,
                64 * i + chunk_of(s, i).len(),
            ),
{
    let n = s.len() as int;
    let k = num_chunks(s.len()) as int;
    assert forall|i: int| 0 <= i < k - 1 implies (#[trigger] chunk_of(s, i)).len() == 64 by {
        assert(64 * i + 64 <= n) by (nonlinear_arith)
            requires
                i < (n + 63) / 64 - 1,
                0 <= i,
                n >= 0,
        ;
    }
    if s.len() > 0 && s.len() % 64 == 0 {
        assert(64 * (k - 1) + 64 == n) by (nonlinear_arith)
            requires
                k == (n + 63) / 64,
                n > 0,
                n % 64 == 0,
        ;
    }
    if s.len() % 64 != 0 {
        assert(64 * (k - 1) >= 0 && 64 * (k - 1) + 64 > n && n - 64 * (k - 1) == n % 64)
            by (nonlinear_arith)
            requires
                k == (n + 63) / 64,
                n >= 0,
                n % 64 != 0,
        ;
    }
    assert forall|i: int| 0 <= i < k implies (#[trigger] chunk_of(s, i)) == s.subrange(
        64 * i,
        64 * i + chunk_of(s, i).len(),
    ) by {
        assert(64 * i < n) by (nonlinear_arith)
            requires
                0 <= i,
                i < (n + 63) / 64,
                n >= 0,
        ;
    }
}

} // verus!
