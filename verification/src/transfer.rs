//! Chunked firmware transfer: the target-specific chunk size and the plan of
//! write-memory commands that covers a firmware image, one write per chunk,
//! the final short chunk zero-padded to the chunk boundary.

use vstd::prelude::*;

use crate::commands::AP2Target;

verus! {

/// Chunk size for a routing target: 32 bytes for the BLE MCU, 48 bytes for
/// every other target (chosen so header + address + chunk fits in a report).
pub open spec fn chunk_size_of(target: AP2Target) -> int {
    if target is McuBle {
        32
    } else {
        48
    }
}

/// The chunk size is 32 exactly when the target is the BLE MCU, and 48 for
/// every other target.
pub proof fn lemma_chunk_size(target: AP2Target)
    ensures
        chunk_size_of(target) == 32 <==> target is McuBle,
        !(target is McuBle) ==> chunk_size_of(target) == 48,
        0 < chunk_size_of(target) <= 48,
{
}

pub fn chunk_size(target: AP2Target) -> (r: usize)
    ensures
        r == chunk_size_of(target),
{
    match target {
        AP2Target::McuBle => 32,
        _ => 48,
    }
}

/// How many write-memory commands an image of `len` bytes takes with chunk
/// size `c`: the ceiling of `len / c`, with no trailing empty write.
pub open spec fn num_chunks(len: int, c: int) -> int
    recommends
        0 <= len,
        0 < c,
{
    (len + c - 1) / c
}

/// `num_chunks` is `len / c` exactly when `c` divides `len`, and one more
/// write otherwise.
pub proof fn lemma_chunk_count(len: int, c: int)
    by (nonlinear_arith)
    requires
        0 <= len,
        0 < c,
    ensures
        len % c == 0 ==> num_chunks(len, c) == len / c,
        len % c != 0 ==> num_chunks(len, c) == len / c + 1,
{
}

/// The chunk-sized slice of `image` that starts at `start`, zero-padded up
/// to `c` bytes when fewer than `c` image bytes remain.
pub open spec fn padded_chunk_at(image: Seq<u8>, c: int, start: int) -> Seq<u8>
    recommends
        0 < c,
        0 <= start < image.len(),
{
    let end = if start + c <= image.len() {
        start + c
    } else {
        image.len() as int
    };
    image.subrange(start, end) + Seq::new((c - (end - start)) as nat, |k: int| 0u8)
}

/// Every padded chunk is exactly `c` bytes, carries the remaining image
/// bytes verbatim, and is zero beyond them.
pub proof fn lemma_padded_chunk(image: Seq<u8>, c: int, start: int)
    requires
        0 < c,
        0 <= start < image.len(),
    ensures
        padded_chunk_at(image, c, start).len() == c,
        forall|k: int|
            0 <= k < c && start + k < image.len() ==> padded_chunk_at(image, c, start)[k]
                == image[start + k],
        forall|k: int|
            0 <= k < c && start + k >= image.len() ==> padded_chunk_at(image, c, start)[k] == 0u8,
{
}

/// One write-memory command of the transfer plan: the destination address
/// and the full chunk-sized buffer to send.
pub struct ChunkWrite {
    pub addr: u32,
    pub data: Vec<u8>,
}

pub(crate) fn build_padded_chunk(image: &Vec<u8>, start: usize, c: usize) -> (r: Vec<u8>)
    requires
        0 < c,
        start < image@.len(),
    ensures
        r@ == padded_chunk_at(image@, c as int, start as int),
        r@.len() == c,
{
    let mut r: Vec<u8> = Vec::new();
    let end: usize = if c <= image.len() - start {
        start + c
    } else {
        image.len()
    };
    let mut i: usize = start;
    while i < end
        invariant
            start <= i <= end <= image@.len(),
            r@ == image@.subrange(start as int, i as int),
        decreases end - i,
    {
        r.push(image[i]);
        proof {
            assert(r@ =~= image@.subrange(start as int, i + 1));
        }
        i = i + 1;
    }
    while r.len() < c
        invariant
            start <= end <= image@.len(),
            r@.len() <= c,
            r@.take((end - start) as int) == image@.subrange(start as int, end as int),
            (end - start) as int <= r@.len(),
            forall|k: int| end - start <= k < r@.len() ==> r@[k] == 0u8,
        decreases c - r@.len(),
    {
        r.push(0);
        proof {
            assert(r@.take((end - start) as int) =~= image@.subrange(
                start as int,
                end as int,
            ));
        }
    }
    proof {
        assert(forall|k: int|
            0 <= k < end - start ==> r@[k] == r@.take((end - start) as int)[k]);
        assert(r@ =~= padded_chunk_at(image@, c as int, start as int));
    }
    r
}

/// Splits `image` into the ordered list of write-memory commands that a
/// transfer issues: one write per chunk, addresses advancing from `base` by
/// the bytes actually taken from the image, the final short chunk zero-padded
/// to the chunk boundary.  An empty image yields no writes.
pub fn plan_chunks(target: AP2Target, base: u32, image: &Vec<u8>) -> (r: Vec<ChunkWrite>)
    requires
        base + image@.len() <= u32::MAX,
    ensures
        r@.len() == num_chunks(image@.len() as int, chunk_size_of(target)),
        forall|i: int|
            0 <= i < r@.len() ==> (#[trigger] r@[i]).addr == base + i * chunk_size_of(target),
        forall|i: int|
            0 <= i < r@.len() ==> (#[trigger] r@[i]).data@ == padded_chunk_at(
                image@,
                chunk_size_of(target),
                i * chunk_size_of(target),
            ),
        forall|i: int| 0 <= i < r@.len() ==> (#[trigger] r@[i]).data@.len() == chunk_size_of(target),
{
    let c = chunk_size(target);
    let ghost cc: int = c as int;
    let ghost len: int = image@.len() as int;
    let mut r: Vec<ChunkWrite> = Vec::new();
    let mut off: usize = 0;
    while off < image.len()
        invariant
            c == chunk_size_of(target),
            0 < c <= 48,
            cc == c as int,
            len == image@.len(),
            base + len <= u32::MAX,
            off <= image@.len(),
            off < len ==> off == r@.len() * cc,
            off == len ==> r@.len() == num_chunks(len, cc),
            forall|i: int| 0 <= i < r@.len() ==> (#[trigger] r@[i]).addr == base + i * cc,
            forall|i: int|
                0 <= i < r@.len() ==> (#[trigger] r@[i]).data@ == padded_chunk_at(image@, cc, i * cc),
            forall|i: int| 0 <= i < r@.len() ==> (#[trigger] r@[i]).data@.len() == cc,
        decreases image@.len() - off,
    {
        let ghost k: int = r@.len() as int;
        proof {
            assert(k * cc == off);
        }
        let data = build_padded_chunk(image, off, c);
        let addr: u32 = base + (off as u32);
        r.push(ChunkWrite { addr, data });
        let step: usize = if c <= image.len() - off {
            c
        } else {
            image.len() - off
        };
        off = off + step;
        proof {
            assert((k + 1) * cc == k * cc + cc) by (nonlinear_arith);
            if off < len {
                assert(off == r@.len() * cc);
            } else {
                assert(off == len);
                assert(k * cc < len <= (k + 1) * cc);
                assert(r@.len() == num_chunks(len, cc)) by (nonlinear_arith)
                    requires
                        r@.len() == k + 1,
                        k * cc < len <= (k + 1) * cc,
                        0 < cc,
                        0 <= k,
                ;
            }
        }
    }
    proof {
        if image@.len() == 0 {
            assert(num_chunks(0, cc) == 0) by (nonlinear_arith)
                requires
                    0 < cc,
            ;
        }
    }
    r
}

} // verus!
