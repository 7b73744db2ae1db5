//! The kernel's memory routines, on byte buffers: copying, moving between
//! overlapping ranges, filling and comparing.

pub mod heap;

use vstd::prelude::*;

verus! {

/// Copies the first `length` bytes of `source` over the first `length` bytes
/// of `destination`.
pub fn memcpy(destination: &mut Vec<u8>, source: &[u8], length: usize)
    requires
        length <= old(destination)@.len(),
        length <= source@.len(),
    ensures
        final(destination)@ == source@.subrange(0, length as int) + old(destination)@.subrange(
            length as int,
            old(destination)@.len() as int,
        ),
{
    let mut offset: usize = 0;
    while offset < length
        invariant
            length <= source@.len(),
            destination@.len() == old(destination)@.len(),
            length <= destination@.len(),
            offset <= length,
            forall|i: int| 0 <= i < offset ==> destination@[i] == source@[i],
            forall|i: int| offset <= i < destination@.len() ==> destination@[i] == old(destination)@[i],
        decreases length - offset,
    {
        destination.set(offset, source[offset]);
        offset += 1;
    }
    assert(destination@ =~= source@.subrange(0, length as int) + old(destination)@.subrange(
        length as int,
        old(destination)@.len() as int,
    ));
}

/// `mem` after the `length` bytes at `source` are copied to `destination`,
/// as if through a separate buffer.
pub open spec fn moved(mem: Seq<u8>, destination: int, source: int, length: int) -> Seq<u8> {
    Seq::new(
        mem.len(),
        |i: int|
            if destination <= i < destination + length {
                mem[i - destination + source]
            } else {
                mem[i]
            },
    )
}

/// Moves `length` bytes within `memory` from offset `source` to offset
/// `destination`; the ranges may overlap. The copy runs backwards when the
/// source lies before the destination, forwards otherwise, so every byte is
/// read before it is overwritten.
pub fn memmove(memory: &mut Vec<u8>, destination: usize, source: usize, length: usize)
    requires
        destination + length <= old(memory).len(),
        source + length <= old(memory).len(),
    ensures
        final(memory)@ == moved(old(memory)@, destination as int, source as int, length as int),
{
    let ghost start = memory@;
    if source < destination {
        let mut offset = length;
        while offset > 0
            invariant
                memory@.len() == start.len(),
                destination + length <= memory.len(),
                source + length <= memory.len(),
                source < destination,
                offset <= length,
                forall|i: int|
                    0 <= i < memory@.len() ==> #[trigger] memory@[i] == (if destination + offset
                        <= i < destination + length {
                        start[i - destination + source]
                    } else {
                        start[i]
                    }),
            decreases offset,
        {
            offset -= 1;
            let byte = memory[source + offset];
            memory.set(destination + offset, byte);
        }
    } else {
        let mut offset: usize = 0;
        while offset < length
            invariant
                memory@.len() == start.len(),
                destination + length <= memory.len(),
                source + length <= memory.len(),
                source >= destination,
                offset <= length,
                forall|i: int|
                    0 <= i < memory@.len() ==> #[trigger] memory@[i] == (if destination <= i
                        < destination + offset {
                        start[i - destination + source]
                    } else {
                        start[i]
                    }),
            decreases length - offset,
        {
            let byte = memory[source + offset];
            memory.set(destination + offset, byte);
            offset += 1;
        }
    }
    assert(memory@ =~= moved(start, destination as int, source as int, length as int));
}

/// Fills the first `length` bytes of `destination` with the low byte of
/// `value`.
pub fn memset(destination: &mut Vec<u8>, value: i32, length: usize)
    requires
        length <= old(destination)@.len(),
    ensures
        final(destination)@.len() == old(destination)@.len(),
        forall|i: int|
            0 <= i < final(destination)@.len() ==> #[trigger] final(destination)@[i] == (if i
                < length {
                (value as int % 256) as u8
            } else {
                old(destination)@[i]
            }),
{
    let byte = (value % 256 + 256) % 256;
    let byte = byte as u8;
    let mut offset: usize = 0;
    while offset < length
        invariant
            destination@.len() == old(destination)@.len(),
            length <= destination@.len(),
            offset <= length,
            byte == (value as int % 256) as u8,
            forall|i: int|
                0 <= i < destination@.len() ==> #[trigger] destination@[i] == (if i < offset {
                    byte
                } else {
                    old(destination)@[i]
                }),
        decreases length - offset,
    {
        destination.set(offset, byte);
        offset += 1;
    }
}

/// The difference of the first differing bytes among the first `n` bytes
/// (searching from `k`), or 0 where they agree.
pub open spec fn compare_from(a: Seq<u8>, b: Seq<u8>, n: int, k: int) -> int
    decreases n - k,
{
    if k >= n {
        0
    } else if a[k] != b[k] {
        a[k] as int - b[k] as int
    } else {
        compare_from(a, b, n, k + 1)
    }
}

/// The comparison of the first `n` bytes, searching from byte `k`.
pub open spec fn compare_rest(a: Seq<u8>, b: Seq<u8>, n: usize, k: usize) -> int {
    compare_from(a, b, n as int, k as int)
}

/// The difference of two bytes.
fn byte_difference(a: u8, b: u8) -> (r: i32)
    ensures
        r == a as int - b as int,
{
    a as i32 - b as i32
}

/// Compares the first `length` bytes of the two buffers: the difference of
/// the first pair that differs, or 0 when they all agree.
pub fn memcmp(source1: &[u8], source2: &[u8], length: usize) -> (r: i32)
    requires
        length <= source1@.len(),
        length <= source2@.len(),
    ensures
        r == compare_rest(source1@, source2@, length, 0),
{
    let mut offset: usize = 0;
    while offset < length
        invariant
            length <= source1@.len(),
            length <= source2@.len(),
            offset <= length,
            compare_rest(source1@, source2@, length, offset) == compare_rest(
                source1@,
                source2@,
                length,
                0,
            ),
        decreases length - offset,
    {
        let byte1 = source1[offset];
        let byte2 = source2[offset];
        if byte1 != byte2 {
            return byte_difference(byte1, byte2);
        }
        offset += 1;
    }
    0
}

/// Comparing a buffer prefix with itself gives 0; and the comparison is 0
/// exactly when the prefixes agree.
pub proof fn lemma_compare_zero_iff_equal(a: Seq<u8>, b: Seq<u8>, n: int, k: int)
    requires
        0 <= k <= n,
        n <= a.len(),
        n <= b.len(),
    ensures
        compare_from(a, b, n, k) == 0 <==> (forall|i: int| k <= i < n ==> a[i] == b[i]),
    decreases n - k,
{
    if k < n {
        lemma_compare_zero_iff_equal(a, b, n, k + 1);
    }
}

} // verus!
