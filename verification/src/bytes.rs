//! Byte-buffer helpers: bounded copies and little-endian words at offsets.

use vstd::bytes::{
    spec_u16_from_le_bytes, spec_u32_from_le_bytes, spec_u64_from_le_bytes,
    spec_u16_to_le_bytes, spec_u32_to_le_bytes, spec_u64_to_le_bytes,
    u16_from_le_bytes, u32_from_le_bytes, u64_from_le_bytes,
    u16_to_le_bytes, u32_to_le_bytes, u64_to_le_bytes,
};
use vstd::prelude::*;
use vstd::slice::slice_subrange;

verus! {

broadcast use vstd::std_specs::vec::group_vec_axioms;

/// Copy `src` over the front of `dst`; whichever is shorter bounds the copy.
pub fn copy_bytes(dst: &mut Vec<u8>, src: &Vec<u8>)
    ensures
        final(dst)@.len() == old(dst)@.len(),
        forall|i: int|
            0 <= i < old(dst)@.len() ==> final(dst)@[i] == if i < src@.len() {
                src@[i]
            } else {
                old(dst)@[i]
            },
{
    let n = if src.len() < dst.len() {
        src.len()
    } else {
        dst.len()
    };
    let mut i: usize = 0;
    while i < n
        invariant
            n <= src@.len(),
            n <= dst@.len(),
            i <= n,
            dst@.len() == old(dst)@.len(),
            forall|j: int| 0 <= j < i ==> dst@[j] == src@[j],
            forall|j: int| i <= j < dst@.len() ==> dst@[j] == old(dst)@[j],
        decreases n - i,
    {
        dst[i] = src[i];
        i = i + 1;
    }
}

/// Read the two bytes at `off` as a little-endian `u16`.
pub fn get_u16_at(data: &Vec<u8>, off: usize) -> (r: u16)
    requires
        off + 2 <= data.len(),
    ensures
        r == spec_u16_from_le_bytes(data@.subrange(off as int, off + 2)),
{
    u16_from_le_bytes(slice_subrange(data.as_slice(), off, off + 2))
}

/// Read the four bytes at `off` as a little-endian `u32`.
pub fn get_u32_at(data: &Vec<u8>, off: usize) -> (r: u32)
    requires
        off + 4 <= data.len(),
    ensures
        r == spec_u32_from_le_bytes(data@.subrange(off as int, off + 4)),
{
    u32_from_le_bytes(slice_subrange(data.as_slice(), off, off + 4))
}

/// Read the eight bytes at `off` as a little-endian `u64`.
pub fn get_u64_at(data: &Vec<u8>, off: usize) -> (r: u64)
    requires
        off + 8 <= data.len(),
    ensures
        r == spec_u64_from_le_bytes(data@.subrange(off as int, off + 8)),
{
    u64_from_le_bytes(slice_subrange(data.as_slice(), off, off + 8))
}

/// Write `x` as two little-endian bytes at `off`.
pub fn put_u16_at(data: &mut Vec<u8>, off: usize, x: u16)
    requires
        off + 2 <= old(data).len(),
    ensures
        final(data)@.len() == old(data)@.len(),
        final(data)@.subrange(off as int, off + 2) == spec_u16_to_le_bytes(x),
        forall|i: int|
            0 <= i < old(data)@.len() && !(off <= i < off + 2) ==> final(data)@[i] == old(
                data,
            )@[i],
{
    let b = u16_to_le_bytes(x);
    data[off] = b[0];
    data[off + 1] = b[1];
    assert(data@.subrange(off as int, off + 2) =~= spec_u16_to_le_bytes(x));
}

/// Write `x` as four little-endian bytes at `off`.
pub fn put_u32_at(data: &mut Vec<u8>, off: usize, x: u32)
    requires
        off + 4 <= old(data).len(),
    ensures
        final(data)@.len() == old(data)@.len(),
        final(data)@.subrange(off as int, off + 4) == spec_u32_to_le_bytes(x),
        forall|i: int|
            0 <= i < old(data)@.len() && !(off <= i < off + 4) ==> final(data)@[i] == old(
                data,
            )@[i],
{
    let b = u32_to_le_bytes(x);
    let mut k: usize = 0;
    while k < 4
        invariant
            b@ == spec_u32_to_le_bytes(x),
            b@.len() == 4,
            off + 4 <= old(data).len(),
            k <= 4,
            data@.len() == old(data)@.len(),
            forall|j: int| 0 <= j < k ==> data@[off + j] == b@[j],
            forall|i: int|
                0 <= i < old(data)@.len() && !(off <= i < off + k) ==> data@[i] == old(data)@[i],
        decreases 4 - k,
    {
        data[off + k] = b[k];
        k = k + 1;
    }
    assert(data@.subrange(off as int, off + 4) =~= spec_u32_to_le_bytes(x));
}

/// Write `x` as eight little-endian bytes at `off`.
pub fn put_u64_at(data: &mut Vec<u8>, off: usize, x: u64)
    requires
        off + 8 <= old(data).len(),
    ensures
        final(data)@.len() == old(data)@.len(),
        final(data)@.subrange(off as int, off + 8) == spec_u64_to_le_bytes(x),
        forall|i: int|
            0 <= i < old(data)@.len() && !(off <= i < off + 8) ==> final(data)@[i] == old(
                data,
            )@[i],
{
    let b = u64_to_le_bytes(x);
    let mut k: usize = 0;
    while k < 8
        invariant
            b@ == spec_u64_to_le_bytes(x),
            b@.len() == 8,
            off + 8 <= old(data).len(),
            k <= 8,
            data@.len() == old(data)@.len(),
            forall|j: int| 0 <= j < k ==> data@[off + j] == b@[j],
            forall|i: int|
                0 <= i < old(data)@.len() && !(off <= i < off + k) ==> data@[i] == old(data)@[i],
        decreases 8 - k,
    {
        data[off + k] = b[k];
        k = k + 1;
    }
    assert(data@.subrange(off as int, off + 8) =~= spec_u64_to_le_bytes(x));
}

} // verus!
