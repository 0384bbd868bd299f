//! Page-aware memory I/O planning and the breakpoint-hiding overlay.
//!
//! Reads are split at page boundaries so no single kernel read straddles a
//! page; writes go as aligned 8-byte words with trailing fragments merged
//! into freshly read words; the overlay replaces planted INT3 bytes by the
//! sites' saved bytes so breakpoints stay invisible to the disassembler.

use vstd::bytes::spec_u64_to_le_bytes;
use vstd::prelude::*;

use crate::address::VirtAddr;
use crate::breakpoints::{BreakpointSite, BreakpointStore, has_addr, idx_of_addr, idx_of_id};
use crate::bytes::get_u64_at;

verus! {

broadcast use vstd::std_specs::vec::group_vec_axioms;

/// The page size the split assumes.
pub const PAGE_SIZE: u64 = 4096;

/// The page fragments a read of `size` bytes at `addr` splits into: each
/// fragment runs at most to its page's end, and the next starts where the
/// previous ended.
pub open spec fn chunks_spec(addr: int, size: int) -> Seq<(u64, usize)>
    decreases size,
{
    if size <= 0 {
        Seq::empty()
    } else {
        let up_to_next = 4096 - (addr % 4096);
        let c = if size <= up_to_next {
            size
        } else {
            up_to_next
        };
        seq![(addr as u64, c as usize)] + chunks_spec(addr + c, size - c)
    }
}

/// The total length of a fragment list.
pub open spec fn chunks_total(chunks: Seq<(u64, usize)>) -> int
    decreases chunks.len(),
{
    if chunks.len() == 0 {
        0
    } else {
        chunks[0].1 + chunks_total(chunks.drop_first())
    }
}

/// What the page split guarantees: the fragments cover exactly `[addr,
/// addr + size)`, in order and without gaps, each fragment nonempty and
/// contained in one page.
pub proof fn lemma_chunks_cover(addr: int, size: int)
    requires
        0 <= addr,
        0 <= size,
        addr + size <= u64::MAX,
    ensures
        chunks_total(chunks_spec(addr, size)) == size,
        size > 0 ==> chunks_spec(addr, size).len() > 0 && chunks_spec(addr, size)[0].0 == addr,
        forall|k: int|
            0 <= k < chunks_spec(addr, size).len() ==> {
                let c = #[trigger] chunks_spec(addr, size)[k];
                1 <= c.1 && (c.0 as int % 4096) + c.1 <= 4096
            },
        forall|k: int|
            0 <= k < chunks_spec(addr, size).len() - 1 ==> (#[trigger] chunks_spec(addr, size)[k
                + 1]).0 == chunks_spec(addr, size)[k].0 + chunks_spec(addr, size)[k].1,
    decreases size,
{
    if size > 0 {
        let up_to_next = 4096 - (addr % 4096);
        let c = if size <= up_to_next {
            size
        } else {
            up_to_next
        };
        lemma_chunks_cover(addr + c, size - c);
        let rest = chunks_spec(addr + c, size - c);
        let whole = chunks_spec(addr, size);
        assert(whole == seq![(addr as u64, c as usize)] + rest);
        assert(whole.drop_first() =~= rest);
        if size - c > 0 {
            assert(rest[0].0 == addr + c);
        }
    }
}

/// Split a read of `size` bytes at `addr` into per-page fragments.
pub fn page_chunks(addr: VirtAddr, size: usize) -> (r: Vec<(u64, usize)>)
    requires
        addr.0 + size <= u64::MAX,
    ensures
        r@ == chunks_spec(addr.0 as int, size as int),
{
    let mut out: Vec<(u64, usize)> = Vec::new();
    let mut cur: u64 = addr.0;
    let mut left: usize = size;
    while left > 0
        invariant
            cur + left <= u64::MAX,
            chunks_spec(addr.0 as int, size as int) == out@ + chunks_spec(
                cur as int,
                left as int,
            ),
        decreases left,
    {
        let off_in_page: u64 = cur % PAGE_SIZE;
        let up_to_next: u64 = PAGE_SIZE - off_in_page;
        let c: usize = if left as u64 <= up_to_next {
            left
        } else {
            up_to_next as usize
        };
        let ghost pre = out@;
        out.push((cur, c));
        proof {
            let tail = chunks_spec(cur as int, left as int);
            assert(tail == seq![(cur, c)] + chunks_spec(cur + c, left - c));
            assert(out@ + chunks_spec(cur + c, left - c) =~= pre + tail);
        }
        cur = cur + c as u64;
        left = left - c;
    }
    proof {
        assert(chunks_spec(cur as int, 0) == Seq::<(u64, usize)>::empty());
        assert(out@ =~= out@ + Seq::<(u64, usize)>::empty());
    }
    out
}

/// Merge the trailing fragment of a write with a freshly read word: the
/// word's low bytes are the data's tail, the rest keep the old bytes.
pub fn merge_tail_word(data: &Vec<u8>, written: usize, old_word: &Vec<u8>) -> (r: u64)
    requires
        written < data.len(),
        data.len() - written < 8,
        old_word.len() == 8,
    ensures
        spec_u64_to_le_bytes(r) == data@.skip(written as int) + old_word@.skip(
            data@.len() - written,
        ),
{
    let rem = data.len() - written;
    let mut word_bytes: Vec<u8> = Vec::new();
    let mut j: usize = 0;
    while j < 8
        invariant
            written < data.len(),
            rem == data@.len() - written,
            rem < 8,
            old_word@.len() == 8,
            j <= 8,
            word_bytes@.len() == j,
            forall|k: int|
                0 <= k < j ==> word_bytes@[k] == if k < rem {
                    data@[written + k]
                } else {
                    old_word@[k]
                },
        decreases 8 - j,
    {
        if j < rem {
            word_bytes.push(data[written + j]);
        } else {
            word_bytes.push(old_word[j]);
        }
        j = j + 1;
    }
    let r = get_u64_at(&word_bytes, 0);
    proof {
        vstd::bytes::lemma_auto_spec_u64_to_from_le_bytes();
        assert(word_bytes@.subrange(0, 8) =~= word_bytes@);
        assert(word_bytes@ =~= data@.skip(written as int) + old_word@.skip(data@.len() - written));
    }
    r
}

/// Whether an enabled breakpoint site covers address `a`.
pub open spec fn enabled_at(sites: Seq<BreakpointSite>, a: int) -> bool {
    exists|k: int| 0 <= k < sites.len() && (#[trigger] sites[k]).addr.0 == a && sites[k].enabled
}

/// The saved byte of the site covering address `a`.
pub open spec fn saved_at(sites: Seq<BreakpointSite>, a: int) -> u8 {
    sites[idx_of_addr(sites, a as u64)].saved_byte
}

/// `buf`, as read starting at `base`, with every byte at an enabled site's
/// address replaced by that site's saved byte.
pub open spec fn overlay_spec(buf: Seq<u8>, base: int, sites: Seq<BreakpointSite>) -> Seq<u8> {
    Seq::new(
        buf.len(),
        |i: int|
            if enabled_at(sites, base + i) {
                saved_at(sites, base + i)
            } else {
                buf[i]
            },
    )
}

/// Hide planted breakpoints in a freshly read buffer: every byte at an
/// enabled site's address becomes the site's saved byte; every other byte is
/// returned as read.
pub fn hide_traps(buf: Vec<u8>, base: VirtAddr, store: &BreakpointStore) -> (r: Vec<u8>)
    requires
        store.wf(),
        base.0 + buf.len() <= u64::MAX,
    ensures
        r@ == overlay_spec(buf@, base.0 as int, store.sites_seq()),
{
    let ghost orig = buf@;
    let mut out = buf;
    let n = out.len();
    let mut i: usize = 0;
    while i < n
        invariant
            store.wf(),
            base.0 + n <= u64::MAX,
            n == out@.len(),
            orig.len() == n,
            i <= n,
            forall|j: int|
                0 <= j < n ==> out@[j] == if i <= j {
                    orig[j]
                } else if enabled_at(store.sites_seq(), base.0 + j) {
                    saved_at(store.sites_seq(), base.0 + j)
                } else {
                    orig[j]
                },
        decreases n - i,
    {
        let a = VirtAddr(base.0 + i as u64);
        match store.get_by_addr(&a) {
            Some(site) => {
                proof {
                    let s = store.sites_seq();
                    let ci = idx_of_addr(s, a.0);
                    assert(0 <= ci < s.len() && s[ci].addr.0 == a.0);
                    assert(site == s[idx_of_id(s, s[ci].id)]);
                    let cj = idx_of_id(s, s[ci].id);
                    if cj != ci {
                        assert(s[cj].id < s[ci].id || s[ci].id < s[cj].id);
                    }
                    assert(site == s[ci]);
                }
                if site.enabled {
                    proof {
                        assert(enabled_at(store.sites_seq(), base.0 + i));
                        assert(saved_at(store.sites_seq(), base.0 + i) == site.saved_byte);
                    }
                    out[i] = site.saved_byte;
                } else {
                    proof {
                        let s = store.sites_seq();
                        assert forall|k: int|
                            0 <= k < s.len() && (#[trigger] s[k]).addr.0 == base.0
                                + i implies !s[k].enabled by {
                            let ci = idx_of_addr(s, a.0);
                            if k != ci {
                                assert(s[k].addr != s[ci].addr);
                            }
                        }
                        assert(!enabled_at(store.sites_seq(), base.0 + i));
                    }
                }
            },
            None => {
                proof {
                    assert(!has_addr(store.sites_seq(), a.0));
                    assert(!enabled_at(store.sites_seq(), base.0 + i));
                }
            },
        }
        i = i + 1;
    }
    proof {
        assert(out@ =~= overlay_spec(orig, base.0 as int, store.sites_seq()));
    }
    out
}

} // verus!
