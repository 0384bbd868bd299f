//! Software-breakpoint bookkeeping: sites keyed by id, a reverse index by
//! address, and the INT3 word protocol.
//!
//! The store records ids, addresses, enabled flags and saved bytes; patching
//! the tracee's memory is the process controller's job, which reports the
//! outcome back into the store.

use vstd::prelude::*;

use crate::address::VirtAddr;
use crate::error::{DrbugError, DrbugResult};

verus! {

broadcast use vstd::std_specs::vec::group_vec_axioms;

/// The INT3 opcode that implements a software breakpoint.
pub const INT3: u8 = 0xcc;

/// One breakpoint site: its id, the address it covers, whether the INT3 byte
/// is currently planted, and the original byte it displaced.
#[derive(Clone, Copy, Debug, PartialEq, Eq, Structural)]
pub struct BreakpointSite {
    pub id: usize,
    pub addr: VirtAddr,
    pub enabled: bool,
    pub saved_byte: u8,
}

/// `w` with its low byte replaced by the INT3 opcode.
pub open spec fn int3_word(w: u64) -> u64 {
    (w & 0xffff_ffff_ffff_ff00) | (INT3 as u64)
}

/// `w` with its low byte replaced by `saved`.
pub open spec fn restored_word(w: u64, saved: u8) -> u64 {
    (w & 0xffff_ffff_ffff_ff00) | (saved as u64)
}

/// Byte `i` of the little-endian word `w`.
pub open spec fn word_byte(w: u64, i: u64) -> u64 {
    (w >> (8 * i)) & 0xff
}

/// Plant INT3 into a word read at a site's address: the patched word to poke
/// back and the displaced byte to save.
pub fn enable_patch(w: u64) -> (r: (u64, u8))
    ensures
        r.0 == int3_word(w),
        r.1 == (w & 0xff) as u8,
{
    ((w & 0xffff_ffff_ffff_ff00) | (INT3 as u64), (w & 0xff) as u8)
}

/// Restore a saved byte into a word read at a site's address.
pub fn disable_patch(w: u64, saved: u8) -> (r: u64)
    ensures
        r == restored_word(w, saved),
{
    (w & 0xffff_ffff_ffff_ff00) | (saved as u64)
}

/// Bytes above the lowest are untouched by an INT3 patch.
proof fn lemma_high_byte_kept(w: u64, i: u64)
    by (bit_vector)
    requires
        1 <= i < 8,
    ensures
        word_byte(int3_word(w), i) == word_byte(w, i),
{
}

/// Toggling law: after enabling, the word at the site differs from the
/// original only in its low byte, which reads as INT3; disabling with the
/// saved byte restores the original word exactly.
pub proof fn lemma_int3_toggle(w: u64)
    ensures
        restored_word(int3_word(w), (w & 0xff) as u8) == w,
        int3_word(w) & 0xff == INT3 as u64,
        forall|i: u64| 1 <= i < 8 ==> word_byte(int3_word(w), i) == word_byte(w, i),
{
    assert(((w & 0xffff_ffff_ffff_ff00) | (0xcc as u64)) & 0xffff_ffff_ffff_ff00 | ((w
        & 0xff) as u8) as u64 == w) by (bit_vector);
    assert(((w & 0xffff_ffff_ffff_ff00) | (0xcc as u64)) & 0xff == 0xcc) by (bit_vector);
    assert forall|i: u64| 1 <= i < 8 implies word_byte(int3_word(w), i) == word_byte(w, i) by {
        lemma_high_byte_kept(w, i);
    }
}

/// Whether some site in `s` has this id.
pub open spec fn has_id(s: Seq<BreakpointSite>, id: usize) -> bool {
    exists|i: int| 0 <= i < s.len() && s[i].id == id
}

/// The index of the site with this id.
pub open spec fn idx_of_id(s: Seq<BreakpointSite>, id: usize) -> int {
    choose|i: int| 0 <= i < s.len() && s[i].id == id
}

/// Whether some site in `s` covers this address.
pub open spec fn has_addr(s: Seq<BreakpointSite>, a: u64) -> bool {
    exists|i: int| 0 <= i < s.len() && s[i].addr.0 == a
}

/// The index of the site covering this address.
pub open spec fn idx_of_addr(s: Seq<BreakpointSite>, a: u64) -> int {
    choose|i: int| 0 <= i < s.len() && s[i].addr.0 == a
}

/// The keyed collection of breakpoint sites for one tracee.
pub struct BreakpointStore {
    sites: Vec<BreakpointSite>,
    next_id: usize,
    issued: Ghost<Seq<usize>>,
}

impl BreakpointStore {
    /// The sites, in creation order.
    pub closed spec fn sites_seq(self) -> Seq<BreakpointSite> {
        self.sites@
    }

    /// The id the next created site will get.
    pub closed spec fn spec_next_id(self) -> usize {
        self.next_id
    }

    /// Every id this store has issued over its lifetime, oldest first,
    /// removed sites included.
    pub closed spec fn issued_ids(self) -> Seq<usize> {
        self.issued@
    }

    /// The forward index: id to site.
    pub open spec fn by_id(self) -> Map<usize, BreakpointSite> {
        Map::new(
            |id: usize| has_id(self.sites_seq(), id),
            |id: usize| self.sites_seq()[idx_of_id(self.sites_seq(), id)],
        )
    }

    /// The reverse index: address to id.
    pub open spec fn by_addr(self) -> Map<u64, usize> {
        Map::new(
            |a: u64| has_addr(self.sites_seq(), a),
            |a: u64| self.sites_seq()[idx_of_addr(self.sites_seq(), a)].id,
        )
    }

    /// The store's invariant: ids strictly increase in creation order and
    /// stay below the counter, no two sites share an address, and the ids
    /// ever issued strictly increase with the live ones among them.
    pub open spec fn wf(self) -> bool {
        &&& self.spec_next_id() >= 1
        &&& forall|i: int|
            0 <= i < self.sites_seq().len() ==> #[trigger] self.sites_seq()[i].id
                < self.spec_next_id()
        &&& forall|i: int, j: int|
            0 <= i < j < self.sites_seq().len() ==> #[trigger] self.sites_seq()[i].id
                < #[trigger] self.sites_seq()[j].id
        &&& forall|i: int, j: int|
            0 <= i < self.sites_seq().len() && 0 <= j < self.sites_seq().len() && i != j
                ==> #[trigger] self.sites_seq()[i].addr != #[trigger] self.sites_seq()[j].addr
        &&& forall|i: int, j: int|
            0 <= i < j < self.issued_ids().len() ==> #[trigger] self.issued_ids()[i]
                < #[trigger] self.issued_ids()[j]
        &&& forall|i: int|
            0 <= i < self.issued_ids().len() ==> #[trigger] self.issued_ids()[i]
                < self.spec_next_id()
    }

    /// An empty store; the first site will get id 1.
    pub fn new() -> (r: Self)
        ensures
            r.wf(),
            r.sites_seq() == Seq::<BreakpointSite>::empty(),
            r.spec_next_id() == 1,
            r.issued_ids() == Seq::<usize>::empty(),
    {
        BreakpointStore { sites: Vec::new(), next_id: 1, issued: Ghost(Seq::empty()) }
    }

    /// The index of the site with this id, if one is live.
    fn find_by_id(&self, id: usize) -> (r: Option<usize>)
        ensures
            r is Some ==> 0 <= r->0 < self.sites_seq().len() && self.sites_seq()[r->0 as int].id
                == id,
            r is None ==> !has_id(self.sites_seq(), id),
    {
        let n = self.sites.len();
        let mut i: usize = 0;
        while i < n
            invariant
                n == self.sites_seq().len(),
                i <= n,
                forall|j: int| 0 <= j < i ==> #[trigger] self.sites_seq()[j].id != id,
            decreases n - i,
        {
            if self.sites[i].id == id {
                return Some(i);
            }
            i = i + 1;
        }
        None
    }

    /// The index of the site covering this address, if one is live.
    fn find_by_addr(&self, a: u64) -> (r: Option<usize>)
        ensures
            r is Some ==> 0 <= r->0 < self.sites_seq().len()
                && self.sites_seq()[r->0 as int].addr.0 == a,
            r is None ==> !has_addr(self.sites_seq(), a),
    {
        let n = self.sites.len();
        let mut i: usize = 0;
        while i < n
            invariant
                n == self.sites_seq().len(),
                i <= n,
                forall|j: int| 0 <= j < i ==> #[trigger] self.sites_seq()[j].addr.0 != a,
            decreases n - i,
        {
            if self.sites[i].addr.0 == a {
                return Some(i);
            }
            i = i + 1;
        }
        None
    }

    /// Create a disabled site at the address and hand a copy of it back;
    /// fails with the existing site's id when the address is already covered.
    /// Ids count up by one from 1, so the counter must not yet have reached
    /// the machine's limit.
    pub fn create(&mut self, addr: VirtAddr) -> (r: DrbugResult<BreakpointSite>)
        requires
            old(self).wf(),
            old(self).spec_next_id() < usize::MAX,
        ensures
            final(self).wf(),
            r is Err <==> has_addr(old(self).sites_seq(), addr.0),
            r is Err ==> r->Err_0 == DrbugError::BreakpointSiteExists(
                old(self).by_addr()[addr.0],
                addr,
            ) && *final(self) == *old(self),
            r is Ok ==> r->Ok_0 == (BreakpointSite {
                id: old(self).spec_next_id(),
                addr,
                enabled: false,
                saved_byte: 0,
            }) && final(self).sites_seq() == old(self).sites_seq().push(r->Ok_0)
                && final(self).spec_next_id() == old(self).spec_next_id() + 1 && final(self).issued_ids() == old(self).issued_ids().push(r->Ok_0.id),
    {
        match self.find_by_addr(addr.0) {
            Some(i) => {
                let existing = self.sites[i].id;
                proof {
                    let s = self.sites_seq();
                    let ci = idx_of_addr(s, addr.0);
                    assert(0 <= ci < s.len() && s[ci].addr.0 == addr.0);
                    assert(s[ci].addr == s[i as int].addr);
                    assert(ci == i as int);
                }
                Err(DrbugError::BreakpointSiteExists(existing, addr))
            },
            None => {
                let site = BreakpointSite { id: self.next_id, addr, enabled: false, saved_byte: 0 };
                self.sites.push(site);
                self.next_id = self.next_id + 1;
                proof {
                    self.issued@ = self.issued@.push(site.id);
                }
                proof {
                    let so = old(self).sites_seq();
                    let sn = self.sites_seq();
                    assert(sn == so.push(site));
                    assert forall|i: int| 0 <= i < sn.len() implies #[trigger] sn[i].id
                        < self.spec_next_id() by {
                        if i < so.len() {
                            assert(sn[i] == so[i]);
                        } else {
                            assert(sn[i] == site);
                        }
                    }
                    assert forall|i: int, j: int| 0 <= i < j < sn.len() implies #[trigger] sn[i].id
                        < #[trigger] sn[j].id by {
                        if j < so.len() {
                            assert(sn[i] == so[i] && sn[j] == so[j]);
                        } else {
                            assert(sn[j] == site);
                            assert(sn[i] == so[i]);
                        }
                    }
                    assert forall|i: int, j: int|
                        0 <= i < sn.len() && 0 <= j < sn.len() && i != j implies #[trigger] sn[i].addr
                        != #[trigger] sn[j].addr by {
                        if i < so.len() && j < so.len() {
                            assert(sn[i] == so[i] && sn[j] == so[j]);
                        } else if i < so.len() {
                            assert(sn[j] == site && sn[i] == so[i]);
                            if so[i].addr == site.addr {
                                assert(has_addr(so, addr.0));
                            }
                        } else {
                            assert(sn[i] == site && sn[j] == so[j]);
                            if so[j].addr == site.addr {
                                assert(has_addr(so, addr.0));
                            }
                        }
                    }
                    let io = old(self).issued_ids();
                    let inn = self.issued_ids();
                    assert(inn == io.push(site.id));
                    assert forall|i: int, j: int| 0 <= i < j < inn.len() implies #[trigger] inn[i]
                        < #[trigger] inn[j] by {
                        if j < io.len() {
                            assert(inn[i] == io[i] && inn[j] == io[j]);
                        } else {
                            assert(inn[j] == site.id);
                            assert(inn[i] == io[i]);
                        }
                    }
                    assert forall|i: int| 0 <= i < inn.len() implies #[trigger] inn[i]
                        < self.spec_next_id() by {
                        if i < io.len() {
                            assert(inn[i] == io[i]);
                        } else {
                            assert(inn[i] == site.id);
                        }
                    }
                }
                Ok(site)
            },
        }
    }

    /// A copy of the site with this id, where one is live.
    pub fn get(&self, id: &usize) -> (r: Option<BreakpointSite>)
        requires
            self.wf(),
        ensures
            r is Some <==> has_id(self.sites_seq(), *id),
            r is Some ==> r->0 == self.by_id()[*id],
    {
        match self.find_by_id(*id) {
            Some(i) => {
                proof {
                    let s = self.sites_seq();
                    let ci = idx_of_id(s, *id);
                    assert(0 <= ci < s.len() && s[ci].id == *id);
                    if ci != i as int {
                        assert(s[ci].id < s[i as int].id || s[i as int].id < s[ci].id);
                    }
                }
                Some(self.sites[i])
            },
            None => None,
        }
    }

    /// A copy of the site covering this address, where one is live.
    pub fn get_by_addr(&self, addr: &VirtAddr) -> (r: Option<BreakpointSite>)
        requires
            self.wf(),
        ensures
            r is Some <==> has_addr(self.sites_seq(), addr.0),
            r is Some ==> r->0 == self.by_id()[self.by_addr()[addr.0]],
    {
        match self.find_by_addr(addr.0) {
            Some(i) => {
                proof {
                    let s = self.sites_seq();
                    let ci = idx_of_addr(s, addr.0);
                    assert(0 <= ci < s.len() && s[ci].addr.0 == addr.0);
                    assert(s[ci].addr == s[i as int].addr);
                    assert(ci == i as int);
                    let id = s[i as int].id;
                    let cj = idx_of_id(s, id);
                    assert(0 <= cj < s.len() && s[cj].id == id);
                    if cj != i as int {
                        assert(s[cj].id < s[i as int].id || s[i as int].id < s[cj].id);
                    }
                }
                Some(self.sites[i])
            },
            None => None,
        }
    }

    /// Whether an enabled site covers this address.
    pub fn breakable_enabled_at(&self, addr: &VirtAddr) -> (r: bool)
        requires
            self.wf(),
        ensures
            r == exists|i: int|
                0 <= i < self.sites_seq().len() && (#[trigger] self.sites_seq()[i]).addr.0
                    == addr.0 && self.sites_seq()[i].enabled,
    {
        match self.get_by_addr(addr) {
            Some(site) => {
                proof {
                    let s = self.sites_seq();
                    let ci = idx_of_addr(s, addr.0);
                    assert(s[ci] == site);
                }
                site.enabled
            },
            None => false,
        }
    }

    /// The id the next created site will get.
    pub fn next_id(&self) -> (r: usize)
        ensures
            r == self.spec_next_id(),
    {
        self.next_id
    }

    /// How many sites are live.
    pub fn len(&self) -> (r: usize)
        ensures
            r == self.sites_seq().len(),
    {
        self.sites.len()
    }

    /// Whether no site is live.
    pub fn is_empty(&self) -> (r: bool)
        ensures
            r == (self.sites_seq().len() == 0),
    {
        self.sites.is_empty()
    }

    /// The live sites, in creation order.
    pub fn all(&self) -> (r: &Vec<BreakpointSite>)
        ensures
            r@ == self.sites_seq(),
    {
        &self.sites
    }

    /// Drop the site with this id from the bookkeeping and hand it back;
    /// unknown ids are a no-op. Restoring the displaced byte first is the
    /// controller's job.
    pub fn remove(&mut self, id: &usize) -> (r: Option<BreakpointSite>)
        requires
            old(self).wf(),
        ensures
            final(self).wf(),
            final(self).spec_next_id() == old(self).spec_next_id(),
            final(self).issued_ids() == old(self).issued_ids(),
            r is Some <==> has_id(old(self).sites_seq(), *id),
            r is None ==> *final(self) == *old(self),
            r is Some ==> r->0 == old(self).by_id()[*id] && final(self).sites_seq() == old(self).sites_seq().remove(idx_of_id(old(self).sites_seq(), *id)),
    {
        match self.find_by_id(*id) {
            Some(i) => {
                proof {
                    let s = self.sites_seq();
                    let ci = idx_of_id(s, *id);
                    assert(0 <= ci < s.len() && s[ci].id == *id);
                    if ci != i as int {
                        assert(s[ci].id < s[i as int].id || s[i as int].id < s[ci].id);
                    }
                }
                let site = self.sites.remove(i);
                proof {
                    let so = old(self).sites_seq();
                    let sn = self.sites_seq();
                    so.remove_ensures(i as int);
                    assert forall|a: int| 0 <= a < sn.len() implies #[trigger] sn[a].id
                        < self.spec_next_id() by {
                        if a < i {
                            assert(sn[a] == so[a]);
                        } else {
                            assert(sn[a] == so[a + 1]);
                        }
                    }
                    assert forall|a: int, b: int| 0 <= a < b < sn.len() implies #[trigger] sn[a].id
                        < #[trigger] sn[b].id by {
                        let a2 = if a < i { a } else { a + 1 };
                        let b2 = if b < i { b } else { b + 1 };
                        assert(sn[a] == so[a2] && sn[b] == so[b2]);
                    }
                    assert forall|a: int, b: int|
                        0 <= a < sn.len() && 0 <= b < sn.len() && a != b implies #[trigger] sn[a].addr
                        != #[trigger] sn[b].addr by {
                        let a2 = if a < i { a } else { a + 1 };
                        let b2 = if b < i { b } else { b + 1 };
                        assert(sn[a] == so[a2] && sn[b] == so[b2]);
                    }
                }

                proof {
                    assert(self.issued_ids() == old(self).issued_ids());
                    assert forall|a: int, b: int|
                        0 <= a < b < self.issued_ids().len() implies #[trigger] self.issued_ids()[a]
                        < #[trigger] self.issued_ids()[b] by {
                        assert(old(self).issued_ids()[a] < old(self).issued_ids()[b]);
                    }
                    assert forall|a: int| 0 <= a < self.issued_ids().len() implies
                        #[trigger] self.issued_ids()[a] < self.spec_next_id() by {
                        assert(old(self).issued_ids()[a] < old(self).spec_next_id());
                    }
                }
                Some(site)
            },
            None => None,
        }
    }

    /// Record that the site with this id had INT3 planted and which byte it
    /// displaced; unknown ids are a no-op.
    pub fn set_enabled(&mut self, id: usize, saved: u8)
        requires
            old(self).wf(),
        ensures
            final(self).wf(),
            final(self).spec_next_id() == old(self).spec_next_id(),
            final(self).issued_ids() == old(self).issued_ids(),
            !has_id(old(self).sites_seq(), id) ==> *final(self) == *old(self),
            has_id(old(self).sites_seq(), id) ==> final(self).sites_seq() == old(self).sites_seq().update(
                idx_of_id(old(self).sites_seq(), id),
                BreakpointSite {
                    enabled: true,
                    saved_byte: saved,
                    ..old(self).sites_seq()[idx_of_id(old(self).sites_seq(), id)]
                },
            ),
    {
        match self.find_by_id(id) {
            Some(i) => {
                proof {
                    let s = self.sites_seq();
                    let ci = idx_of_id(s, id);
                    assert(0 <= ci < s.len() && s[ci].id == id);
                    if ci != i as int {
                        assert(s[ci].id < s[i as int].id || s[i as int].id < s[ci].id);
                    }
                }
                let mut site = self.sites[i];
                site.enabled = true;
                site.saved_byte = saved;
                self.sites[i] = site;
                proof {
                    let so = old(self).sites_seq();
                    let sn = self.sites_seq();
                    assert(sn == so.update(i as int, site));
                    assert forall|a: int| 0 <= a < sn.len() implies #[trigger] sn[a].id
                        < self.spec_next_id() by {
                        if a != i {
                            assert(sn[a] == so[a]);
                        }
                    }
                    assert forall|a: int, b: int| 0 <= a < b < sn.len() implies #[trigger] sn[a].id
                        < #[trigger] sn[b].id by {
                        assert(sn[a].id == so[a].id && sn[b].id == so[b].id);
                    }
                    assert forall|a: int, b: int|
                        0 <= a < sn.len() && 0 <= b < sn.len() && a != b implies #[trigger] sn[a].addr
                        != #[trigger] sn[b].addr by {
                        assert(sn[a].addr == so[a].addr && sn[b].addr == so[b].addr);
                    }
                }

                proof {
                    assert(self.issued_ids() == old(self).issued_ids());
                    assert forall|a: int, b: int|
                        0 <= a < b < self.issued_ids().len() implies #[trigger] self.issued_ids()[a]
                        < #[trigger] self.issued_ids()[b] by {
                        assert(old(self).issued_ids()[a] < old(self).issued_ids()[b]);
                    }
                    assert forall|a: int| 0 <= a < self.issued_ids().len() implies
                        #[trigger] self.issued_ids()[a] < self.spec_next_id() by {
                        assert(old(self).issued_ids()[a] < old(self).spec_next_id());
                    }
                }

            },
            None => {},
        }
    }

    /// Record that the site with this id had its original byte restored;
    /// unknown ids are a no-op.
    pub fn set_disabled(&mut self, id: usize)
        requires
            old(self).wf(),
        ensures
            final(self).wf(),
            final(self).spec_next_id() == old(self).spec_next_id(),
            final(self).issued_ids() == old(self).issued_ids(),
            !has_id(old(self).sites_seq(), id) ==> *final(self) == *old(self),
            has_id(old(self).sites_seq(), id) ==> final(self).sites_seq() == old(self).sites_seq().update(
                idx_of_id(old(self).sites_seq(), id),
                BreakpointSite {
                    enabled: false,
                    ..old(self).sites_seq()[idx_of_id(old(self).sites_seq(), id)]
                },
            ),
    {
        match self.find_by_id(id) {
            Some(i) => {
                proof {
                    let s = self.sites_seq();
                    let ci = idx_of_id(s, id);
                    assert(0 <= ci < s.len() && s[ci].id == id);
                    if ci != i as int {
                        assert(s[ci].id < s[i as int].id || s[i as int].id < s[ci].id);
                    }
                }
                let mut site = self.sites[i];
                site.enabled = false;
                self.sites[i] = site;
                proof {
                    let so = old(self).sites_seq();
                    let sn = self.sites_seq();
                    assert(sn == so.update(i as int, site));
                    assert forall|a: int| 0 <= a < sn.len() implies #[trigger] sn[a].id
                        < self.spec_next_id() by {
                        if a != i {
                            assert(sn[a] == so[a]);
                        }
                    }
                    assert forall|a: int, b: int| 0 <= a < b < sn.len() implies #[trigger] sn[a].id
                        < #[trigger] sn[b].id by {
                        assert(sn[a].id == so[a].id && sn[b].id == so[b].id);
                    }
                    assert forall|a: int, b: int|
                        0 <= a < sn.len() && 0 <= b < sn.len() && a != b implies #[trigger] sn[a].addr
                        != #[trigger] sn[b].addr by {
                        assert(sn[a].addr == so[a].addr && sn[b].addr == so[b].addr);
                    }
                }

                proof {
                    assert(self.issued_ids() == old(self).issued_ids());
                    assert forall|a: int, b: int|
                        0 <= a < b < self.issued_ids().len() implies #[trigger] self.issued_ids()[a]
                        < #[trigger] self.issued_ids()[b] by {
                        assert(old(self).issued_ids()[a] < old(self).issued_ids()[b]);
                    }
                    assert forall|a: int| 0 <= a < self.issued_ids().len() implies
                        #[trigger] self.issued_ids()[a] < self.spec_next_id() by {
                        assert(old(self).issued_ids()[a] < old(self).spec_next_id());
                    }
                }

            },
            None => {},
        }
    }
}

/// Index-agreement law: the forward and reverse indices agree site for site —
/// the store maps id to a site at an address exactly when the reverse index
/// maps that address back to the same id.
pub proof fn lemma_indices_agree(store: BreakpointStore)
    requires
        store.wf(),
    ensures
        forall|id: usize|
            #[trigger] store.by_id().contains_key(id) ==> store.by_addr().contains_key(
                store.by_id()[id].addr.0,
            ) && store.by_addr()[store.by_id()[id].addr.0] == id,
        forall|a: u64|
            #[trigger] store.by_addr().contains_key(a) ==> store.by_id().contains_key(
                store.by_addr()[a],
            ) && store.by_id()[store.by_addr()[a]].addr.0 == a,
{
    let s = store.sites_seq();
    assert forall|id: usize| #[trigger] store.by_id().contains_key(id) implies store
        .by_addr()
        .contains_key(store.by_id()[id].addr.0) && store.by_addr()[store.by_id()[id].addr.0]
        == id by {
        let i = idx_of_id(s, id);
        assert(0 <= i < s.len() && s[i].id == id);
        let a = s[i].addr.0;
        assert(has_addr(s, a));
        let j = idx_of_addr(s, a);
        assert(0 <= j < s.len() && s[j].addr.0 == a);
        if i != j {
            assert(s[i].addr != s[j].addr);
        }
    }
    assert forall|a: u64| #[trigger] store.by_addr().contains_key(a) implies store
        .by_id()
        .contains_key(store.by_addr()[a]) && store.by_id()[store.by_addr()[a]].addr.0 == a by {
        let i = idx_of_addr(s, a);
        assert(0 <= i < s.len() && s[i].addr.0 == a);
        let id = s[i].id;
        assert(has_id(s, id));
        let j = idx_of_id(s, id);
        assert(0 <= j < s.len() && s[j].id == id);
        if i != j {
            assert(s[i].id < s[j].id || s[j].id < s[i].id);
        }
    }
}

/// Monotonicity law: the ids a store issues over its lifetime are strictly
/// increasing — every earlier-issued id is smaller than every later one.
pub proof fn lemma_issued_ids_increase(store: BreakpointStore)
    requires
        store.wf(),
    ensures
        forall|i: int, j: int|
            0 <= i < j < store.issued_ids().len() ==> #[trigger] store.issued_ids()[i]
                < #[trigger] store.issued_ids()[j],
{
}

} // verus!
