//! The guest allocator: the leak-then-reclaim ownership protocol for
//! buffers crossing the host/guest memory boundary.
//!
//! A buffer's ownership moves across the boundary as an explicit
//! capability `(ptr, len)`. Leaking records the capability; reclaiming
//! validates it against the record, so a mismatched pair is a reported
//! error, never silent corruption.

use vstd::prelude::*;

use crate::{GuestPtr, Len};

verus! {

/// A boundary protocol violation: a capability handed to reclamation
/// that does not match a prior leak exactly.
#[derive(Debug, PartialEq, Eq, Structural)]
pub enum ProtocolViolation {
    /// No leaked buffer starts at the given address.
    UnknownPointer,
    /// A leaked buffer starts there, but its capacity differs from the
    /// length handed in.
    LengthMismatch,
}

/// An exact copy of a byte vector.
pub(crate) fn copy_bytes(v: &Vec<u8>) -> (r: Vec<u8>)
    ensures
        r@ == v@,
{
    let mut r: Vec<u8> = Vec::new();
    let mut i: usize = 0;
    while i < v.len()
        invariant
            i <= v.len(),
            r@ == v@.subrange(0, i as int),
        decreases v.len() - i,
    {
        r.push(v[i]);
        proof {
            assert(r@ =~= v@.subrange(0, i + 1 as int));
        }
        i += 1;
    }
    proof {
        assert(v@.subrange(0, v@.len() as int) =~= v@);
    }
    r
}

/// The map that a sequence of leaked regions denotes: each start address
/// to the bytes leaked there.
pub open spec fn region_map(s: Seq<(GuestPtr, Vec<u8>)>) -> Map<GuestPtr, Seq<u8>>
    decreases s.len(),
{
    if s.len() == 0 {
        Map::empty()
    } else {
        region_map(s.drop_last()).insert(s.last().0, s.last().1@)
    }
}

/// Whether no two regions share a start address.
pub open spec fn unique_ptrs(s: Seq<(GuestPtr, Vec<u8>)>) -> bool {
    forall|i: int, j: int|
        #![trigger s[i], s[j]]
        0 <= i < j < s.len() ==> s[i].0 != s[j].0
}

proof fn lemma_region_map_contains(s: Seq<(GuestPtr, Vec<u8>)>, p: GuestPtr)
    ensures
        region_map(s).contains_key(p) <==> exists|i: int| 0 <= i < s.len() && s[i].0 == p,
    decreases s.len(),
{
    if s.len() > 0 {
        let prefix = s.drop_last();
        lemma_region_map_contains(prefix, p);
        if s.last().0 == p {
            assert(s[s.len() - 1].0 == p);
        } else {
            if region_map(s).contains_key(p) {
                let i = choose|i: int| 0 <= i < prefix.len() && prefix[i].0 == p;
                assert(s[i].0 == p);
            }
            if exists|i: int| 0 <= i < s.len() && s[i].0 == p {
                let i = choose|i: int| 0 <= i < s.len() && s[i].0 == p;
                assert(i < s.len() - 1);
                assert(prefix[i].0 == p);
            }
        }
    }
}

proof fn lemma_region_map_index(s: Seq<(GuestPtr, Vec<u8>)>, i: int)
    requires
        unique_ptrs(s),
        0 <= i < s.len(),
    ensures
        region_map(s).contains_key(s[i].0),
        region_map(s)[s[i].0] == s[i].1@,
    decreases s.len(),
{
    if i < s.len() - 1 {
        let prefix = s.drop_last();
        assert forall|a: int, b: int|
            #![trigger prefix[a], prefix[b]]
            0 <= a < b < prefix.len() implies prefix[a].0 != prefix[b].0 by {
            assert(s[a].0 != s[b].0);
        }
        lemma_region_map_index(prefix, i);
        assert(s[s.len() - 1].0 != s[i].0);
        assert(prefix[i] == s[i]);
    }
}

proof fn lemma_region_map_push(s: Seq<(GuestPtr, Vec<u8>)>, e: (GuestPtr, Vec<u8>))
    ensures
        region_map(s.push(e)) == region_map(s).insert(e.0, e.1@),
{
    assert(s.push(e).drop_last() =~= s);
    assert(s.push(e).last() == e);
}

proof fn lemma_region_map_remove(s: Seq<(GuestPtr, Vec<u8>)>, i: int)
    requires
        unique_ptrs(s),
        0 <= i < s.len(),
    ensures
        region_map(s.remove(i)) == region_map(s).remove(s[i].0),
    decreases s.len(),
{
    let prefix = s.drop_last();
    if i == s.len() - 1 {
        assert(s.remove(i) =~= prefix);
        lemma_region_map_contains(prefix, s[i].0);
        assert forall|a: int|
            0 <= a < prefix.len() implies (#[trigger] prefix[a]).0 != s[i].0 by {
            assert(s[a].0 != s[s.len() - 1].0);
        }
        assert(!region_map(prefix).contains_key(s[i].0));
        assert(region_map(s).remove(s[i].0) =~= region_map(prefix));
    } else {
        assert forall|a: int, b: int|
            #![trigger prefix[a], prefix[b]]
            0 <= a < b < prefix.len() implies prefix[a].0 != prefix[b].0 by {
            assert(s[a].0 != s[b].0);
        }
        lemma_region_map_remove(prefix, i);
        assert(s.remove(i).drop_last() =~= prefix.remove(i));
        assert(s.remove(i).last() == s.last());
        assert(region_map(s.remove(i)) == region_map(prefix.remove(i)).insert(
            s.last().0,
            s.last().1@,
        ));
        assert(s[i].0 != s.last().0);
        assert(region_map(prefix).remove(s[i].0).insert(s.last().0, s.last().1@) =~= region_map(
            prefix,
        ).insert(s.last().0, s.last().1@).remove(s[i].0));
    }
}

proof fn lemma_region_map_len(s: Seq<(GuestPtr, Vec<u8>)>)
    requires
        unique_ptrs(s),
    ensures
        region_map(s).dom().finite(),
        region_map(s).len() == s.len(),
    decreases s.len(),
{
    if s.len() > 0 {
        let prefix = s.drop_last();
        assert forall|a: int, b: int|
            #![trigger prefix[a], prefix[b]]
            0 <= a < b < prefix.len() implies prefix[a].0 != prefix[b].0 by {
            assert(s[a].0 != s[b].0);
        }
        lemma_region_map_len(prefix);
        lemma_region_map_contains(prefix, s.last().0);
        assert forall|a: int|
            0 <= a < prefix.len() implies (#[trigger] prefix[a]).0 != s.last().0 by {
            assert(s[a].0 != s[s.len() - 1].0);
        }
        assert(!region_map(prefix).contains_key(s.last().0));
    }
}

/// The guest's allocator state: every currently leaked buffer, by start
/// address, plus the bump pointer from which fresh addresses are drawn.
pub struct GuestMemory {
    regions: Vec<(GuestPtr, Vec<u8>)>,
    next_free: GuestPtr,
}

impl View for GuestMemory {
    type V = Map<GuestPtr, Seq<u8>>;

    /// The live capabilities: each leaked start address to its bytes.
    closed spec fn view(&self) -> Map<GuestPtr, Seq<u8>> {
        region_map(self.regions@)
    }
}

impl GuestMemory {
    /// How much address space has been reserved so far; fresh regions
    /// are placed at and beyond this mark.
    pub closed spec fn reserved(&self) -> int {
        self.next_free as int
    }

    #[verifier::type_invariant]
    closed spec fn wf(&self) -> bool {
        &&& unique_ptrs(self.regions@)
        &&& forall|i: int|
            0 <= i < self.regions@.len() ==> (#[trigger] self.regions@[i]).0
                + self.regions@[i].1@.len() < self.next_free
    }

    /// A fresh guest memory with no leaked buffers.
    pub fn new() -> (m: GuestMemory)
        ensures
            m@ == Map::<GuestPtr, Seq<u8>>::empty(),
            m.reserved() == 0,
    {
        GuestMemory { regions: Vec::new(), next_free: 0 }
    }

    /// How many leaked buffers are currently live.
    pub fn live_count(&self) -> (n: usize)
        ensures
            n as nat == self@.len(),
    {
        proof {
            use_type_invariant(&*self);
            lemma_region_map_len(self.regions@);
        }
        self.regions.len()
    }

    /// Leaks an owned buffer: abandons its ownership at a fresh address
    /// and returns the address, to be handed across the boundary
    /// together with the buffer's length.
    pub fn write_bytes(&mut self, v: Vec<u8>) -> (p: GuestPtr)
        requires
            old(self).reserved() + v@.len() + 1 <= u32::MAX,
        ensures
            p == old(self).reserved(),
            !old(self)@.contains_key(p),
            final(self)@ == old(self)@.insert(p, v@),
            final(self).reserved() == old(self).reserved() + v@.len() + 1,
    {
        proof {
            use_type_invariant(&*self);
        }
        let p = self.next_free;
        proof {
            lemma_region_map_contains(self.regions@, p);
        }
        self.next_free = p + (v.len() as u32) + 1;
        let ghost regions0 = self.regions@;
        let mut regions: Vec<(GuestPtr, Vec<u8>)> = Vec::new();
        std::mem::swap(&mut regions, &mut self.regions);
        proof {
            lemma_region_map_push(regions0, (p, v));
        }
        regions.push((p, v));
        self.regions = regions;
        p
    }

    /// Reserves `len` uninitialized bytes, immediately abandons their
    /// ownership, and returns the fresh start address. The host may then
    /// fill exactly `len` bytes there; nothing else aliases the region
    /// until it is reclaimed. Nothing is promised of its contents.
    pub fn allocate(&mut self, len: Len) -> (p: GuestPtr)
        requires
            old(self).reserved() + len + 1 <= u32::MAX,
        ensures
            p == old(self).reserved(),
            !old(self)@.contains_key(p),
            final(self)@.dom() == old(self)@.dom().insert(p),
            final(self)@[p].len() == len as nat,
            forall|q: GuestPtr| q != p && old(self)@.contains_key(q) ==> final(self)@[q] == old(
                self,
            )@[q],
            final(self).reserved() == old(self).reserved() + len + 1,
    {
        let mut buf: Vec<u8> = Vec::new();
        let mut i: u32 = 0;
        while i < len
            invariant
                i <= len,
                buf@.len() == i as nat,
            decreases len - i,
        {
            buf.push(0u8);
            i += 1;
        }
        let ghost pre = self@;
        let p = self.write_bytes(buf);
        proof {
            assert(self@.dom() =~= pre.dom().insert(p));
        }
        p
    }

    /// Reclaims ownership of a previously leaked buffer from its
    /// capability, validating the capability first: the address must be
    /// a live leak and the length must equal the leak's exact capacity.
    pub fn consume_bytes(&mut self, ptr: GuestPtr, len: Len) -> (r: Result<
        Vec<u8>,
        ProtocolViolation,
    >)
        ensures
            old(self)@.contains_key(ptr) && old(self)@[ptr].len() == len ==> {
                &&& r matches Ok(b) && b@ == old(self)@[ptr]
                &&& final(self)@ == old(self)@.remove(ptr)
            },
            !old(self)@.contains_key(ptr) ==> {
                &&& r matches Err(ProtocolViolation::UnknownPointer)
                &&& final(self)@ == old(self)@
            },
            old(self)@.contains_key(ptr) && old(self)@[ptr].len() != len ==> {
                &&& r matches Err(ProtocolViolation::LengthMismatch)
                &&& final(self)@ == old(self)@
            },
            final(self).reserved() == old(self).reserved(),
            r is Err <==> !(old(self)@.contains_key(ptr) && old(self)@[ptr].len() == len),
    {
        proof {
            use_type_invariant(&*self);
        }
        let ghost regions0 = self.regions@;
        let mut i: usize = 0;
        while i < self.regions.len()
            invariant
                *self == *old(self),
                self.regions@ == regions0,
                unique_ptrs(regions0),
                forall|a: int|
                    0 <= a < regions0.len() ==> (#[trigger] regions0[a]).0
                        + regions0[a].1@.len() < old(self).next_free,
                i <= regions0.len(),
                forall|j: int| 0 <= j < i ==> regions0[j].0 != ptr,
            decreases regions0.len() - i,
        {
            if self.regions[i].0 == ptr {
                proof {
                    lemma_region_map_index(regions0, i as int);
                }
                if self.regions[i].1.len() != (len as usize) {
                    return Err(ProtocolViolation::LengthMismatch);
                }
                proof {
                    lemma_region_map_remove(regions0, i as int);
                }
                let mut regions: Vec<(GuestPtr, Vec<u8>)> = Vec::new();
                std::mem::swap(&mut regions, &mut self.regions);
                let entry = regions.remove(i);
                proof {
                    assert forall|a: int, b: int|
                        #![trigger regions@[a], regions@[b]]
                        0 <= a < b < regions@.len() implies regions@[a].0 != regions@[b].0 by {
                        assert(regions@[a] == if a < i { regions0[a] } else { regions0[a + 1] });
                        assert(regions@[b] == if b < i { regions0[b] } else { regions0[b + 1] });
                    }
                    assert forall|a: int|
                        0 <= a < regions@.len() implies (#[trigger] regions@[a]).0
                        + regions@[a].1@.len() < self.next_free by {
                        assert(regions@[a] == if a < i { regions0[a] } else { regions0[a + 1] });
                    }
                }
                self.regions = regions;
                return Ok(entry.1);
            }
            i += 1;
        }
        proof {
            lemma_region_map_contains(regions0, ptr);
        }
        Err(ProtocolViolation::UnknownPointer)
    }

    /// Releases a previously leaked buffer from its capability: reclaims
    /// ownership, validating the capability as `consume_bytes` does, and
    /// drops the buffer.
    pub fn deallocate(&mut self, ptr: GuestPtr, len: Len) -> (r: Result<(), ProtocolViolation>)
        ensures
            old(self)@.contains_key(ptr) && old(self)@[ptr].len() == len ==> {
                &&& r is Ok
                &&& final(self)@ == old(self)@.remove(ptr)
            },
            !old(self)@.contains_key(ptr) ==> {
                &&& r matches Err(ProtocolViolation::UnknownPointer)
                &&& final(self)@ == old(self)@
            },
            old(self)@.contains_key(ptr) && old(self)@[ptr].len() != len ==> {
                &&& r matches Err(ProtocolViolation::LengthMismatch)
                &&& final(self)@ == old(self)@
            },
            final(self).reserved() == old(self).reserved(),
            r is Err <==> !(old(self)@.contains_key(ptr) && old(self)@[ptr].len() == len),
    {
        match self.consume_bytes(ptr, len) {
            Ok(_) => Ok(()),
            Err(e) => Err(e),
        }
    }

    /// The host's write across the boundary: fills a leaked region with
    /// exactly as many bytes as were reserved for it. The capability is
    /// validated as reclamation validates it.
    pub fn host_write(&mut self, ptr: GuestPtr, bytes: &Vec<u8>) -> (r: Result<
        (),
        ProtocolViolation,
    >)
        ensures
            old(self)@.contains_key(ptr) && old(self)@[ptr].len() == bytes@.len() ==> {
                &&& r is Ok
                &&& final(self)@ == old(self)@.insert(ptr, bytes@)
            },
            !old(self)@.contains_key(ptr) ==> {
                &&& r matches Err(ProtocolViolation::UnknownPointer)
                &&& final(self)@ == old(self)@
            },
            old(self)@.contains_key(ptr) && old(self)@[ptr].len() != bytes@.len() ==> {
                &&& r matches Err(ProtocolViolation::LengthMismatch)
                &&& final(self)@ == old(self)@
            },
            final(self).reserved() == old(self).reserved(),
            r is Err <==> !(old(self)@.contains_key(ptr) && old(self)@[ptr].len() == bytes@.len()),
    {
        proof {
            use_type_invariant(&*self);
        }
        let ghost regions0 = self.regions@;
        let mut i: usize = 0;
        while i < self.regions.len()
            invariant
                *self == *old(self),
                self.regions@ == regions0,
                unique_ptrs(regions0),
                forall|a: int|
                    0 <= a < regions0.len() ==> (#[trigger] regions0[a]).0
                        + regions0[a].1@.len() < old(self).next_free,
                i <= regions0.len(),
                forall|j: int| 0 <= j < i ==> regions0[j].0 != ptr,
            decreases regions0.len() - i,
        {
            if self.regions[i].0 == ptr {
                proof {
                    lemma_region_map_index(regions0, i as int);
                }
                if self.regions[i].1.len() != bytes.len() {
                    return Err(ProtocolViolation::LengthMismatch);
                }
                proof {
                    lemma_region_map_remove(regions0, i as int);
                }
                let mut regions: Vec<(GuestPtr, Vec<u8>)> = Vec::new();
                std::mem::swap(&mut regions, &mut self.regions);
                let entry = regions.remove(i);
                let filled = copy_bytes(bytes);
                proof {
                    lemma_region_map_push(regions0.remove(i as int), (ptr, filled));
                    assert(region_map(regions0).remove(ptr).insert(ptr, bytes@) =~= region_map(
                        regions0,
                    ).insert(ptr, bytes@));
                }
                regions.push((ptr, filled));
                proof {
                    let r2 = regions@;
                    assert forall|a: int, b: int|
                        #![trigger r2[a], r2[b]]
                        0 <= a < b < r2.len() implies r2[a].0 != r2[b].0 by {
                        if b == r2.len() - 1 {
                            assert(r2[a] == if a < i { regions0[a] } else { regions0[a + 1] });
                            assert(r2[b].0 == regions0[i as int].0);
                        } else {
                            assert(r2[a] == if a < i { regions0[a] } else { regions0[a + 1] });
                            assert(r2[b] == if b < i { regions0[b] } else { regions0[b + 1] });
                        }
                    }
                    assert forall|a: int|
                        0 <= a < r2.len() implies (#[trigger] r2[a]).0 + r2[a].1@.len()
                        < self.next_free by {
                        if a == r2.len() - 1 {
                            assert(r2[a].0 == regions0[i as int].0);
                            assert(r2[a].1@.len() == regions0[i as int].1@.len());
                        } else {
                            assert(r2[a] == if a < i { regions0[a] } else { regions0[a + 1] });
                        }
                    }
                }
                self.regions = regions;
                return Ok(());
            }
            i += 1;
        }
        proof {
            lemma_region_map_contains(regions0, ptr);
        }
        Err(ProtocolViolation::UnknownPointer)
    }

    /// The host's read across the boundary: copies a leaked region out
    /// without reclaiming it, validating the capability first.
    pub fn host_read(&self, ptr: GuestPtr, len: Len) -> (r: Result<Vec<u8>, ProtocolViolation>)
        ensures
            self@.contains_key(ptr) && self@[ptr].len() == len ==> {
                &&& r matches Ok(b) && b@ == self@[ptr]
            },
            !self@.contains_key(ptr) ==> r matches Err(ProtocolViolation::UnknownPointer),
            self@.contains_key(ptr) && self@[ptr].len() != len ==> r matches Err(
                ProtocolViolation::LengthMismatch,
            ),
            r is Err <==> !(self@.contains_key(ptr) && self@[ptr].len() == len),
    {
        proof {
            use_type_invariant(&*self);
        }
        let ghost regions0 = self.regions@;
        let mut i: usize = 0;
        while i < self.regions.len()
            invariant
                self.regions@ == regions0,
                unique_ptrs(regions0),
                i <= regions0.len(),
                forall|j: int| 0 <= j < i ==> regions0[j].0 != ptr,
            decreases regions0.len() - i,
        {
            if self.regions[i].0 == ptr {
                proof {
                    lemma_region_map_index(regions0, i as int);
                }
                if self.regions[i].1.len() != (len as usize) {
                    return Err(ProtocolViolation::LengthMismatch);
                }
                return Ok(copy_bytes(&self.regions[i].1));
            }
            i += 1;
        }
        proof {
            lemma_region_map_contains(regions0, ptr);
        }
        Err(ProtocolViolation::UnknownPointer)
    }
}

/// Round trip: leaking a buffer binds a fresh capability to exactly the
/// leaked bytes, so reclaiming through that capability yields those
/// bytes and restores the memory to its prior state.
pub proof fn lemma_round_trip(m: Map<GuestPtr, Seq<u8>>, p: GuestPtr, bytes: Seq<u8>)
    requires
        !m.contains_key(p),
    ensures
        m.insert(p, bytes).contains_key(p),
        m.insert(p, bytes)[p] == bytes,
        m.insert(p, bytes)[p].len() == bytes.len(),
        m.insert(p, bytes).remove(p) == m,
{
    assert(m.insert(p, bytes).remove(p) =~= m);
}

/// Allocate, write, free: filling a freshly reserved region with exactly
/// as many bytes as were reserved, then reclaiming it with the same
/// capability, leaves every other live buffer untouched and restores the
/// memory to its prior state — so repeated cycles never corrupt later
/// allocations.
pub proof fn lemma_allocate_write_free(
    m: Map<GuestPtr, Seq<u8>>,
    p: GuestPtr,
    fresh: Seq<u8>,
    written: Seq<u8>,
)
    requires
        !m.contains_key(p),
        fresh.len() == written.len(),
    ensures
        m.insert(p, fresh).insert(p, written) == m.insert(p, written),
        forall|q: GuestPtr| #![auto] q != p && m.contains_key(q) ==> m.insert(p, written)[q]
            == m[q],
        m.insert(p, written).remove(p) == m,
{
    assert(m.insert(p, fresh).insert(p, written) =~= m.insert(p, written));
    assert(m.insert(p, written).remove(p) =~= m);
}

} // verus!
