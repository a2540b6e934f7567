//! Slot arenas: fixed-capacity regions of a capability table whose slots are
//! handed out one at a time and never handed out again.
use core::marker::PhantomData;
use vstd::arithmetic::power2::{
    lemma2_to64, lemma_pow2_strictly_increases, lemma_pow2_unfold, pow2,
};
use vstd::prelude::*;

use crate::cap::{CNodeRole, Cap, CopyAliasable, Local, LocalCap};
use crate::error::{status_error, Error, ErrorExt, SeL4Error, NO_ERROR};
use crate::invocation::{CapRights, Invocation, WORD_BITS};

verus! {

/// Radix of the initial thread's capability table.
pub const ROOT_CNODE_RADIX: u8 = 19;

/// Slots of the initial thread's capability table: `2^19`.
pub const ROOT_CNODE_SLOTS: usize = 0x8_0000;

/// Largest radix of a capability table: its slot indices, and the guard
/// bits above them, must fit a 32-bit capability address.
pub const MAX_CNODE_RADIX: u8 = 31;

/// A region of a capability table, handed out slot by slot.
///
/// The arena owns the slots `next_free_slot .. next_free_slot + free_slots`
/// of the table at `cptr`, which has `2^radix` slots. Handing out a slot moves
/// `next_free_slot` past it; nothing ever moves it back, so no slot index is
/// issued twice by one arena or by arenas split from it.
#[derive(Debug)]
pub struct CNode<R: CNodeRole> {
    pub(crate) radix: u8,
    pub(crate) next_free_slot: usize,
    pub(crate) free_slots: usize,
    pub(crate) cptr: usize,
    pub(crate) _role: PhantomData<R>,
}

/// One reserved slot: the table it lives in and its index there.
#[derive(Debug)]
pub struct CNodeSlot<R: CNodeRole> {
    pub(crate) cptr: usize,
    pub(crate) offset: usize,
    pub(crate) _role: PhantomData<R>,
}

impl<R: CNodeRole> CNodeSlot<R> {
    pub open(crate) spec fn spec_cptr(&self) -> usize {
        self.cptr
    }

    pub open(crate) spec fn spec_offset(&self) -> usize {
        self.offset
    }

    /// The table that holds the slot.
    #[verifier::when_used_as_spec(spec_cptr)]
    pub fn cptr(&self) -> (r: usize)
        ensures
            r == self.spec_cptr(),
    {
        self.cptr
    }

    /// The slot's index in its table.
    #[verifier::when_used_as_spec(spec_offset)]
    pub fn offset(&self) -> (r: usize)
        ensures
            r == self.spec_offset(),
    {
        self.offset
    }
}

/// `2^e`, for exponents whose power fits a 32-bit word.
pub(crate) fn pow2_usize(e: u8) -> (r: usize)
    requires
        e < 32,
    ensures
        r == pow2(e as nat),
{
    let mut r: usize = 1;
    let mut i: u8 = 0;
    proof {
        lemma2_to64();
    }
    while i < e
        invariant
            i <= e < 32,
            r == pow2(i as nat),
        decreases e - i,
    {
        proof {
            lemma_pow2_unfold((i + 1) as nat);
            lemma_pow2_strictly_increases((i + 1) as nat, 32);
            lemma2_to64();
        }
        r = r * 2;
        i = i + 1;
    }
    r
}

/// Number of slots of a table of the given radix.
pub open spec fn slot_count(radix: nat) -> nat {
    pow2(radix)
}

impl<R: CNodeRole> CNode<R> {
    pub open(crate) spec fn spec_radix(&self) -> u8 {
        self.radix
    }

    pub open(crate) spec fn spec_next_free_slot(&self) -> usize {
        self.next_free_slot
    }

    pub open(crate) spec fn spec_free_slots(&self) -> usize {
        self.free_slots
    }

    pub open(crate) spec fn spec_cptr(&self) -> usize {
        self.cptr
    }

    /// The arena's slots lie inside its table (and their indices fit a word).
    pub open spec fn wf(&self) -> bool {
        &&& self.spec_radix() <= MAX_CNODE_RADIX
        &&& self.spec_next_free_slot() + self.spec_free_slots() <= slot_count(
            self.spec_radix() as nat,
        )
        &&& self.spec_next_free_slot() + self.spec_free_slots() <= usize::MAX
    }

    /// Whether `offset` is one of the slots this arena may still hand out.
    pub open spec fn owns(&self, offset: int) -> bool {
        self.spec_next_free_slot() <= offset < self.spec_next_free_slot() + self.spec_free_slots()
    }

    /// The arena that remains after the first `n` of this arena's slots were
    /// taken out of it.
    pub open(crate) spec fn advanced(&self, n: nat) -> CNode<R> {
        CNode {
            radix: self.spec_radix(),
            next_free_slot: (self.spec_next_free_slot() + n) as usize,
            free_slots: (self.spec_free_slots() - n) as usize,
            cptr: self.spec_cptr(),
            _role: PhantomData,
        }
    }

    /// An arena of `n` slots in the same table, starting at `start`.
    pub open(crate) spec fn region(&self, start: nat, n: nat) -> CNode<R> {
        CNode {
            radix: self.spec_radix(),
            next_free_slot: start as usize,
            free_slots: n as usize,
            cptr: self.spec_cptr(),
            _role: PhantomData,
        }
    }

    /// What one call of `consume_slot` gives: the arena that remains and the
    /// index of the slot handed out, or nothing once the arena is exhausted.
    pub open spec fn consume_spec(&self) -> Option<(CNode<R>, nat)> {
        if self.spec_free_slots() == 0 {
            None
        } else {
            Some((self.advanced(1), self.spec_next_free_slot() as nat))
        }
    }

    /// What `n` successive calls of `consume_slot` give: the arena that
    /// remains and the indices handed out, in order; nothing if one fails.
    pub open spec fn consume_many(&self, n: nat) -> Option<(CNode<R>, Seq<nat>)>
        decreases n,
    {
        if n == 0 {
            Some((*self, Seq::empty()))
        } else {
            match self.consume_many((n - 1) as nat) {
                Some((rest, indices)) => match rest.consume_spec() {
                    Some((last, i)) => Some((last, indices.push(i))),
                    None => None,
                },
                None => None,
            }
        }
    }

    pub(crate) fn new(radix: u8, next_free_slot: usize, free_slots: usize, cptr: usize) -> (r: Self)
        ensures
            r.spec_radix() == radix,
            r.spec_next_free_slot() == next_free_slot,
            r.spec_free_slots() == free_slots,
            r.spec_cptr() == cptr,
    {
        CNode { radix, next_free_slot, free_slots, cptr, _role: PhantomData }
    }

    /// Radix of the table the arena lies in.
    #[verifier::when_used_as_spec(spec_radix)]
    pub fn radix(&self) -> (r: u8)
        ensures
            r == self.spec_radix(),
    {
        self.radix
    }

    /// Index of the next slot the arena hands out.
    #[verifier::when_used_as_spec(spec_next_free_slot)]
    pub fn next_free_slot(&self) -> (r: usize)
        ensures
            r == self.spec_next_free_slot(),
    {
        self.next_free_slot
    }

    /// Number of slots the arena can still hand out.
    #[verifier::when_used_as_spec(spec_free_slots)]
    pub fn free_slots(&self) -> (r: usize)
        ensures
            r == self.spec_free_slots(),
    {
        self.free_slots
    }

    /// Address of the table the arena lies in.
    #[verifier::when_used_as_spec(spec_cptr)]
    pub fn cptr(&self) -> (r: usize)
        ensures
            r == self.spec_cptr(),
    {
        self.cptr
    }

    /// Reserves exactly one slot: the arena that remains, and the slot.
    /// Fails with `SlotsExhausted` exactly when no slot is left, handing the
    /// arena back.
    pub fn consume_slot(self) -> (r: Result<(CNode<R>, CNodeSlot<R>), (Error, CNode<R>)>)
        requires
            self.wf(),
        ensures
            match r {
                Ok((rest, slot)) => {
                    &&& self.consume_spec() == Some((rest, slot.spec_offset() as nat))
                    &&& slot.spec_cptr() == self.spec_cptr()
                    &&& rest.wf()
                },
                Err((e, back)) => self.consume_spec() is None && e == Error::SlotsExhausted && back
                    == self,
            },
    {
        if self.free_slots == 0 {
            return Err((Error::SlotsExhausted, self));
        }
        let slot = CNodeSlot { cptr: self.cptr, offset: self.next_free_slot, _role: PhantomData };
        let rest = CNode {
            radix: self.radix,
            next_free_slot: self.next_free_slot + 1,
            free_slots: self.free_slots - 1,
            cptr: self.cptr,
            _role: PhantomData,
        };
        Ok((rest, slot))
    }

    /// Splits off the first `count` slots as an arena of their own; the
    /// second arena holds the rest. Fails with `SlotsExhausted` exactly when
    /// fewer than `count` slots are left, handing the arena back.
    pub fn reserve_region(self, count: usize) -> (r: Result<(CNode<R>, CNode<R>), (Error, CNode<R>)>)
        requires
            self.wf(),
        ensures
            match r {
                Ok((region, rest)) => {
                    &&& count <= self.spec_free_slots()
                    &&& region == self.region(self.spec_next_free_slot() as nat, count as nat)
                    &&& rest == self.advanced(count as nat)
                    &&& region.wf() && rest.wf()
                    &&& forall|i: int| !(region.owns(i) && rest.owns(i))
                    &&& forall|i: int| self.owns(i) <==> (region.owns(i) || rest.owns(i))
                },
                Err((e, back)) => count > self.spec_free_slots() && e == Error::SlotsExhausted
                    && back == self,
            },
    {
        if count > self.free_slots {
            return Err((Error::SlotsExhausted, self));
        }
        let region = CNode {
            radix: self.radix,
            next_free_slot: self.next_free_slot,
            free_slots: count,
            cptr: self.cptr,
            _role: PhantomData,
        };
        let rest = CNode {
            radix: self.radix,
            next_free_slot: self.next_free_slot + count,
            free_slots: self.free_slots - count,
            cptr: self.cptr,
            _role: PhantomData,
        };
        Ok((region, rest))
    }

    /// Splits off the first `count` slots as `count` one-slot arenas, in
    /// slot order; the last arena holds the rest. Fails with `SlotsExhausted`
    /// exactly when fewer than `count` slots are left, handing the arena
    /// back.
    pub fn reservation_iter(self, count: usize) -> (r: Result<
        (Vec<CNode<R>>, CNode<R>),
        (Error, CNode<R>),
    >)
        requires
            self.wf(),
        ensures
            match r {
                Ok((singles, rest)) => {
                    &&& count <= self.spec_free_slots()
                    &&& singles@.len() == count
                    &&& forall|i: int|
                        0 <= i < count ==> #[trigger] singles@[i] == self.region(
                            (self.spec_next_free_slot() + i) as nat,
                            1,
                        )
                    &&& rest == self.advanced(count as nat)
                    &&& rest.wf()
                },
                Err((e, back)) => count > self.spec_free_slots() && e == Error::SlotsExhausted
                    && back == self,
            },
    {
        if count > self.free_slots {
            return Err((Error::SlotsExhausted, self));
        }
        let mut singles: Vec<CNode<R>> = Vec::new();
        let mut i: usize = 0;
        while i < count
            invariant
                self.wf(),
                count <= self.spec_free_slots(),
                i <= count,
                singles@.len() == i,
                forall|j: int|
                    0 <= j < i ==> #[trigger] singles@[j] == self.region(
                        (self.spec_next_free_slot() + j) as nat,
                        1,
                    ),
            decreases count - i,
        {
            singles.push(
                CNode {
                    radix: self.radix,
                    next_free_slot: self.next_free_slot + i,
                    free_slots: 1,
                    cptr: self.cptr,
                    _role: PhantomData,
                },
            );
            i = i + 1;
        }
        let rest = CNode {
            radix: self.radix,
            next_free_slot: self.next_free_slot + count,
            free_slots: self.free_slots - count,
            cptr: self.cptr,
            _role: PhantomData,
        };
        Ok((singles, rest))
    }
}

/// The arena of the initial thread's own capability table: the slots the
/// kernel reported empty at boot, `empty_start .. empty_end`.
pub fn root_cnode(root_cptr: usize, empty_start: usize, empty_end: usize) -> (r: CNode<Local>)
    requires
        empty_start <= empty_end <= ROOT_CNODE_SLOTS,
    ensures
        r.wf(),
        r.spec_radix() == ROOT_CNODE_RADIX,
        r.spec_cptr() == root_cptr,
        r.spec_next_free_slot() == empty_start,
        r.spec_free_slots() == empty_end - empty_start,
{
    proof {
        lemma2_to64();
    }
    CNode {
        radix: ROOT_CNODE_RADIX,
        next_free_slot: empty_start,
        free_slots: empty_end - empty_start,
        cptr: root_cptr,
        _role: PhantomData,
    }
}

impl<CT: CopyAliasable> Cap<CT, Local> {
    /// The invocation `copy_local` needs: fails with `SlotsExhausted`
    /// exactly when `dest_cnode` has no free slot.
    pub fn copy_local_invocation(
        &self,
        src_cnode: &CNode<Local>,
        dest_cnode: &CNode<Local>,
        rights: CapRights,
    ) -> (r: Result<Invocation, Error>)
        ensures
            match r {
                Ok(inv) => dest_cnode.spec_free_slots() >= 1 && inv == (Invocation::CNodeCopy {
                    dest_root: dest_cnode.spec_cptr(),
                    dest_index: dest_cnode.spec_next_free_slot(),
                    dest_depth: WORD_BITS,
                    src_root: src_cnode.spec_cptr(),
                    src_index: self.spec_cptr(),
                    src_depth: WORD_BITS,
                    rights,
                }),
                Err(e) => dest_cnode.spec_free_slots() < 1 && e == Error::SlotsExhausted,
            },
    {
        if dest_cnode.free_slots() < 1 {
            return Err(Error::SlotsExhausted);
        }
        Ok(
            Invocation::CNodeCopy {
                dest_root: dest_cnode.cptr(),
                dest_index: dest_cnode.next_free_slot(),
                dest_depth: WORD_BITS,
                src_root: src_cnode.cptr(),
                src_index: self.cptr(),
                src_depth: WORD_BITS,
                rights,
            },
        )
    }

    /// Copies this capability, with `rights`, into the next slot of
    /// `dest_cnode`; `status` is the kernel's answer to
    /// `copy_local_invocation`. The copied capability stays usable. On
    /// failure the arena comes back unchanged.
    pub fn copy_local(
        &self,
        src_cnode: &CNode<Local>,
        dest_cnode: CNode<Local>,
        rights: CapRights,
        status: u32,
    ) -> (r: Result<(LocalCap<CT::CopyOutput>, CNode<Local>), (Error, CNode<Local>)>)
        requires
            dest_cnode.wf(),
        ensures
            r is Ok <==> dest_cnode.spec_free_slots() >= 1 && status == NO_ERROR,
            match r {
                Ok((copy, rest)) => {
                    &&& copy.spec_cptr() == dest_cnode.spec_next_free_slot()
                    &&& copy.spec_data() == self.spec_data().spec_copy()
                    &&& rest == dest_cnode.advanced(1) && rest.wf()
                },
                Err((e, back)) => back == dest_cnode && e == if dest_cnode.spec_free_slots() < 1 {
                    Error::SlotsExhausted
                } else {
                    Error::SeL4(SeL4Error::CNodeCopy(status_error(status)))
                },
            },
    {
        if dest_cnode.free_slots() < 1 {
            return Err((Error::SlotsExhausted, dest_cnode));
        }
        match status.as_result() {
            Ok(()) => {},
            Err(e) => return Err((Error::SeL4(SeL4Error::CNodeCopy(e)), dest_cnode)),
        }
        let (rest, slot) = match dest_cnode.consume_slot() {
            Ok(p) => p,
            Err((e, back)) => return Err((e, back)),
        };
        Ok((Cap::new(slot.offset(), self.data().copy_data()), rest))
    }
}

/// The first `k` consumptions from an arena hand out its first `k` slots in
/// order and leave the arena advanced past them.
proof fn lemma_consume_many_prefix<R: CNodeRole>(c: CNode<R>, k: nat)
    requires
        c.wf(),
        k <= c.spec_free_slots(),
    ensures
        c.consume_many(k) == Some(
            (c.advanced(k), Seq::new(k, |i: int| (c.spec_next_free_slot() + i) as nat)),
        ),
    decreases k,
{
    if k > 0 {
        lemma_consume_many_prefix(c, (k - 1) as nat);
        let prev = Seq::new((k - 1) as nat, |i: int| (c.spec_next_free_slot() + i) as nat);
        assert(c.advanced((k - 1) as nat).advanced(1) == c.advanced(k));
        assert(prev.push((c.spec_next_free_slot() + k - 1) as nat) =~= Seq::new(
            k,
            |i: int| (c.spec_next_free_slot() + i) as nat,
        ));
    }
}

/// Consuming slots one at a time from an arena with `n` free slots succeeds
/// `n` times and yields `n` distinct indices, all inside the table; a further
/// consumption is refused.
pub proof fn lemma_consume_exhausts<R: CNodeRole>(c: CNode<R>, n: nat)
    requires
        c.wf(),
        c.spec_free_slots() == n,
    ensures
        c.consume_many(n) matches Some((rest, indices)) && {
            &&& indices.len() == n
            &&& forall|i: int, j: int| 0 <= i < j < n ==> indices[i] != indices[j]
            &&& forall|i: int| 0 <= i < n ==> indices[i] < slot_count(c.spec_radix() as nat)
            &&& rest.consume_spec() is None
        },
{
    lemma_consume_many_prefix(c, n);
}

} // verus!
