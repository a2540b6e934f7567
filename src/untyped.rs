//! Untyped memory: splitting regions and retyping them into kernel objects.
use vstd::arithmetic::power2::{lemma2_to64, lemma_pow2_strictly_increases, lemma_pow2_unfold, pow2};
use vstd::prelude::*;

use crate::cap::{
    ASIDControl, CNodeRole, Cap, Child, ChildCap, DirectRetype, Local, LocalCap, ObjectType,
};
use crate::cnode::{pow2_usize, slot_count, CNode, MAX_CNODE_RADIX};
use crate::error::{status_error, Error, ErrorExt, SeL4Error, NO_ERROR};
use crate::invocation::{Invocation, WORD_BITS};
use crate::vspace::{ASIDPool, ASID_POOL_SIZE};

verus! {

/// Largest untyped region the kernel hands out on this target: `2^29` bytes.
pub const MAX_UNTYPED_BITS: u8 = 29;

/// Size of the untyped region an address-space-id pool is made from: 4 KiB.
pub const ASID_POOL_UNTYPED_BITS: u8 = 12;

/// A claim on the physical region `paddr .. paddr + 2^size_bits`.
#[derive(Debug, PartialEq, Eq, Structural)]
pub struct Untyped {
    pub paddr: usize,
    pub size_bits: u8,
}

/// The kernel's boot-time description of one untyped region.
#[derive(Debug, Clone, Copy, PartialEq, Eq, Structural)]
pub struct UntypedDesc {
    pub paddr: usize,
    pub size_bits: u8,
    pub is_device: bool,
}

impl Untyped {
    /// The region lies in the 32-bit physical address space.
    pub open spec fn wf(&self) -> bool {
        &&& self.size_bits <= MAX_UNTYPED_BITS
        &&& self.paddr + pow2(self.size_bits as nat) <= pow2(32)
    }

    pub open spec fn start(&self) -> nat {
        self.paddr as nat
    }

    pub open spec fn size(&self) -> nat {
        pow2(self.size_bits as nat)
    }

    pub open spec fn end(&self) -> nat {
        self.start() + self.size()
    }

    /// The two halves a split leaves: the source capability keeps the
    /// upper half, the new one gets the lower half.
    pub open spec fn split_spec(&self) -> (Untyped, Untyped) {
        let bits = (self.size_bits - 1) as u8;
        (
            Untyped { paddr: (self.paddr + pow2(bits as nat)) as usize, size_bits: bits },
            Untyped { paddr: self.paddr, size_bits: bits },
        )
    }

    /// The four quarters a quartering leaves: the source capability keeps
    /// the top quarter, the three new ones get the others, lowest first.
    pub open spec fn quarter_spec(&self) -> (Untyped, Untyped, Untyped, Untyped) {
        let bits = (self.size_bits - 2) as u8;
        let q = pow2(bits as nat);
        (
            Untyped { paddr: (self.paddr + 3 * q) as usize, size_bits: bits },
            Untyped { paddr: self.paddr, size_bits: bits },
            Untyped { paddr: (self.paddr + q) as usize, size_bits: bits },
            Untyped { paddr: (self.paddr + 2 * q) as usize, size_bits: bits },
        )
    }
}

/// The invocation that retypes `untyped` into `count` objects placed in the
/// next free slots of `dest`.
pub open spec fn retype_call<R: CNodeRole>(
    untyped: usize,
    object_type: ObjectType,
    size_bits: nat,
    dest: CNode<R>,
    count: nat,
) -> Invocation {
    Invocation::UntypedRetype {
        untyped,
        object_type,
        size_bits: size_bits as usize,
        root: dest.spec_cptr(),
        index: 0,
        depth: 0,
        offset: dest.spec_next_free_slot(),
        num_objects: count as usize,
    }
}

/// The error of a retype into `dest`, which needs `count` slots, to which
/// the kernel answered `status`.
pub open spec fn retype_error<R: CNodeRole>(dest: CNode<R>, count: nat, status: u32) -> Error {
    if dest.spec_free_slots() < count {
        Error::SlotsExhausted
    } else {
        Error::SeL4(SeL4Error::UntypedRetype(status_error(status)))
    }
}

/// Whether a retype into `dest` that needs `count` slots succeeds when the
/// kernel answers `status`.
pub open spec fn retype_succeeds<R: CNodeRole>(dest: CNode<R>, count: nat, status: u32) -> bool {
    dest.spec_free_slots() >= count && status == NO_ERROR
}

fn retype_invocation<R: CNodeRole>(
    untyped: usize,
    object_type: ObjectType,
    size_bits: usize,
    dest: &CNode<R>,
    count: usize,
) -> (r: Result<Invocation, Error>)
    ensures
        match r {
            Ok(inv) => dest.spec_free_slots() >= count && inv == retype_call(
                untyped,
                object_type,
                size_bits as nat,
                *dest,
                count as nat,
            ),
            Err(e) => dest.spec_free_slots() < count && e == Error::SlotsExhausted,
        },
{
    if dest.free_slots() < count {
        return Err(Error::SlotsExhausted);
    }
    Ok(
        Invocation::UntypedRetype {
            untyped,
            object_type,
            size_bits,
            root: dest.cptr(),
            index: 0,
            depth: 0,
            offset: dest.next_free_slot(),
            num_objects: count,
        },
    )
}

fn retype_status(status: u32) -> (r: Result<(), Error>)
    ensures
        r is Ok <==> status == NO_ERROR,
        r matches Err(e) ==> e == Error::SeL4(SeL4Error::UntypedRetype(status_error(status))),
{
    match status.as_result() {
        Ok(()) => Ok(()),
        Err(e) => Err(Error::SeL4(SeL4Error::UntypedRetype(e))),
    }
}

/// Wraps an untyped capability the kernel described at boot, provided its
/// size is the expected one and its region lies in the physical address
/// space.
pub fn wrap_untyped(cptr: usize, untyped_desc: &UntypedDesc, size_bits: u8) -> (r: Option<
    LocalCap<Untyped>,
>)
    ensures
        r is Some <==> untyped_desc.size_bits == size_bits && (Untyped {
            paddr: untyped_desc.paddr,
            size_bits,
        }).wf(),
        r matches Some(c) ==> c.spec_cptr() == cptr && c.spec_data() == (Untyped {
            paddr: untyped_desc.paddr,
            size_bits,
        }),
{
    if untyped_desc.size_bits != size_bits || size_bits > MAX_UNTYPED_BITS {
        return None;
    }
    let size = pow2_usize(size_bits);
    proof {
        lemma2_to64();
        lemma_pow2_strictly_increases(size_bits as nat, 32);
    }
    if untyped_desc.paddr as u64 > 0x1_0000_0000u64 - size as u64 {
        return None;
    }
    Some(Cap::new(cptr, Untyped { paddr: untyped_desc.paddr, size_bits }))
}

/// Splitting a region of `2^n` bytes gives two regions of `2^(n-1)` bytes
/// that do not overlap, lie next to each other and together cover exactly
/// the whole region.
pub proof fn lemma_split_partitions(u: Untyped)
    requires
        u.wf(),
        u.size_bits >= 1,
    ensures
        ({
            let (kept, carved) = u.split_spec();
            &&& kept.wf() && carved.wf()
            &&& carved.start() == u.start()
            &&& carved.end() == kept.start()
            &&& kept.end() == u.end()
            &&& kept.size() + carved.size() == u.size()
        }),
{
    lemma_pow2_unfold(u.size_bits as nat);
    lemma2_to64();
}

/// Quartering a region of `2^n` bytes gives four regions of `2^(n-2)` bytes
/// that do not overlap, follow one another and together cover exactly the
/// whole region.
pub proof fn lemma_quarter_partitions(u: Untyped)
    requires
        u.wf(),
        u.size_bits >= 2,
    ensures
        ({
            let (kept, a, b, c) = u.quarter_spec();
            &&& kept.wf() && a.wf() && b.wf() && c.wf()
            &&& a.start() == u.start()
            &&& a.end() == b.start()
            &&& b.end() == c.start()
            &&& c.end() == kept.start()
            &&& kept.end() == u.end()
            &&& kept.size() + a.size() + b.size() + c.size() == u.size()
        }),
{
    lemma_pow2_unfold(u.size_bits as nat);
    lemma_pow2_unfold((u.size_bits - 1) as nat);
    lemma2_to64();
}

impl Cap<Untyped, Local> {
    /// The invocation `split` needs: fails with `SlotsExhausted` exactly
    /// when `dest_cnode` has no free slot.
    pub fn split_invocation(&self, dest_cnode: &CNode<Local>) -> (r: Result<Invocation, Error>)
        requires
            self.spec_data().wf(),
            self.spec_data().size_bits >= 1,
        ensures
            match r {
                Ok(inv) => dest_cnode.spec_free_slots() >= 1 && inv == retype_call(
                    self.spec_cptr(),
                    ObjectType::Untyped,
                    (self.spec_data().size_bits - 1) as nat,
                    *dest_cnode,
                    1,
                ),
                Err(e) => dest_cnode.spec_free_slots() < 1 && e == Error::SlotsExhausted,
            },
    {
        retype_invocation(
            self.cptr(),
            ObjectType::Untyped,
            (self.data().size_bits - 1) as usize,
            dest_cnode,
            1,
        )
    }

    /// Splits the region in two halves, consuming one slot of `dest_cnode`
    /// for the new capability; `status` is the kernel's answer to
    /// `split_invocation`. The source capability keeps the upper half; its
    /// slot must not be one `dest_cnode` still hands out. On failure the
    /// untyped capability and the arena come back unchanged.
    pub fn split(self, dest_cnode: CNode<Local>, status: u32) -> (r: Result<
        (LocalCap<Untyped>, LocalCap<Untyped>, CNode<Local>),
        (Error, LocalCap<Untyped>, CNode<Local>),
    >)
        requires
            self.spec_data().wf(),
            self.spec_data().size_bits >= 1,
            dest_cnode.wf(),
            !dest_cnode.owns(self.spec_cptr() as int),
        ensures
            r is Ok <==> retype_succeeds(dest_cnode, 1, status),
            match r {
                Ok((kept, carved, rest)) => {
                    &&& kept.spec_cptr() == self.spec_cptr()
                    &&& carved.spec_cptr() == dest_cnode.spec_next_free_slot()
                    &&& kept.spec_cptr() != carved.spec_cptr()
                    &&& (kept.spec_data(), carved.spec_data()) == self.spec_data().split_spec()
                    &&& kept.spec_data().wf() && carved.spec_data().wf()
                    &&& rest == dest_cnode.advanced(1) && rest.wf()
                },
                Err((e, ut, back)) => {
                    &&& e == retype_error(dest_cnode, 1, status)
                    &&& ut == self
                    &&& back == dest_cnode
                },
            },
    {
        if dest_cnode.free_slots() < 1 {
            return Err((Error::SlotsExhausted, self, dest_cnode));
        }
        match retype_status(status) {
            Ok(()) => {},
            Err(e) => return Err((e, self, dest_cnode)),
        }
        let (rest, slot) = match dest_cnode.consume_slot() {
            Ok(p) => p,
            Err((e, back)) => return Err((e, self, back)),
        };
        let (cptr, ut) = self.into_parts();
        proof {
            lemma_split_partitions(ut);
            lemma_pow2_strictly_increases((ut.size_bits - 1) as nat, 32);
            lemma2_to64();
        }
        let bits = ut.size_bits - 1;
        let half = pow2_usize(bits);
        let kept = Cap::new(cptr, Untyped { paddr: ut.paddr + half, size_bits: bits });
        let carved = Cap::new(slot.offset(), Untyped { paddr: ut.paddr, size_bits: bits });
        Ok((kept, carved, rest))
    }

    /// The invocation `quarter` needs: fails with `SlotsExhausted` exactly
    /// when `dest_cnode` has fewer than three free slots.
    pub fn quarter_invocation(&self, dest_cnode: &CNode<Local>) -> (r: Result<Invocation, Error>)
        requires
            self.spec_data().wf(),
            self.spec_data().size_bits >= 2,
        ensures
            match r {
                Ok(inv) => dest_cnode.spec_free_slots() >= 3 && inv == retype_call(
                    self.spec_cptr(),
                    ObjectType::Untyped,
                    (self.spec_data().size_bits - 2) as nat,
                    *dest_cnode,
                    3,
                ),
                Err(e) => dest_cnode.spec_free_slots() < 3 && e == Error::SlotsExhausted,
            },
    {
        retype_invocation(
            self.cptr(),
            ObjectType::Untyped,
            (self.data().size_bits - 2) as usize,
            dest_cnode,
            3,
        )
    }

    /// Splits the region in four quarters, consuming three slots of
    /// `dest_cnode` for the new capabilities; `status` is the kernel's answer
    /// to `quarter_invocation`. The source capability keeps the top quarter;
    /// the new ones follow slot order from the bottom up. The source's slot
    /// must not be one `dest_cnode` still hands out. On failure the untyped
    /// capability and the arena come back unchanged.
    pub fn quarter(self, dest_cnode: CNode<Local>, status: u32) -> (r: Result<
        (LocalCap<Untyped>, LocalCap<Untyped>, LocalCap<Untyped>, LocalCap<Untyped>, CNode<Local>),
        (Error, LocalCap<Untyped>, CNode<Local>),
    >)
        requires
            self.spec_data().wf(),
            self.spec_data().size_bits >= 2,
            dest_cnode.wf(),
            !dest_cnode.owns(self.spec_cptr() as int),
        ensures
            r is Ok <==> retype_succeeds(dest_cnode, 3, status),
            match r {
                Ok((kept, a, b, c, rest)) => {
                    &&& kept.spec_cptr() == self.spec_cptr()
                    &&& a.spec_cptr() == dest_cnode.spec_next_free_slot()
                    &&& b.spec_cptr() == dest_cnode.spec_next_free_slot() + 1
                    &&& c.spec_cptr() == dest_cnode.spec_next_free_slot() + 2
                    &&& kept.spec_cptr() != a.spec_cptr() && kept.spec_cptr() != b.spec_cptr()
                        && kept.spec_cptr() != c.spec_cptr()
                    &&& (kept.spec_data(), a.spec_data(), b.spec_data(), c.spec_data())
                        == self.spec_data().quarter_spec()
                    &&& kept.spec_data().wf() && a.spec_data().wf() && b.spec_data().wf()
                        && c.spec_data().wf()
                    &&& rest == dest_cnode.advanced(3) && rest.wf()
                },
                Err((e, ut, back)) => {
                    &&& e == retype_error(dest_cnode, 3, status)
                    &&& ut == self
                    &&& back == dest_cnode
                },
            },
    {
        if dest_cnode.free_slots() < 3 {
            return Err((Error::SlotsExhausted, self, dest_cnode));
        }
        match retype_status(status) {
            Ok(()) => {},
            Err(e) => return Err((e, self, dest_cnode)),
        }
        let (dest_cnode, slot1) = match dest_cnode.consume_slot() {
            Ok(p) => p,
            Err((e, back)) => return Err((e, self, back)),
        };
        let (dest_cnode, slot2) = match dest_cnode.consume_slot() {
            Ok(p) => p,
            Err((e, back)) => return Err((e, self, back)),
        };
        let (rest, slot3) = match dest_cnode.consume_slot() {
            Ok(p) => p,
            Err((e, back)) => return Err((e, self, back)),
        };
        let (cptr, ut) = self.into_parts();
        proof {
            lemma_quarter_partitions(ut);
            lemma_pow2_strictly_increases((ut.size_bits - 2) as nat, 32);
            lemma2_to64();
        }
        let bits = ut.size_bits - 2;
        let q = pow2_usize(bits);
        let kept = Cap::new(cptr, Untyped { paddr: ut.paddr + 3 * q, size_bits: bits });
        let a = Cap::new(slot1.offset(), Untyped { paddr: ut.paddr, size_bits: bits });
        let b = Cap::new(slot2.offset(), Untyped { paddr: ut.paddr + q, size_bits: bits });
        let c = Cap::new(slot3.offset(), Untyped { paddr: ut.paddr + 2 * q, size_bits: bits });
        Ok((kept, a, b, c, rest))
    }

    /// The invocation `retype_local` needs: fails with `SlotsExhausted`
    /// exactly when `dest_cnode` has no free slot.
    pub fn retype_local_invocation<TargetCapType: DirectRetype>(&self, dest_cnode: &CNode<Local>) -> (r:
        Result<Invocation, Error>)
        ensures
            match r {
                Ok(inv) => dest_cnode.spec_free_slots() >= 1 && inv == retype_call(
                    self.spec_cptr(),
                    TargetCapType::spec_object_type(),
                    0,
                    *dest_cnode,
                    1,
                ),
                Err(e) => dest_cnode.spec_free_slots() < 1 && e == Error::SlotsExhausted,
            },
    {
        retype_invocation(self.cptr(), TargetCapType::object_type(), 0, dest_cnode, 1)
    }

    /// Turns the region into one kernel object of a fixed size, placed in
    /// the next slot of `dest_cnode`; `status` is the kernel's answer to
    /// `retype_local_invocation`. The kernel rejects a region that is too
    /// small. On failure the untyped capability and the arena come back
    /// unchanged.
    pub fn retype_local<TargetCapType: DirectRetype>(self, dest_cnode: CNode<Local>, status: u32) -> (r:
        Result<(LocalCap<TargetCapType>, CNode<Local>), (Error, LocalCap<Untyped>, CNode<Local>)>)
        requires
            dest_cnode.wf(),
        ensures
            r is Ok <==> retype_succeeds(dest_cnode, 1, status),
            match r {
                Ok((cap, rest)) => {
                    &&& cap.spec_cptr() == dest_cnode.spec_next_free_slot()
                    &&& cap.spec_data() == TargetCapType::spec_fresh()
                    &&& rest == dest_cnode.advanced(1) && rest.wf()
                },
                Err((e, ut, back)) => {
                    &&& e == retype_error(dest_cnode, 1, status)
                    &&& ut == self
                    &&& back == dest_cnode
                },
            },
    {
        if dest_cnode.free_slots() < 1 {
            return Err((Error::SlotsExhausted, self, dest_cnode));
        }
        match retype_status(status) {
            Ok(()) => {},
            Err(e) => return Err((e, self, dest_cnode)),
        }
        let (rest, slot) = match dest_cnode.consume_slot() {
            Ok(p) => p,
            Err((e, back)) => return Err((e, self, back)),
        };
        Ok((Cap::new(slot.offset(), TargetCapType::fresh()), rest))
    }

    /// The invocation `retype_child` needs: fails with `SlotsExhausted`
    /// exactly when `dest_cnode` has no free slot.
    pub fn retype_child_invocation<TargetCapType: DirectRetype>(&self, dest_cnode: &CNode<Child>) -> (r:
        Result<Invocation, Error>)
        ensures
            match r {
                Ok(inv) => dest_cnode.spec_free_slots() >= 1 && inv == retype_call(
                    self.spec_cptr(),
                    TargetCapType::spec_object_type(),
                    0,
                    *dest_cnode,
                    1,
                ),
                Err(e) => dest_cnode.spec_free_slots() < 1 && e == Error::SlotsExhausted,
            },
    {
        retype_invocation(self.cptr(), TargetCapType::object_type(), 0, dest_cnode, 1)
    }

    /// Like `retype_local`, but the object goes into the table of a process
    /// that has not started yet, and the capability can only be handed to
    /// that process.
    pub fn retype_child<TargetCapType: DirectRetype>(self, dest_cnode: CNode<Child>, status: u32) -> (r:
        Result<(ChildCap<TargetCapType>, CNode<Child>), (Error, LocalCap<Untyped>, CNode<Child>)>)
        requires
            dest_cnode.wf(),
        ensures
            r is Ok <==> retype_succeeds(dest_cnode, 1, status),
            match r {
                Ok((cap, rest)) => {
                    &&& cap.spec_cptr() == dest_cnode.spec_next_free_slot()
                    &&& cap.spec_data() == TargetCapType::spec_fresh()
                    &&& rest == dest_cnode.advanced(1) && rest.wf()
                },
                Err((e, ut, back)) => {
                    &&& e == retype_error(dest_cnode, 1, status)
                    &&& ut == self
                    &&& back == dest_cnode
                },
            },
    {
        if dest_cnode.free_slots() < 1 {
            return Err((Error::SlotsExhausted, self, dest_cnode));
        }
        match retype_status(status) {
            Ok(()) => {},
            Err(e) => return Err((e, self, dest_cnode)),
        }
        let (rest, slot) = match dest_cnode.consume_slot() {
            Ok(p) => p,
            Err((e, back)) => return Err((e, self, back)),
        };
        Ok((Cap::new(slot.offset(), TargetCapType::fresh()), rest))
    }

    /// The invocation `retype_local_cnode` needs: fails with
    /// `SlotsExhausted` exactly when `dest_cnode` has no free slot.
    pub fn retype_local_cnode_invocation(&self, dest_cnode: &CNode<Local>, child_radix: u8) -> (r:
        Result<Invocation, Error>)
        ensures
            match r {
                Ok(inv) => dest_cnode.spec_free_slots() >= 1 && inv == retype_call(
                    self.spec_cptr(),
                    ObjectType::CapTable,
                    child_radix as nat,
                    *dest_cnode,
                    1,
                ),
                Err(e) => dest_cnode.spec_free_slots() < 1 && e == Error::SlotsExhausted,
            },
    {
        retype_invocation(self.cptr(), ObjectType::CapTable, child_radix as usize, dest_cnode, 1)
    }

    /// Turns the region into a capability table of `2^child_radix` slots for
    /// a process that has not started yet; `status` is the kernel's answer to
    /// `retype_local_cnode_invocation`. The new table's arena holds all its
    /// slots. On failure the untyped capability and the arena come back
    /// unchanged.
    pub fn retype_local_cnode(self, dest_cnode: CNode<Local>, child_radix: u8, status: u32) -> (r:
        Result<(CNode<Child>, CNode<Local>), (Error, LocalCap<Untyped>, CNode<Local>)>)
        requires
            dest_cnode.wf(),
            child_radix <= MAX_CNODE_RADIX,
        ensures
            r is Ok <==> retype_succeeds(dest_cnode, 1, status),
            match r {
                Ok((child, rest)) => {
                    &&& child.spec_cptr() == dest_cnode.spec_next_free_slot()
                    &&& child.spec_radix() == child_radix
                    &&& child.spec_next_free_slot() == 0
                    &&& child.spec_free_slots() == slot_count(child_radix as nat)
                    &&& child.wf()
                    &&& rest == dest_cnode.advanced(1) && rest.wf()
                },
                Err((e, ut, back)) => {
                    &&& e == retype_error(dest_cnode, 1, status)
                    &&& ut == self
                    &&& back == dest_cnode
                },
            },
    {
        if dest_cnode.free_slots() < 1 {
            return Err((Error::SlotsExhausted, self, dest_cnode));
        }
        match retype_status(status) {
            Ok(()) => {},
            Err(e) => return Err((e, self, dest_cnode)),
        }
        let (rest, slot) = match dest_cnode.consume_slot() {
            Ok(p) => p,
            Err((e, back)) => return Err((e, self, back)),
        };
        let slots = pow2_usize(child_radix);
        Ok((CNode::new(child_radix, 0, slots, slot.offset()), rest))
    }

    /// The invocation `retype_asid_pool` needs: fails with `SlotsExhausted`
    /// exactly when `dest_cnode` has no free slot.
    pub fn retype_asid_pool_invocation(
        &self,
        asid_control: &LocalCap<ASIDControl>,
        dest_cnode: &CNode<Local>,
    ) -> (r: Result<Invocation, Error>)
        ensures
            match r {
                Ok(inv) => dest_cnode.spec_free_slots() >= 1 && inv == (
                Invocation::ASIDControlMakePool {
                    asid_control: asid_control.spec_cptr(),
                    untyped: self.spec_cptr(),
                    root: dest_cnode.spec_cptr(),
                    index: dest_cnode.spec_next_free_slot(),
                    depth: WORD_BITS,
                }),
                Err(e) => dest_cnode.spec_free_slots() < 1 && e == Error::SlotsExhausted,
            },
    {
        if dest_cnode.free_slots() < 1 {
            return Err(Error::SlotsExhausted);
        }
        Ok(
            Invocation::ASIDControlMakePool {
                asid_control: asid_control.cptr(),
                untyped: self.cptr(),
                root: dest_cnode.cptr(),
                index: dest_cnode.next_free_slot(),
                depth: WORD_BITS,
            },
        )
    }

    /// Turns a 4 KiB region into the component's address-space-id pool,
    /// consuming the (single) authority to make pools; `status` is the
    /// kernel's answer to `retype_asid_pool_invocation`. The pool starts with
    /// all its ids free: the second block of 1024 ids, since the first
    /// belongs to the initial thread's own pool. On failure the untyped
    /// capability, the authority and the arena come back unchanged.
    pub fn retype_asid_pool(
        self,
        asid_control: LocalCap<ASIDControl>,
        dest_cnode: CNode<Local>,
        status: u32,
    ) -> (r: Result<
        (LocalCap<ASIDPool>, CNode<Local>),
        (Error, LocalCap<Untyped>, LocalCap<ASIDControl>, CNode<Local>),
    >)
        requires
            self.spec_data().size_bits == ASID_POOL_UNTYPED_BITS,
            dest_cnode.wf(),
        ensures
            r is Ok <==> retype_succeeds(dest_cnode, 1, status),
            match r {
                Ok((pool, rest)) => {
                    &&& pool.spec_cptr() == dest_cnode.spec_next_free_slot()
                    &&& pool.spec_data() == (ASIDPool {
                        base: ASID_POOL_SIZE,
                        next_free_slot: 0,
                        free_slots: ASID_POOL_SIZE,
                    })
                    &&& pool.spec_data().wf()
                    &&& rest == dest_cnode.advanced(1) && rest.wf()
                },
                Err((e, ut, control, back)) => {
                    &&& ut == self && control == asid_control && back == dest_cnode
                    &&& e == if dest_cnode.spec_free_slots() < 1 {
                        Error::SlotsExhausted
                    } else {
                        Error::SeL4(SeL4Error::ASIDControlMakePool(status_error(status)))
                    }
                },
            },
    {
        if dest_cnode.free_slots() < 1 {
            return Err((Error::SlotsExhausted, self, asid_control, dest_cnode));
        }
        match status.as_result() {
            Ok(()) => {},
            Err(e) => return Err(
                (Error::SeL4(SeL4Error::ASIDControlMakePool(e)), self, asid_control, dest_cnode),
            ),
        }
        let (rest, slot) = match dest_cnode.consume_slot() {
            Ok(p) => p,
            Err((e, back)) => return Err((e, self, asid_control, back)),
        };
        let pool = ASIDPool { base: ASID_POOL_SIZE, next_free_slot: 0, free_slots: ASID_POOL_SIZE };
        Ok((Cap::new(slot.offset(), pool), rest))
    }
}

} // verus!
