//! Descriptions of the kernel invocations this library asks its caller to
//! perform, in plain values.
use vstd::prelude::*;

use crate::cap::ObjectType;

verus! {

/// Bits in a capability address; the depth of every slot lookup.
pub const WORD_BITS: usize = 32;

/// Memory attribute: the mapping is cacheable.
pub const ARM_PAGE_CACHEABLE: usize = 1;

/// Memory attribute: parity checking is on.
pub const ARM_PARITY_ENABLED: usize = 2;

/// Memory attribute: no instruction may be fetched through the mapping.
pub const ARM_EXECUTE_NEVER: usize = 4;

/// The attributes of every mapping this library makes on its own behalf.
pub const DEFAULT_VM_ATTRIBUTES: usize = 3;

/// Access rights conferred by a capability.
#[derive(Debug, Clone, Copy, PartialEq, Eq, Structural)]
pub struct CapRights {
    pub grant: bool,
    pub read: bool,
    pub write: bool,
}

impl CapRights {
    /// Read and write, no grant.
    pub fn read_write() -> (r: CapRights)
        ensures
            r == (CapRights { grant: false, read: true, write: true }),
    {
        CapRights { grant: false, read: true, write: true }
    }
}

/// One kernel invocation, with its arguments. Capability arguments are
/// addresses in the invoking component's own table.
#[derive(Debug, Clone, Copy, PartialEq, Eq, Structural)]
pub enum Invocation {
    /// Create `num_objects` objects from the untyped memory `untyped`, into
    /// consecutive slots of the table `root` starting at `offset`.
    UntypedRetype {
        untyped: usize,
        object_type: ObjectType,
        size_bits: usize,
        root: usize,
        index: usize,
        depth: usize,
        offset: usize,
        num_objects: usize,
    },
    /// Turn a 4 KiB untyped region into an address-space-id pool.
    ASIDControlMakePool { asid_control: usize, untyped: usize, root: usize, index: usize, depth: usize },
    /// Copy a capability, with the given rights, into an empty slot.
    CNodeCopy {
        dest_root: usize,
        dest_index: usize,
        dest_depth: usize,
        src_root: usize,
        src_index: usize,
        src_depth: usize,
        rights: CapRights,
    },
    /// Set a thread's capability-table root (with a guard of
    /// `cspace_guard_size` zero bits) and its address-space root.
    TCBConfigure {
        tcb: usize,
        fault_ep: usize,
        cspace_root: usize,
        cspace_guard_size: usize,
        vspace_root: usize,
    },
    /// Give a page directory an id from an address-space-id pool.
    ASIDPoolAssign { asid_pool: usize, vspace: usize },
    /// Install a page table in an address space.
    PageTableMap { page_table: usize, vspace: usize, vaddr: usize, attributes: usize },
    /// Map a page into an address space.
    PageMap { page: usize, vspace: usize, vaddr: usize, rights: CapRights, attributes: usize },
    /// Remove a page table from the address space it is installed in.
    PageTableUnmap { page_table: usize },
    /// Remove a page from the address space it is mapped in.
    PageUnmap { page: usize },
    /// Create a handler capability for one interrupt line.
    IRQControlGet { irq_control: usize, irq: usize, root: usize, index: usize, depth: usize },
}

} // verus!
