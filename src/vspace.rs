//! Address-space structures and their states: pages and page tables are
//! mapped or unmapped, page directories assigned an address-space id or not.
//! Every state change consumes the capability and returns it in its new
//! state.
use vstd::prelude::*;

use crate::cap::{Cap, CopyAliasable, DirectRetype, LocalCap, ObjectType};
use crate::error::{status_error, status_result, Error, ErrorExt, KernelError, SeL4Error, NO_ERROR};
use crate::invocation::{CapRights, Invocation, DEFAULT_VM_ATTRIBUTES};
use crate::sealed::{SealedCapType, SealedPageState};

verus! {

/// Bytes in a page, the granule of every mapping: 4 KiB.
pub const PAGE_BYTES: usize = 4096;

/// Entries of a page table, one per page of its 1 MiB range.
pub const PAGE_TABLE_SLOTS: usize = 256;

/// Bits of the address range one page table covers (1 MiB).
pub const PAGE_TABLE_TOTAL_BITS: usize = 20;

/// Entries of a page directory below the kernel's reserved top 512, each
/// holding the page table of one 1 MiB range.
pub const PAGE_DIRECTORY_USER_SLOTS: usize = 3584;

/// Address-space ids in one pool.
pub const ASID_POOL_SIZE: usize = 1024;

/// Address-space id of the initial thread's own address space.
pub const INIT_THREAD_ASID: usize = 1;

/// Whether a page or page table is mapped.
pub trait PageState: SealedPageState {}

/// Mapped at `vaddr` in the address space with id `asid`.
#[derive(Debug, Clone, Copy, PartialEq, Eq, Structural)]
pub struct Mapped {
    pub vaddr: usize,
    pub asid: usize,
}

/// Not mapped anywhere.
#[derive(Debug, Clone, Copy, PartialEq, Eq, Structural)]
pub struct Unmapped {}

impl SealedPageState for Mapped {}

impl SealedPageState for Unmapped {}

impl PageState for Mapped {}

impl PageState for Unmapped {}

/// A 4 KiB frame of memory.
#[derive(Debug)]
pub struct Page<State: PageState> {
    pub state: State,
}

/// A second-level paging structure, holding the pages of one 1 MiB range.
/// Its entries are handed out in order: `free_slots` of them remain from
/// `next_free_slot` on.
#[derive(Debug)]
pub struct PageTable<State: PageState> {
    pub state: State,
    pub next_free_slot: usize,
    pub free_slots: usize,
}

pub type UnmappedPage = Page<Unmapped>;

pub type MappedPage = Page<Mapped>;

pub type UnmappedPageTable = PageTable<Unmapped>;

pub type MappedPageTable = PageTable<Mapped>;

/// The root of an address space, before it has an address-space id.
#[derive(Debug, PartialEq, Eq, Structural)]
pub struct UnassignedPageDirectory {}

/// The root of an address space, bound to the address-space id `asid`; the
/// binding is permanent. Its entries are handed out in order, one per page
/// table installed: `free_slots` of them remain from `next_free_slot` on.
#[derive(Debug, PartialEq, Eq, Structural)]
pub struct AssignedPageDirectory {
    pub asid: usize,
    pub next_free_slot: usize,
    pub free_slots: usize,
}

/// A pool of address-space ids: the ids `base + next_free_slot` on, of which
/// `free_slots` remain. Ids are handed out in order and never return to the
/// pool.
#[derive(Debug, PartialEq, Eq, Structural)]
pub struct ASIDPool {
    pub base: usize,
    pub next_free_slot: usize,
    pub free_slots: usize,
}

impl AssignedPageDirectory {
    /// The entries lie below the kernel's reserved part.
    pub open spec fn wf(&self) -> bool {
        self.next_free_slot + self.free_slots <= PAGE_DIRECTORY_USER_SLOTS
    }
}

impl ASIDPool {
    /// The pool's ids fit a word.
    pub open spec fn wf(&self) -> bool {
        self.base + self.next_free_slot + self.free_slots <= usize::MAX
    }
}

/// Failure of `map_granule`.
#[derive(Debug, Clone, Copy, PartialEq, Eq, Structural)]
pub enum MappingError {
    /// The address is not a multiple of the page size; nothing was asked of
    /// the kernel.
    AddrNotPageAligned,
    /// A paging structure is missing at the address: map another page table
    /// there, then try again.
    Overflow,
    /// The kernel refused the mapping for another reason.
    PageMapFailure(SeL4Error),
}

impl<State: PageState> SealedCapType for Page<State> {}

impl<State: PageState> SealedCapType for PageTable<State> {}

impl SealedCapType for UnassignedPageDirectory {}

impl CopyAliasable for Page<Unmapped> {
    type CopyOutput = Page<Unmapped>;

    open spec fn spec_copy(&self) -> Page<Unmapped> {
        Page { state: Unmapped {} }
    }

    fn copy_data(&self) -> (r: Page<Unmapped>) {
        Page { state: Unmapped {} }
    }
}

impl CopyAliasable for Page<Mapped> {
    type CopyOutput = Page<Unmapped>;

    open spec fn spec_copy(&self) -> Page<Unmapped> {
        Page { state: Unmapped {} }
    }

    fn copy_data(&self) -> (r: Page<Unmapped>) {
        Page { state: Unmapped {} }
    }
}

impl DirectRetype for Page<Unmapped> {
    open spec fn spec_object_type() -> ObjectType {
        ObjectType::SmallPage
    }

    open spec fn spec_fresh() -> Self {
        Page { state: Unmapped {} }
    }

    fn object_type() -> (r: ObjectType) {
        ObjectType::SmallPage
    }

    fn fresh() -> (r: Self) {
        Page { state: Unmapped {} }
    }
}

impl DirectRetype for PageTable<Unmapped> {
    open spec fn spec_object_type() -> ObjectType {
        ObjectType::PageTable
    }

    open spec fn spec_fresh() -> Self {
        PageTable { state: Unmapped {}, next_free_slot: 0, free_slots: PAGE_TABLE_SLOTS }
    }

    fn object_type() -> (r: ObjectType) {
        ObjectType::PageTable
    }

    fn fresh() -> (r: Self) {
        PageTable { state: Unmapped {}, next_free_slot: 0, free_slots: PAGE_TABLE_SLOTS }
    }
}

impl DirectRetype for UnassignedPageDirectory {
    open spec fn spec_object_type() -> ObjectType {
        ObjectType::PageDirectory
    }

    open spec fn spec_fresh() -> Self {
        UnassignedPageDirectory {}
    }

    fn object_type() -> (r: ObjectType) {
        ObjectType::PageDirectory
    }

    fn fresh() -> (r: Self) {
        UnassignedPageDirectory {}
    }
}

/// Whether `vaddr` is a multiple of the page size.
pub open spec fn page_aligned(vaddr: usize) -> bool {
    vaddr % PAGE_BYTES == 0
}

fn is_aligned(addr: usize) -> (r: bool)
    ensures
        r == page_aligned(addr),
{
    addr % PAGE_BYTES == 0
}

/// What `map_granule` makes of a page-map status: a failed lookup means a
/// paging structure is missing, and is reported as `Overflow`.
pub open spec fn map_granule_result(status: u32) -> Result<(), MappingError> {
    match status_result(status) {
        Ok(()) => Ok(()),
        Err(KernelError::FailedLookup) => Err(MappingError::Overflow),
        Err(e) => Err(MappingError::PageMapFailure(SeL4Error::PageMap(e))),
    }
}

/// Start of the 1 MiB range that page-directory entry `index` covers.
pub open spec fn page_table_vaddr(index: int) -> usize {
    (index * 0x10_0000) as usize
}

fn page_table_vaddr_of(index: usize) -> (r: usize)
    requires
        index < PAGE_DIRECTORY_USER_SLOTS,
    ensures
        r == page_table_vaddr(index as int),
{
    assert(index << 20 == index * 0x10_0000) by (bit_vector)
        requires
            index < 3584,
    ;
    index << PAGE_TABLE_TOTAL_BITS
}

impl Cap<Page<Mapped>, crate::cap::Local> {
    /// Where the page is mapped.
    pub fn vaddr(&self) -> (r: usize)
        ensures
            r == self.spec_data().state.vaddr,
    {
        self.data().state.vaddr
    }

    /// The id of the address space the page is mapped in.
    pub fn asid(&self) -> (r: usize)
        ensures
            r == self.spec_data().state.asid,
    {
        self.data().state.asid
    }

    /// The invocation `unmap` needs.
    pub fn unmap_invocation(&self) -> (r: Invocation)
        ensures
            r == (Invocation::PageUnmap { page: self.spec_cptr() }),
    {
        Invocation::PageUnmap { page: self.cptr() }
    }

    /// Unmaps the page; `status` is the kernel's answer to
    /// `unmap_invocation`. The page keeps no trace of where it was mapped.
    pub fn unmap(self, status: u32) -> (r: Result<LocalCap<Page<Unmapped>>, SeL4Error>)
        ensures
            r is Ok <==> status == NO_ERROR,
            match r {
                Ok(page) => page.spec_cptr() == self.spec_cptr() && page.spec_data() == unmap_spec(
                    self.spec_data(),
                ),
                Err(e) => e == SeL4Error::PageUnmap(status_error(status)),
            },
    {
        let (cptr, _) = self.into_parts();
        match status.as_result() {
            Ok(()) => Ok(Cap::new(cptr, Page { state: Unmapped {} })),
            Err(e) => Err(SeL4Error::PageUnmap(e)),
        }
    }
}

impl Cap<PageTable<Mapped>, crate::cap::Local> {
    /// The invocation `map_granule` needs: fails with `AddrNotPageAligned`,
    /// and asks nothing of the kernel, exactly when `addr` is not a multiple
    /// of the page size.
    pub fn map_granule_invocation(
        &self,
        page: &LocalCap<Page<Unmapped>>,
        addr: usize,
        root: &LocalCap<AssignedPageDirectory>,
        rights: CapRights,
        vm_attributes: usize,
    ) -> (r: Result<Invocation, MappingError>)
        ensures
            match r {
                Ok(inv) => page_aligned(addr) && inv == (Invocation::PageMap {
                    page: page.spec_cptr(),
                    vspace: root.spec_cptr(),
                    vaddr: addr,
                    rights,
                    attributes: vm_attributes,
                }),
                Err(e) => !page_aligned(addr) && e == MappingError::AddrNotPageAligned,
            },
    {
        if is_aligned(addr) {
            Ok(
                Invocation::PageMap {
                    page: page.cptr(),
                    vspace: root.cptr(),
                    vaddr: addr,
                    rights,
                    attributes: vm_attributes,
                },
            )
        } else {
            Err(MappingError::AddrNotPageAligned)
        }
    }

    /// Maps `page` at `addr` in the address space of `root`; `status` is the
    /// kernel's answer to `map_granule_invocation`, and counts only when
    /// `addr` is page-aligned. On success the page records the new address
    /// and the address space's id; on failure the page comes back unmapped.
    pub fn map_granule(
        &mut self,
        page: LocalCap<Page<Unmapped>>,
        addr: usize,
        root: &mut LocalCap<AssignedPageDirectory>,
        rights: CapRights,
        vm_attributes: usize,
        status: u32,
    ) -> (r: Result<LocalCap<Page<Mapped>>, (MappingError, LocalCap<Page<Unmapped>>)>)
        ensures
            *final(self) == *old(self),
            *final(root) == *old(root),
            r is Ok <==> page_aligned(addr) && status == NO_ERROR,
            match r {
                Ok(mapped) => {
                    &&& mapped.spec_cptr() == page.spec_cptr()
                    &&& mapped.spec_data() == map_spec(
                        page.spec_data(),
                        addr,
                        old(root).spec_data().asid,
                    )
                },
                Err((e, back)) => {
                    &&& back == page
                    &&& !page_aligned(addr) ==> e == MappingError::AddrNotPageAligned
                    &&& page_aligned(addr) ==> map_granule_result(status) == Err::<(), MappingError>(e)
                },
            },
    {
        if !is_aligned(addr) {
            return Err((MappingError::AddrNotPageAligned, page));
        }
        match status.as_result() {
            Ok(()) => {
                let asid = root.data().asid;
                let (cptr, _) = page.into_parts();
                Ok(Cap::new(cptr, Page { state: Mapped { vaddr: addr, asid } }))
            },
            Err(KernelError::FailedLookup) => Err((MappingError::Overflow, page)),
            Err(e) => Err((MappingError::PageMapFailure(SeL4Error::PageMap(e)), page)),
        }
    }

    /// The invocation `unmap` needs.
    pub fn unmap_invocation(&self) -> (r: Invocation)
        ensures
            r == (Invocation::PageTableUnmap { page_table: self.spec_cptr() }),
    {
        Invocation::PageTableUnmap { page_table: self.cptr() }
    }

    /// Removes the page table from its address space; `status` is the
    /// kernel's answer to `unmap_invocation`. Its entry counts stay as they
    /// were.
    pub fn unmap(self, status: u32) -> (r: Result<LocalCap<PageTable<Unmapped>>, Error>)
        ensures
            r is Ok <==> status == NO_ERROR,
            match r {
                Ok(pt) => pt.spec_cptr() == self.spec_cptr() && pt.spec_data() == (PageTable {
                    state: Unmapped {},
                    next_free_slot: self.spec_data().next_free_slot,
                    free_slots: self.spec_data().free_slots,
                }),
                Err(e) => e == Error::SeL4(SeL4Error::PageTableUnmap(status_error(status))),
            },
    {
        let (cptr, pt) = self.into_parts();
        match status.as_result() {
            Ok(()) => Ok(
                Cap::new(
                    cptr,
                    PageTable {
                        state: Unmapped {},
                        next_free_slot: pt.next_free_slot,
                        free_slots: pt.free_slots,
                    },
                ),
            ),
            Err(e) => Err(Error::SeL4(SeL4Error::PageTableUnmap(e))),
        }
    }
}

/// The page a successful unmapping of `page` gives: one mapped nowhere.
pub open spec fn unmap_spec(page: Page<Mapped>) -> Page<Unmapped> {
    Page { state: Unmapped {} }
}

/// The page a successful mapping of `page` at `vaddr`, in the address space
/// with id `asid`, gives.
pub open spec fn map_spec(page: Page<Unmapped>, vaddr: usize, asid: usize) -> Page<Mapped> {
    Page { state: Mapped { vaddr, asid } }
}

impl Cap<AssignedPageDirectory, crate::cap::Local> {
    /// The invocation `map_page_table` needs: the page table goes to the
    /// range of the directory's next free entry. Fails with
    /// `PageDirectoryFull` exactly when no entry is left.
    pub fn map_page_table_invocation(&self, page_table: &LocalCap<PageTable<Unmapped>>) -> (r: Result<
        Invocation,
        Error,
    >)
        requires
            self.spec_data().wf(),
        ensures
            match r {
                Ok(inv) => self.spec_data().free_slots > 0 && inv == (Invocation::PageTableMap {
                    page_table: page_table.spec_cptr(),
                    vspace: self.spec_cptr(),
                    vaddr: page_table_vaddr(self.spec_data().next_free_slot as int),
                    attributes: DEFAULT_VM_ATTRIBUTES,
                }),
                Err(e) => self.spec_data().free_slots == 0 && e == Error::PageDirectoryFull,
            },
    {
        if self.data().free_slots == 0 {
            return Err(Error::PageDirectoryFull);
        }
        Ok(
            Invocation::PageTableMap {
                page_table: page_table.cptr(),
                vspace: self.cptr(),
                vaddr: page_table_vaddr_of(self.data().next_free_slot),
                attributes: DEFAULT_VM_ATTRIBUTES,
            },
        )
    }

    /// Installs `page_table` in the range of this directory's next free
    /// entry, which it uses up; `status` is the kernel's answer to
    /// `map_page_table_invocation`. On failure the directory is unchanged
    /// and the page table comes back.
    pub fn map_page_table(&mut self, page_table: LocalCap<PageTable<Unmapped>>, status: u32) -> (r:
        Result<LocalCap<PageTable<Mapped>>, (Error, LocalCap<PageTable<Unmapped>>)>)
        requires
            old(self).spec_data().wf(),
        ensures
            final(self).spec_data().wf(),
            r is Ok <==> old(self).spec_data().free_slots > 0 && status == NO_ERROR,
            match r {
                Ok(pt) => {
                    &&& final(self).spec_cptr() == old(self).spec_cptr()
                    &&& final(self).spec_data() == (AssignedPageDirectory {
                        asid: old(self).spec_data().asid,
                        next_free_slot: (old(self).spec_data().next_free_slot + 1) as usize,
                        free_slots: (old(self).spec_data().free_slots - 1) as usize,
                    })
                    &&& pt.spec_cptr() == page_table.spec_cptr()
                    &&& pt.spec_data() == (PageTable {
                        state: Mapped {
                            vaddr: page_table_vaddr(old(self).spec_data().next_free_slot as int),
                            asid: old(self).spec_data().asid,
                        },
                        next_free_slot: page_table.spec_data().next_free_slot,
                        free_slots: page_table.spec_data().free_slots,
                    })
                },
                Err((e, back)) => {
                    &&& *final(self) == *old(self)
                    &&& back == page_table
                    &&& e == if old(self).spec_data().free_slots == 0 {
                        Error::PageDirectoryFull
                    } else {
                        Error::SeL4(SeL4Error::PageTableMap(status_error(status)))
                    }
                },
            },
    {
        let asid = self.data().asid;
        let next = self.data().next_free_slot;
        let free = self.data().free_slots;
        if free == 0 {
            return Err((Error::PageDirectoryFull, page_table));
        }
        match status.as_result() {
            Ok(()) => {},
            Err(e) => return Err((Error::SeL4(SeL4Error::PageTableMap(e)), page_table)),
        }
        let vaddr = page_table_vaddr_of(next);
        let cptr = self.cptr();
        *self = Cap::new(
            cptr,
            AssignedPageDirectory { asid, next_free_slot: next + 1, free_slots: free - 1 },
        );
        let (pt_cptr, pt) = page_table.into_parts();
        Ok(
            Cap::new(
                pt_cptr,
                PageTable {
                    state: Mapped { vaddr, asid },
                    next_free_slot: pt.next_free_slot,
                    free_slots: pt.free_slots,
                },
            ),
        )
    }

    /// The invocation `map_page` needs: read-write, with the default memory
    /// attributes.
    pub fn map_page_invocation(&self, page: &LocalCap<Page<Unmapped>>, virtual_address: usize) -> (r:
        Invocation)
        ensures
            r == (Invocation::PageMap {
                page: page.spec_cptr(),
                vspace: self.spec_cptr(),
                vaddr: virtual_address,
                rights: CapRights { grant: false, read: true, write: true },
                attributes: DEFAULT_VM_ATTRIBUTES,
            }),
    {
        Invocation::PageMap {
            page: page.cptr(),
            vspace: self.cptr(),
            vaddr: virtual_address,
            rights: CapRights::read_write(),
            attributes: DEFAULT_VM_ATTRIBUTES,
        }
    }

    /// Maps `page` at `virtual_address` in this address space; `status` is
    /// the kernel's answer to `map_page_invocation`.
    pub fn map_page(&mut self, page: LocalCap<Page<Unmapped>>, virtual_address: usize, status: u32) -> (r:
        Result<LocalCap<Page<Mapped>>, Error>)
        ensures
            *final(self) == *old(self),
            r is Ok <==> status == NO_ERROR,
            match r {
                Ok(mapped) => mapped.spec_cptr() == page.spec_cptr() && mapped.spec_data()
                    == map_spec(page.spec_data(), virtual_address, old(self).spec_data().asid),
                Err(e) => e == Error::SeL4(SeL4Error::PageMap(status_error(status))),
            },
    {
        let asid = self.data().asid;
        let (cptr, _) = page.into_parts();
        match status.as_result() {
            Ok(()) => Ok(Cap::new(cptr, Page { state: Mapped { vaddr: virtual_address, asid } })),
            Err(e) => Err(Error::SeL4(SeL4Error::PageMap(e))),
        }
    }
}

impl Cap<ASIDPool, crate::cap::Local> {
    /// The invocation `assign` needs: fails with `ASIDPoolExhausted` exactly
    /// when the pool has no id left.
    pub fn assign_invocation(&self, vspace: &LocalCap<UnassignedPageDirectory>) -> (r: Result<
        Invocation,
        Error,
    >)
        ensures
            match r {
                Ok(inv) => self.spec_data().free_slots > 0 && inv == (Invocation::ASIDPoolAssign {
                    asid_pool: self.spec_cptr(),
                    vspace: vspace.spec_cptr(),
                }),
                Err(e) => self.spec_data().free_slots == 0 && e == Error::ASIDPoolExhausted,
            },
    {
        if self.data().free_slots == 0 {
            return Err(Error::ASIDPoolExhausted);
        }
        Ok(Invocation::ASIDPoolAssign { asid_pool: self.cptr(), vspace: vspace.cptr() })
    }

    /// Binds `vspace` to the pool's next address-space id, permanently, and
    /// uses that id up; `status` is the kernel's answer to
    /// `assign_invocation`. The directory starts with all its entries
    /// free. On failure the pool is unchanged and `vspace` comes back.
    pub fn assign(&mut self, vspace: LocalCap<UnassignedPageDirectory>, status: u32) -> (r: Result<
        LocalCap<AssignedPageDirectory>,
        (Error, LocalCap<UnassignedPageDirectory>),
    >)
        requires
            old(self).spec_data().wf(),
        ensures
            final(self).spec_data().wf(),
            r is Ok <==> old(self).spec_data().free_slots > 0 && status == NO_ERROR,
            match r {
                Ok(pd) => {
                    &&& final(self).spec_cptr() == old(self).spec_cptr()
                    &&& final(self).spec_data() == (ASIDPool {
                        base: old(self).spec_data().base,
                        next_free_slot: (old(self).spec_data().next_free_slot + 1) as usize,
                        free_slots: (old(self).spec_data().free_slots - 1) as usize,
                    })
                    &&& pd.spec_cptr() == vspace.spec_cptr()
                    &&& pd.spec_data() == (AssignedPageDirectory {
                        asid: (old(self).spec_data().base + old(self).spec_data().next_free_slot) as usize,
                        next_free_slot: 0,
                        free_slots: PAGE_DIRECTORY_USER_SLOTS,
                    })
                },
                Err((e, back)) => {
                    &&& *final(self) == *old(self)
                    &&& back == vspace
                    &&& e == if old(self).spec_data().free_slots == 0 {
                        Error::ASIDPoolExhausted
                    } else {
                        Error::SeL4(SeL4Error::ASIDPoolAssign(status_error(status)))
                    }
                },
            },
    {
        let base = self.data().base;
        let next = self.data().next_free_slot;
        let free = self.data().free_slots;
        if free == 0 {
            return Err((Error::ASIDPoolExhausted, vspace));
        }
        match status.as_result() {
            Ok(()) => {},
            Err(e) => return Err((Error::SeL4(SeL4Error::ASIDPoolAssign(e)), vspace)),
        }
        let cptr = self.cptr();
        *self = Cap::new(cptr, ASIDPool { base, next_free_slot: next + 1, free_slots: free - 1 });
        let (pd_cptr, _) = vspace.into_parts();
        Ok(
            Cap::new(
                pd_cptr,
                AssignedPageDirectory {
                    asid: base + next,
                    next_free_slot: 0,
                    free_slots: PAGE_DIRECTORY_USER_SLOTS,
                },
            ),
        )
    }
}

/// A page mapped, unmapped and mapped again at another address carries only
/// the last mapping: it is the page a single mapping at the new address
/// gives, and no longer names the first address.
pub proof fn lemma_remap_forgets(
    page: Page<Unmapped>,
    first: usize,
    first_asid: usize,
    second: usize,
    second_asid: usize,
)
    requires
        first != second,
    ensures
        ({
            let remapped = map_spec(
                unmap_spec(map_spec(page, first, first_asid)),
                second,
                second_asid,
            );
            &&& remapped == map_spec(page, second, second_asid)
            &&& remapped.state.vaddr == second && remapped.state.asid == second_asid
            &&& remapped.state.vaddr != first
        }),
{
}

} // verus!
