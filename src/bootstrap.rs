//! What the initial thread receives from the kernel at boot, wrapped into
//! capabilities of this library.
use vstd::prelude::*;

use crate::cap::{ASIDControl, Cap, Local, LocalCap, ThreadControlBlock};
use crate::cnode::CNode;
use crate::error::{status_error, Error, SeL4Error};
use crate::invocation::Invocation;
use crate::irq::{root_irq_control, IRQControl, MAX_IRQ_COUNT};
use crate::untyped::{retype_succeeds, Untyped, ASID_POOL_UNTYPED_BITS};
use crate::vspace::{
    ASIDPool, AssignedPageDirectory, Mapped, Page, PageTable, Unmapped, UnassignedPageDirectory,
    page_table_vaddr, ASID_POOL_SIZE, INIT_THREAD_ASID, PAGE_BYTES, PAGE_DIRECTORY_USER_SLOTS,
    PAGE_TABLE_TOTAL_BITS,
};

verus! {

/// Slot of the initial thread's own thread control block.
pub const INIT_THREAD_TCB: usize = 1;

/// Slot of the initial thread's own capability table.
pub const INIT_THREAD_CNODE: usize = 2;

/// Slot of the initial thread's own address space root.
pub const INIT_THREAD_VSPACE: usize = 3;

/// Slot of the interrupt-control capability.
pub const IRQ_CONTROL: usize = 4;

/// Slot of the authority to make address-space-id pools.
pub const ASID_CONTROL: usize = 5;

/// Where the user image starts in the initial thread's address space.
pub const PROGRAM_START: usize = 0x1_0000;

/// Page-directory entries of the user image's code: 64 page tables, 64 MiB.
pub const CODE_PAGE_TABLE_COUNT: usize = 64;

/// Most page tables of the user image that are handed out.
pub const USER_IMAGE_PAGE_TABLE_LIMIT: usize = 100;

/// A range of slots of the initial thread's capability table.
#[derive(Debug, Clone, Copy, PartialEq, Eq, Structural)]
pub struct SlotRegion {
    pub start: usize,
    pub end: usize,
}

/// The parts of the kernel's boot information this library reads.
#[derive(Debug, Clone, Copy, PartialEq, Eq, Structural)]
pub struct KernelBootInfo {
    /// Slots of the initial table that are empty.
    pub empty: SlotRegion,
    /// Slots holding the frames of the user image, in address order.
    pub user_image_frames: SlotRegion,
    /// Slots holding the page tables of the user image, in address order.
    pub user_image_paging: SlotRegion,
}

/// The initial thread's own resources.
pub struct BootInfo {
    pub page_directory: LocalCap<AssignedPageDirectory>,
    pub tcb: LocalCap<ThreadControlBlock>,
    pub asid_pool: LocalCap<ASIDPool>,
    pub irq_control: LocalCap<IRQControl>,
    pub user_image_frames_start: usize,
    pub user_image_frames_end: usize,
    pub user_image_paging_start: usize,
    pub user_image_paging_end: usize,
}

/// Number of slots in `start .. end`; none when `end` comes first.
pub open spec fn region_len(start: usize, end: usize) -> nat {
    if start <= end {
        (end - start) as nat
    } else {
        0
    }
}

/// Number of page addresses from `PROGRAM_START` on that lie below the
/// largest word.
pub open spec fn page_address_count() -> nat {
    ((usize::MAX - 1 - PROGRAM_START) / (PAGE_BYTES as int) + 1) as nat
}

fn count_in(start: usize, end: usize) -> (r: usize)
    ensures
        r == region_len(start, end),
{
    if start <= end {
        end - start
    } else {
        0
    }
}

impl BootInfo {
    pub open spec fn spec_frames(&self) -> (usize, usize) {
        (self.user_image_frames_start, self.user_image_frames_end)
    }

    pub open spec fn spec_paging(&self) -> (usize, usize) {
        (self.user_image_paging_start, self.user_image_paging_end)
    }

    /// The page directory's entries lie below the kernel's part, the pool's
    /// ids fit a word, and the interrupt table has a flag per line.
    pub open spec fn wf(&self) -> bool {
        &&& self.page_directory.spec_data().wf()
        &&& self.asid_pool.spec_data().wf()
        &&& self.irq_control.spec_data().wf()
    }

    /// The invocation `wrap` needs: making the address-space-id pool.
    pub fn wrap_invocation(asid_pool_ut: &LocalCap<Untyped>, dest_cnode: &CNode<Local>) -> (r: Result<
        Invocation,
        Error,
    >)
        ensures
            match r {
                Ok(inv) => dest_cnode.spec_free_slots() >= 1 && inv == (
                Invocation::ASIDControlMakePool {
                    asid_control: ASID_CONTROL,
                    untyped: asid_pool_ut.spec_cptr(),
                    root: dest_cnode.spec_cptr(),
                    index: dest_cnode.spec_next_free_slot(),
                    depth: crate::invocation::WORD_BITS,
                }),
                Err(e) => dest_cnode.spec_free_slots() < 1 && e == Error::SlotsExhausted,
            },
    {
        let asid_control: LocalCap<ASIDControl> = Cap::wrap_cptr(ASID_CONTROL);
        asid_pool_ut.retype_asid_pool_invocation(&asid_control, dest_cnode)
    }

    /// Wraps the initial thread's resources, making its address-space-id
    /// pool from `asid_pool_ut` into the next slot of `dest_cnode`; `status`
    /// is the kernel's answer to `wrap_invocation`. The page-directory
    /// entries of the user image's code and of its `stack_page_tables` stack
    /// page tables are taken; the rest are free. On failure the untyped
    /// capability and the arena come back unchanged.
    pub fn wrap(
        bootinfo: &KernelBootInfo,
        asid_pool_ut: LocalCap<Untyped>,
        dest_cnode: CNode<Local>,
        stack_page_tables: usize,
        status: u32,
    ) -> (r: Result<(BootInfo, CNode<Local>), (Error, LocalCap<Untyped>, CNode<Local>)>)
        requires
            asid_pool_ut.spec_data().size_bits == ASID_POOL_UNTYPED_BITS,
            dest_cnode.wf(),
            CODE_PAGE_TABLE_COUNT + stack_page_tables <= PAGE_DIRECTORY_USER_SLOTS,
        ensures
            r is Ok <==> retype_succeeds(dest_cnode, 1, status),
            match r {
                Ok((info, rest)) => {
                    &&& info.wf()
                    &&& info.page_directory.spec_cptr() == INIT_THREAD_VSPACE
                    &&& info.page_directory.spec_data() == (AssignedPageDirectory {
                        asid: INIT_THREAD_ASID,
                        next_free_slot: (CODE_PAGE_TABLE_COUNT + stack_page_tables) as usize,
                        free_slots: (PAGE_DIRECTORY_USER_SLOTS - CODE_PAGE_TABLE_COUNT
                            - stack_page_tables) as usize,
                    })
                    &&& info.tcb.spec_cptr() == INIT_THREAD_TCB
                    &&& info.asid_pool.spec_cptr() == dest_cnode.spec_next_free_slot()
                    &&& info.asid_pool.spec_data() == (ASIDPool {
                        base: ASID_POOL_SIZE,
                        next_free_slot: 0,
                        free_slots: ASID_POOL_SIZE,
                    })
                    &&& info.irq_control.spec_cptr() == IRQ_CONTROL
                    &&& forall|i: int|
                        0 <= i < MAX_IRQ_COUNT ==> #[trigger] info.irq_control.spec_data().spec_available()[i]
                    &&& info.spec_frames() == (
                        bootinfo.user_image_frames.start,
                        bootinfo.user_image_frames.end,
                    )
                    &&& info.spec_paging() == (
                        bootinfo.user_image_paging.start,
                        bootinfo.user_image_paging.end,
                    )
                    &&& rest == dest_cnode.advanced(1) && rest.wf()
                },
                Err((e, ut, back)) => {
                    &&& ut == asid_pool_ut && back == dest_cnode
                    &&& e == if dest_cnode.spec_free_slots() < 1 {
                        Error::SlotsExhausted
                    } else {
                        Error::SeL4(SeL4Error::ASIDControlMakePool(status_error(status)))
                    }
                },
            },
    {
        let asid_control: LocalCap<ASIDControl> = Cap::wrap_cptr(ASID_CONTROL);
        let (asid_pool, dest_cnode) = match asid_pool_ut.retype_asid_pool(
            asid_control,
            dest_cnode,
            status,
        ) {
            Ok(p) => p,
            Err((e, ut, _, back)) => return Err((e, ut, back)),
        };
        let reserved = CODE_PAGE_TABLE_COUNT + stack_page_tables;
        let root = AssignedPageDirectory {
            asid: INIT_THREAD_ASID,
            next_free_slot: reserved,
            free_slots: PAGE_DIRECTORY_USER_SLOTS - reserved,
        };
        let info = BootInfo {
            page_directory: Cap::new(INIT_THREAD_VSPACE, root),
            tcb: Cap::wrap_cptr(INIT_THREAD_TCB),
            asid_pool,
            irq_control: root_irq_control(IRQ_CONTROL),
            user_image_frames_start: bootinfo.user_image_frames.start,
            user_image_frames_end: bootinfo.user_image_frames.end,
            user_image_paging_start: bootinfo.user_image_paging.start,
            user_image_paging_end: bootinfo.user_image_paging.end,
        };
        Ok((info, dest_cnode))
    }

    /// The page tables of the user image, already mapped: the `i`-th slot of
    /// the paging region covers the `i`-th megabyte. Their entries are all
    /// taken by the image, so none is free. At most the first 100 are handed
    /// out.
    pub fn user_image_page_tables_iter(&self) -> (r: Vec<LocalCap<PageTable<Mapped>>>)
        ensures
            r@.len() == if region_len(self.spec_paging().0, self.spec_paging().1)
                < USER_IMAGE_PAGE_TABLE_LIMIT {
                region_len(self.spec_paging().0, self.spec_paging().1)
            } else {
                USER_IMAGE_PAGE_TABLE_LIMIT as nat
            },
            forall|i: int|
                0 <= i < r@.len() ==> {
                    &&& (#[trigger] r@[i]).spec_cptr() == self.spec_paging().0 + i
                    &&& r@[i].spec_data().state == (Mapped {
                        vaddr: (i * 0x10_0000) as usize,
                        asid: self.page_directory.spec_data().asid,
                    })
                    &&& r@[i].spec_data().next_free_slot == 0
                    &&& r@[i].spec_data().free_slots == 0
                },
    {
        let available = count_in(self.user_image_paging_start, self.user_image_paging_end);
        let n = if available < USER_IMAGE_PAGE_TABLE_LIMIT {
            available
        } else {
            USER_IMAGE_PAGE_TABLE_LIMIT
        };
        let asid = self.page_directory.data().asid;
        let mut tables: Vec<LocalCap<PageTable<Mapped>>> = Vec::new();
        let mut i: usize = 0;
        while i < n
            invariant
                n <= USER_IMAGE_PAGE_TABLE_LIMIT,
                n <= region_len(self.spec_paging().0, self.spec_paging().1),
                self.user_image_paging_start == self.spec_paging().0,
                asid == self.page_directory.spec_data().asid,
                i <= n,
                tables@.len() == i,
                forall|j: int|
                    0 <= j < i ==> {
                        &&& (#[trigger] tables@[j]).spec_cptr() == self.spec_paging().0 + j
                        &&& tables@[j].spec_data().state == (Mapped {
                            vaddr: (j * 0x10_0000) as usize,
                            asid,
                        })
                        &&& tables@[j].spec_data().next_free_slot == 0
                        &&& tables@[j].spec_data().free_slots == 0
                    },
            decreases n - i,
        {
            let vaddr = i << PAGE_TABLE_TOTAL_BITS;
            assert(i << 20 == i * 0x10_0000) by (bit_vector)
                requires
                    i < 100,
            ;
            tables.push(
                Cap::new(
                    self.user_image_paging_start + i,
                    PageTable { state: Mapped { vaddr, asid }, next_free_slot: 0, free_slots: 0 },
                ),
            );
            i = i + 1;
        }
        tables
    }

    /// The frames of the user image, already mapped: the `i`-th slot of the
    /// frame region holds the page at `PROGRAM_START + i * 4096`, for as many
    /// pages as there are slots and addresses below the largest word.
    pub fn user_image_pages_iter(&self) -> (r: Vec<LocalCap<Page<Mapped>>>)
        ensures
            r@.len() == if region_len(self.spec_frames().0, self.spec_frames().1)
                < page_address_count() {
                region_len(self.spec_frames().0, self.spec_frames().1)
            } else {
                page_address_count()
            },
            forall|i: int|
                0 <= i < r@.len() ==> {
                    &&& (#[trigger] r@[i]).spec_cptr() == self.spec_frames().0 + i
                    &&& r@[i].spec_data().state == (Mapped {
                        vaddr: (PROGRAM_START + i * PAGE_BYTES) as usize,
                        asid: self.page_directory.spec_data().asid,
                    })
                },
    {
        let available = count_in(self.user_image_frames_start, self.user_image_frames_end);
        let addresses = (usize::MAX - 1 - PROGRAM_START) / PAGE_BYTES + 1;
        let n = if available < addresses {
            available
        } else {
            addresses
        };
        let asid = self.page_directory.data().asid;
        let mut pages: Vec<LocalCap<Page<Mapped>>> = Vec::new();
        let mut i: usize = 0;
        while i < n
            invariant
                n <= page_address_count(),
                n <= region_len(self.spec_frames().0, self.spec_frames().1),
                self.user_image_frames_start == self.spec_frames().0,
                asid == self.page_directory.spec_data().asid,
                i <= n,
                pages@.len() == i,
                forall|j: int|
                    0 <= j < i ==> {
                        &&& (#[trigger] pages@[j]).spec_cptr() == self.spec_frames().0 + j
                        &&& pages@[j].spec_data().state == (Mapped {
                            vaddr: (PROGRAM_START + j * PAGE_BYTES) as usize,
                            asid,
                        })
                    },
            decreases n - i,
        {
            assert(PROGRAM_START + i * PAGE_BYTES <= usize::MAX - 1) by (nonlinear_arith)
                requires
                    i < n,
                    n <= (usize::MAX - 1 - PROGRAM_START) / (PAGE_BYTES as int) + 1,
            ;
            let vaddr = PROGRAM_START + i * PAGE_BYTES;
            pages.push(
                Cap::new(self.user_image_frames_start + i, Page { state: Mapped { vaddr, asid } }),
            );
            i = i + 1;
        }
        pages
    }

    /// Installs a page table in the initial thread's address space, in the
    /// range of the page directory's next free entry; `status` is the
    /// kernel's answer to the page directory's `map_page_table_invocation`.
    /// On failure nothing changes and the page table comes back.
    pub fn map_page_table(&mut self, unmapped_page_table: LocalCap<PageTable<Unmapped>>, status: u32) -> (r:
        Result<LocalCap<PageTable<Mapped>>, (Error, LocalCap<PageTable<Unmapped>>)>)
        requires
            old(self).wf(),
        ensures
            final(self).wf(),
            final(self).tcb == old(self).tcb,
            final(self).asid_pool == old(self).asid_pool,
            final(self).irq_control == old(self).irq_control,
            final(self).spec_frames() == old(self).spec_frames(),
            final(self).spec_paging() == old(self).spec_paging(),
            r is Ok <==> old(self).page_directory.spec_data().free_slots > 0 && status
                == crate::error::NO_ERROR,
            match r {
                Ok(pt) => {
                    &&& final(self).page_directory.spec_cptr() == old(self).page_directory.spec_cptr()
                    &&& final(self).page_directory.spec_data() == (AssignedPageDirectory {
                        asid: old(self).page_directory.spec_data().asid,
                        next_free_slot: (old(self).page_directory.spec_data().next_free_slot
                            + 1) as usize,
                        free_slots: (old(self).page_directory.spec_data().free_slots - 1) as usize,
                    })
                    &&& pt.spec_cptr() == unmapped_page_table.spec_cptr()
                    &&& pt.spec_data() == (PageTable {
                        state: Mapped {
                            vaddr: page_table_vaddr(
                                old(self).page_directory.spec_data().next_free_slot as int,
                            ),
                            asid: old(self).page_directory.spec_data().asid,
                        },
                        next_free_slot: unmapped_page_table.spec_data().next_free_slot,
                        free_slots: unmapped_page_table.spec_data().free_slots,
                    })
                },
                Err((e, back)) => {
                    &&& final(self).page_directory == old(self).page_directory
                    &&& back == unmapped_page_table
                    &&& e == if old(self).page_directory.spec_data().free_slots == 0 {
                        Error::PageDirectoryFull
                    } else {
                        Error::SeL4(SeL4Error::PageTableMap(status_error(status)))
                    }
                },
            },
    {
        self.page_directory.map_page_table(unmapped_page_table, status)
    }

    /// Binds a page directory to the next id of the component's pool;
    /// `status` is the kernel's answer to the pool's `assign_invocation`.
    /// On failure nothing changes and the page directory comes back.
    pub fn assign_minimal_page_dir(
        &mut self,
        page_dir: LocalCap<UnassignedPageDirectory>,
        status: u32,
    ) -> (r: Result<LocalCap<AssignedPageDirectory>, (Error, LocalCap<UnassignedPageDirectory>)>)
        requires
            old(self).wf(),
        ensures
            final(self).wf(),
            final(self).page_directory == old(self).page_directory,
            final(self).tcb == old(self).tcb,
            final(self).irq_control == old(self).irq_control,
            final(self).spec_frames() == old(self).spec_frames(),
            final(self).spec_paging() == old(self).spec_paging(),
            r is Ok <==> old(self).asid_pool.spec_data().free_slots > 0 && status
                == crate::error::NO_ERROR,
            match r {
                Ok(pd) => {
                    &&& final(self).asid_pool.spec_cptr() == old(self).asid_pool.spec_cptr()
                    &&& final(self).asid_pool.spec_data() == (ASIDPool {
                        base: old(self).asid_pool.spec_data().base,
                        next_free_slot: (old(self).asid_pool.spec_data().next_free_slot + 1) as usize,
                        free_slots: (old(self).asid_pool.spec_data().free_slots - 1) as usize,
                    })
                    &&& pd.spec_cptr() == page_dir.spec_cptr()
                    &&& pd.spec_data() == (AssignedPageDirectory {
                        asid: (old(self).asid_pool.spec_data().base
                            + old(self).asid_pool.spec_data().next_free_slot) as usize,
                        next_free_slot: 0,
                        free_slots: PAGE_DIRECTORY_USER_SLOTS,
                    })
                },
                Err((e, back)) => {
                    &&& final(self).asid_pool == old(self).asid_pool
                    &&& back == page_dir
                    &&& e == if old(self).asid_pool.spec_data().free_slots == 0 {
                        Error::ASIDPoolExhausted
                    } else {
                        Error::SeL4(SeL4Error::ASIDPoolAssign(status_error(status)))
                    }
                },
            },
    {
        self.asid_pool.assign(page_dir, status)
    }
}

} // verus!
