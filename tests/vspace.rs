use ferros::bootstrap::{BootInfo, KernelBootInfo, SlotRegion};
use ferros::cap::{Local, LocalCap};
use ferros::cnode::{root_cnode, CNode};
use ferros::error::{Error, KernelError, SeL4Error};
use ferros::invocation::{CapRights, Invocation, DEFAULT_VM_ATTRIBUTES};
use ferros::untyped::{wrap_untyped, Untyped, UntypedDesc};
use ferros::vspace::{
    AssignedPageDirectory, MappingError, Page, PageTable, UnassignedPageDirectory, Unmapped,
    ASID_POOL_SIZE, INIT_THREAD_ASID, PAGE_DIRECTORY_USER_SLOTS, PAGE_TABLE_SLOTS,
};

fn arena(start: usize, count: usize) -> CNode<Local> {
    root_cnode(2, start, start + count)
}

fn untyped(cptr: usize, size_bits: u8) -> LocalCap<Untyped> {
    wrap_untyped(cptr, &UntypedDesc { paddr: 0, size_bits, is_device: false }, size_bits).unwrap()
}

fn boot() -> BootInfo {
    let regions = KernelBootInfo {
        empty: SlotRegion { start: 100, end: 200 },
        user_image_frames: SlotRegion { start: 20, end: 30 },
        user_image_paging: SlotRegion { start: 30, end: 32 },
    };
    match BootInfo::wrap(&regions, untyped(9, 12), arena(100, 1), 1, 0) {
        Ok((info, _)) => info,
        Err(e) => panic!("wrap failed: {:?}", e),
    }
}

fn page(cptr: usize) -> LocalCap<Page<Unmapped>> {
    untyped(cptr, 12).retype_local(arena(cptr, 1), 0).unwrap().0
}

fn mapped_table(info: &mut BootInfo, cptr: usize) -> LocalCap<PageTable<ferros::vspace::Mapped>> {
    let (pt, _) = untyped(cptr, 10).retype_local::<PageTable<Unmapped>>(arena(cptr, 1), 0).unwrap();
    info.map_page_table(pt, 0).unwrap()
}

#[test]
fn map_granule_rejects_misaligned_address_without_invocation() {
    let mut info = boot();
    let mut pt = mapped_table(&mut info, 700);
    let pg = page(701);
    let rights = CapRights::read_write();
    let addr = 0x4000_0000 + 123;
    assert_eq!(
        pt.map_granule_invocation(&pg, addr, &info.page_directory, rights, DEFAULT_VM_ATTRIBUTES)
            .unwrap_err(),
        MappingError::AddrNotPageAligned
    );
    match pt.map_granule(pg, addr, &mut info.page_directory, rights, DEFAULT_VM_ATTRIBUTES, 0) {
        Err((e, back)) => {
            assert_eq!(e, MappingError::AddrNotPageAligned);
            assert_eq!(back.cptr(), 701);
        }
        Ok(_) => panic!("misaligned mapping succeeded"),
    }
}

#[test]
fn map_granule_turns_failed_lookup_into_overflow() {
    let mut info = boot();
    let mut pt = mapped_table(&mut info, 700);
    let rights = CapRights::read_write();
    let r = pt.map_granule(page(701), 0x5000_0000, &mut info.page_directory, rights, 3, 6);
    match r {
        Err((e, _)) => assert_eq!(e, MappingError::Overflow),
        Ok(_) => panic!("expected overflow"),
    }
    let r = pt.map_granule(page(702), 0x5000_0000, &mut info.page_directory, rights, 3, 2);
    match r {
        Err((e, _)) => assert_eq!(
            e,
            MappingError::PageMapFailure(SeL4Error::PageMap(KernelError::InvalidCapability))
        ),
        Ok(_) => panic!("expected failure"),
    }
}

#[test]
fn map_granule_records_the_mapping() {
    let mut info = boot();
    let mut pt = mapped_table(&mut info, 700);
    let pg = page(701);
    let rights = CapRights::read_write();
    assert_eq!(
        pt.map_granule_invocation(&pg, 0x4000_1000, &info.page_directory, rights, 3).unwrap(),
        Invocation::PageMap { page: 701, vspace: 3, vaddr: 0x4000_1000, rights, attributes: 3 }
    );
    let mapped = pt.map_granule(pg, 0x4000_1000, &mut info.page_directory, rights, 3, 0).unwrap();
    assert_eq!(mapped.vaddr(), 0x4000_1000);
    assert_eq!(mapped.asid(), INIT_THREAD_ASID);
    assert_eq!(mapped.cptr(), 701);
}

#[test]
fn remapping_keeps_only_the_new_address() {
    let mut info = boot();
    let first = info.page_directory.map_page(page(800), 0x1_0000, 0).unwrap();
    assert_eq!(first.vaddr(), 0x1_0000);
    assert_eq!(first.unmap_invocation(), Invocation::PageUnmap { page: 800 });
    let unmapped = first.unmap(0).unwrap();
    let second = info.page_directory.map_page(unmapped, 0x2_0000, 0).unwrap();
    assert_eq!(second.vaddr(), 0x2_0000);
    assert_ne!(second.vaddr(), 0x1_0000);
    assert_eq!(second.cptr(), 800);
}

#[test]
fn unmap_failure_is_reported() {
    let mut info = boot();
    let mapped = info.page_directory.map_page(page(800), 0x1_0000, 0).unwrap();
    assert_eq!(mapped.unmap(2).unwrap_err(), SeL4Error::PageUnmap(KernelError::InvalidCapability));
}

#[test]
fn map_page_uses_read_write_and_default_attributes() {
    let info = boot();
    let pg = page(801);
    assert_eq!(
        info.page_directory.map_page_invocation(&pg, 0x3000),
        Invocation::PageMap {
            page: 801,
            vspace: 3,
            vaddr: 0x3000,
            rights: CapRights { grant: false, read: true, write: true },
            attributes: DEFAULT_VM_ATTRIBUTES,
        }
    );
    let mut info = info;
    assert_eq!(
        info.page_directory.map_page(pg, 0x3000, 5).unwrap_err(),
        Error::SeL4(SeL4Error::PageMap(KernelError::AlignmentError))
    );
}

#[test]
fn page_table_map_and_unmap() {
    let mut info = boot();
    let (pt, _) = untyped(900, 10).retype_local::<PageTable<Unmapped>>(arena(900, 1), 0).unwrap();
    assert_eq!((pt.data().next_free_slot, pt.data().free_slots), (0, PAGE_TABLE_SLOTS));
    let next = info.page_directory.data().next_free_slot;
    assert_eq!(next, 65);
    assert_eq!(
        info.page_directory.map_page_table_invocation(&pt).unwrap(),
        Invocation::PageTableMap { page_table: 900, vspace: 3, vaddr: 65 << 20, attributes: 3 }
    );
    let mapped = info.map_page_table(pt, 0).unwrap();
    assert_eq!(mapped.data().state.vaddr, 65 << 20);
    assert_eq!(mapped.data().free_slots, PAGE_TABLE_SLOTS);
    assert_eq!(info.page_directory.data().next_free_slot, 66);
    assert_eq!(info.page_directory.data().free_slots, PAGE_DIRECTORY_USER_SLOTS - 66);
    assert_eq!(mapped.unmap_invocation(), Invocation::PageTableUnmap { page_table: 900 });
    let unmapped = mapped.unmap(0).unwrap();
    assert_eq!(unmapped.cptr(), 900);
    let (pt2, _) = untyped(901, 10).retype_local::<PageTable<Unmapped>>(arena(901, 1), 0).unwrap();
    let (e, back) = info.map_page_table(pt2, 6).unwrap_err();
    assert_eq!(e, Error::SeL4(SeL4Error::PageTableMap(KernelError::FailedLookup)));
    assert_eq!(back.cptr(), 901);
    assert_eq!(info.page_directory.data().next_free_slot, 66);
}

#[test]
fn full_page_directory_refuses_before_the_kernel() {
    let mut pool_owner = boot();
    let (pd, _) =
        untyped(1000, 14).retype_local::<UnassignedPageDirectory>(arena(1000, 1), 0).unwrap();
    let mut pd = pool_owner.asid_pool.assign(pd, 0).unwrap();
    assert_eq!(pd.data().free_slots, PAGE_DIRECTORY_USER_SLOTS);
    for i in 0..PAGE_DIRECTORY_USER_SLOTS {
        let (pt, _) =
            untyped(2000 + i, 10).retype_local::<PageTable<Unmapped>>(arena(1, 1), 0).unwrap();
        let mapped = pd.map_page_table(pt, 0).unwrap();
        assert_eq!(mapped.data().state.vaddr, i << 20);
    }
    let (pt, _) = untyped(9, 10).retype_local::<PageTable<Unmapped>>(arena(9999, 1), 0).unwrap();
    assert_eq!(pd.map_page_table_invocation(&pt).unwrap_err(), Error::PageDirectoryFull);
    let (e, back) = pd.map_page_table(pt, 0).unwrap_err();
    assert_eq!(e, Error::PageDirectoryFull);
    assert_eq!(back.cptr(), 9999);
}

#[test]
fn assign_hands_out_each_id_once() {
    let mut info = boot();
    let mut asids = Vec::new();
    for i in 0..3 {
        let (pd, _) = untyped(1000 + i, 14)
            .retype_local::<UnassignedPageDirectory>(arena(1000 + i, 1), 0)
            .unwrap();
        assert_eq!(
            info.asid_pool.assign_invocation(&pd).unwrap(),
            Invocation::ASIDPoolAssign { asid_pool: 100, vspace: 1000 + i }
        );
        let assigned: LocalCap<AssignedPageDirectory> =
            info.assign_minimal_page_dir(pd, 0).unwrap();
        asids.push(assigned.data().asid);
    }
    assert_eq!(asids, vec![ASID_POOL_SIZE, ASID_POOL_SIZE + 1, ASID_POOL_SIZE + 2]);
    assert_eq!(info.asid_pool.data().base, ASID_POOL_SIZE);
    assert_eq!(info.asid_pool.data().next_free_slot, 3);
    assert_eq!(info.asid_pool.data().free_slots, ASID_POOL_SIZE - 3);
}

#[test]
fn assign_reports_kernel_error() {
    let mut info = boot();
    let (pd, _) =
        untyped(1000, 14).retype_local::<UnassignedPageDirectory>(arena(1000, 1), 0).unwrap();
    let (e, back) = info.asid_pool.assign(pd, 3).unwrap_err();
    assert_eq!(e, Error::SeL4(SeL4Error::ASIDPoolAssign(KernelError::IllegalOperation)));
    assert_eq!(back.cptr(), 1000);
    assert_eq!(info.asid_pool.data().next_free_slot, 0);
    assert_eq!(info.asid_pool.data().free_slots, ASID_POOL_SIZE);
}

#[test]
fn exhausted_pool_refuses_before_the_kernel() {
    let mut info = boot();
    for i in 0..ASID_POOL_SIZE {
        let (pd, _) =
            untyped(5000 + i, 14).retype_local::<UnassignedPageDirectory>(arena(1, 1), 0).unwrap();
        info.asid_pool.assign(pd, 0).unwrap();
    }
    let (pd, _) =
        untyped(9999, 14).retype_local::<UnassignedPageDirectory>(arena(1, 1), 0).unwrap();
    assert_eq!(info.asid_pool.assign_invocation(&pd).unwrap_err(), Error::ASIDPoolExhausted);
    assert_eq!(info.asid_pool.assign(pd, 0).unwrap_err().0, Error::ASIDPoolExhausted);
}
