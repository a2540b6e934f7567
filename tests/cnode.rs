use ferros::cap::{Cap, Endpoint, Local, LocalCap};
use ferros::cnode::{root_cnode, CNode};
use ferros::error::{Error, KernelError, SeL4Error};
use ferros::invocation::{CapRights, Invocation, WORD_BITS};

fn arena(start: usize, count: usize) -> CNode<Local> {
    root_cnode(2, start, start + count)
}

#[test]
fn consume_slot_issues_each_index_once_then_refuses() {
    let n = 8;
    let mut cnode = arena(100, n);
    let mut seen = Vec::new();
    for _ in 0..n {
        let (rest, slot) = cnode.consume_slot().unwrap();
        assert_eq!(slot.cptr(), 2);
        assert!(!seen.contains(&slot.offset()));
        seen.push(slot.offset());
        cnode = rest;
    }
    assert_eq!(seen, (100..108).collect::<Vec<usize>>());
    assert_eq!(cnode.free_slots(), 0);
    let (e, back) = cnode.consume_slot().unwrap_err();
    assert_eq!(e, Error::SlotsExhausted);
    assert_eq!((back.next_free_slot(), back.free_slots()), (108, 0));
}

#[test]
fn empty_arena_refuses_at_once() {
    assert_eq!(arena(5, 0).consume_slot().unwrap_err().0, Error::SlotsExhausted);
}

#[test]
fn root_cnode_covers_the_empty_region() {
    let root = root_cnode(2, 1000, 5000);
    assert_eq!(root.radix(), 19);
    assert_eq!(root.cptr(), 2);
    assert_eq!(root.next_free_slot(), 1000);
    assert_eq!(root.free_slots(), 4000);
}

#[test]
fn reserve_region_partitions_the_arena() {
    let (region, rest) = arena(10, 20).reserve_region(5).unwrap();
    assert_eq!((region.next_free_slot(), region.free_slots()), (10, 5));
    assert_eq!((rest.next_free_slot(), rest.free_slots()), (15, 15));
    assert_eq!(region.cptr(), rest.cptr());
}

#[test]
fn reserve_region_of_everything_leaves_nothing() {
    let (region, rest) = arena(10, 20).reserve_region(20).unwrap();
    assert_eq!(region.free_slots(), 20);
    assert_eq!(rest.free_slots(), 0);
}

#[test]
fn reserve_region_beyond_capacity_fails() {
    let (e, back) = arena(10, 20).reserve_region(21).unwrap_err();
    assert_eq!(e, Error::SlotsExhausted);
    assert_eq!((back.next_free_slot(), back.free_slots()), (10, 20));
}

#[test]
fn reservation_iter_hands_out_single_slots() {
    let (singles, rest) = arena(40, 10).reservation_iter(3).unwrap();
    let starts: Vec<(usize, usize)> =
        singles.iter().map(|c| (c.next_free_slot(), c.free_slots())).collect();
    assert_eq!(starts, vec![(40, 1), (41, 1), (42, 1)]);
    assert_eq!((rest.next_free_slot(), rest.free_slots()), (43, 7));
    let (e, back) = arena(40, 2).reservation_iter(3).unwrap_err();
    assert_eq!(e, Error::SlotsExhausted);
    assert_eq!((back.next_free_slot(), back.free_slots()), (40, 2));
}

#[test]
fn copy_local_uses_one_destination_slot() {
    let src = arena(0, 0);
    let ep: LocalCap<Endpoint> = Cap::wrap_cptr(77);
    let dest = arena(300, 2);
    let rights = CapRights { grant: false, read: true, write: false };
    assert_eq!(
        ep.copy_local_invocation(&src, &dest, rights).unwrap(),
        Invocation::CNodeCopy {
            dest_root: 2,
            dest_index: 300,
            dest_depth: WORD_BITS,
            src_root: 2,
            src_index: 77,
            src_depth: WORD_BITS,
            rights,
        }
    );
    let (copy, rest) = ep.copy_local(&src, dest, rights, 0).unwrap();
    assert_eq!(copy.cptr(), 300);
    assert_eq!(ep.cptr(), 77);
    assert_eq!((rest.next_free_slot(), rest.free_slots()), (301, 1));
}

#[test]
fn copy_local_reports_kernel_and_capacity_errors() {
    let src = arena(0, 0);
    let ep: LocalCap<Endpoint> = Cap::wrap_cptr(77);
    let rights = CapRights { grant: false, read: true, write: true };
    let (e, back) = ep.copy_local(&src, arena(300, 1), rights, 8).unwrap_err();
    assert_eq!(e, Error::SeL4(SeL4Error::CNodeCopy(KernelError::DeleteFirst)));
    assert_eq!((back.next_free_slot(), back.free_slots()), (300, 1));
    assert_eq!(
        ep.copy_local_invocation(&src, &arena(300, 0), rights).unwrap_err(),
        Error::SlotsExhausted
    );
    assert_eq!(ep.copy_local(&src, arena(300, 0), rights, 0).unwrap_err().0, Error::SlotsExhausted);
}
