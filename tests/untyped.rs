use ferros::cap::{Endpoint, LocalCap, ObjectType};
use ferros::cap::Local;
use ferros::cnode::{root_cnode, CNode};
use ferros::error::{Error, KernelError, SeL4Error};
use ferros::invocation::Invocation;
use ferros::untyped::{wrap_untyped, Untyped, UntypedDesc};

fn arena(start: usize, count: usize) -> CNode<Local> {
    root_cnode(2, start, start + count)
}

fn untyped(cptr: usize, paddr: usize, size_bits: u8) -> LocalCap<Untyped> {
    wrap_untyped(cptr, &UntypedDesc { paddr, size_bits, is_device: false }, size_bits).unwrap()
}

#[test]
fn wrap_untyped_checks_the_size() {
    let desc = UntypedDesc { paddr: 0x8000_0000, size_bits: 20, is_device: false };
    assert!(wrap_untyped(9, &desc, 20).is_some());
    assert!(wrap_untyped(9, &desc, 12).is_none());
    let too_high = UntypedDesc { paddr: 0xFFFF_F000, size_bits: 20, is_device: false };
    assert!(wrap_untyped(9, &too_high, 20).is_none());
}

#[test]
fn split_halves_are_disjoint_contiguous_and_sum_to_the_whole() {
    let ut = untyped(9, 0x4000_0000, 16);
    let dest = arena(500, 4);
    assert_eq!(
        ut.split_invocation(&dest).unwrap(),
        Invocation::UntypedRetype {
            untyped: 9,
            object_type: ObjectType::Untyped,
            size_bits: 15,
            root: 2,
            index: 0,
            depth: 0,
            offset: 500,
            num_objects: 1,
        }
    );
    let (kept, carved, rest) = ut.split(dest, 0).unwrap();
    assert_eq!(kept.cptr(), 9);
    assert_eq!(carved.cptr(), 500);
    assert_eq!(*carved.data(), Untyped { paddr: 0x4000_0000, size_bits: 15 });
    assert_eq!(*kept.data(), Untyped { paddr: 0x4000_8000, size_bits: 15 });
    let size = |u: &Untyped| 1usize << u.size_bits;
    assert_eq!(carved.data().paddr + size(carved.data()), kept.data().paddr);
    assert_eq!(size(kept.data()) + size(carved.data()), 1 << 16);
    assert_eq!((rest.next_free_slot(), rest.free_slots()), (501, 3));
}

#[test]
fn split_without_a_free_slot_fails_before_the_kernel() {
    let ut = untyped(9, 0, 12);
    assert_eq!(ut.split_invocation(&arena(1, 0)).unwrap_err(), Error::SlotsExhausted);
    let (e, back_ut, back) = ut.split(arena(1, 0), 0).unwrap_err();
    assert_eq!(e, Error::SlotsExhausted);
    assert_eq!((back_ut.cptr(), back.free_slots()), (9, 0));
}

#[test]
fn split_reports_the_kernel_error() {
    let ut = untyped(9, 0, 12);
    let (e, back_ut, back) = ut.split(arena(1, 1), 10).unwrap_err();
    assert_eq!(e, Error::SeL4(SeL4Error::UntypedRetype(KernelError::NotEnoughMemory)));
    assert_eq!(*back_ut.data(), Untyped { paddr: 0, size_bits: 12 });
    assert_eq!((back.next_free_slot(), back.free_slots()), (1, 1));
}

#[test]
fn quarter_gives_four_adjacent_quarters() {
    let ut = untyped(9, 0x1000_0000, 14);
    let dest = arena(200, 3);
    match ut.quarter_invocation(&dest).unwrap() {
        Invocation::UntypedRetype { size_bits, offset, num_objects, .. } => {
            assert_eq!((size_bits, offset, num_objects), (12, 200, 3))
        }
        other => panic!("unexpected {:?}", other),
    }
    let (kept, a, b, c, rest) = ut.quarter(dest, 0).unwrap();
    let addrs: Vec<usize> = [&a, &b, &c, &kept].iter().map(|u| u.data().paddr).collect();
    assert_eq!(addrs, vec![0x1000_0000, 0x1000_1000, 0x1000_2000, 0x1000_3000]);
    assert_eq!((a.cptr(), b.cptr(), c.cptr(), kept.cptr()), (200, 201, 202, 9));
    assert!([&a, &b, &c, &kept].iter().all(|u| u.data().size_bits == 12));
    assert_eq!(rest.free_slots(), 0);
}

#[test]
fn quarter_needs_three_slots() {
    let ut = untyped(9, 0, 14);
    assert_eq!(ut.quarter_invocation(&arena(1, 2)).unwrap_err(), Error::SlotsExhausted);
    let (e, back_ut, back) = ut.quarter(arena(1, 2), 0).unwrap_err();
    assert_eq!(e, Error::SlotsExhausted);
    assert_eq!((back_ut.cptr(), back.free_slots()), (9, 2));
}

#[test]
fn retype_local_makes_one_object() {
    let ut = untyped(9, 0, 12);
    let dest = arena(50, 1);
    assert_eq!(
        ut.retype_local_invocation::<Endpoint>(&dest).unwrap(),
        Invocation::UntypedRetype {
            untyped: 9,
            object_type: ObjectType::Endpoint,
            size_bits: 0,
            root: 2,
            index: 0,
            depth: 0,
            offset: 50,
            num_objects: 1,
        }
    );
    let (ep, rest): (LocalCap<Endpoint>, _) = ut.retype_local(dest, 0).unwrap();
    assert_eq!(ep.cptr(), 50);
    assert_eq!(rest.free_slots(), 0);
}

#[test]
fn retype_local_reports_kernel_error() {
    let ut = untyped(9, 0, 4);
    let r = ut.retype_local::<Endpoint>(arena(50, 1), 1);
    assert_eq!(r.unwrap_err().0, Error::SeL4(SeL4Error::UntypedRetype(KernelError::InvalidArgument)));
}

#[test]
fn retype_local_cnode_gives_a_full_child_arena() {
    let ut = untyped(9, 0, 16);
    let dest = arena(60, 2);
    match ut.retype_local_cnode_invocation(&dest, 12).unwrap() {
        Invocation::UntypedRetype { object_type, size_bits, offset, .. } => {
            assert_eq!((object_type, size_bits, offset), (ObjectType::CapTable, 12, 60))
        }
        other => panic!("unexpected {:?}", other),
    }
    let (child, rest) = ut.retype_local_cnode(dest, 12, 0).unwrap();
    assert_eq!(child.cptr(), 60);
    assert_eq!(child.radix(), 12);
    assert_eq!((child.next_free_slot(), child.free_slots()), (0, 4096));
    assert_eq!(rest.next_free_slot(), 61);
}

#[test]
fn retype_child_places_object_in_child_table() {
    let (child, _) = untyped(9, 0, 16).retype_local_cnode(arena(60, 1), 4, 0).unwrap();
    let ut = untyped(10, 0x10_0000, 12);
    match ut.retype_child_invocation::<Endpoint>(&child).unwrap() {
        Invocation::UntypedRetype { root, offset, .. } => assert_eq!((root, offset), (60, 0)),
        other => panic!("unexpected {:?}", other),
    }
    let (ep, rest) = ut.retype_child::<Endpoint>(child, 0).unwrap();
    assert_eq!(ep.cptr(), 0);
    assert_eq!((rest.next_free_slot(), rest.free_slots()), (1, 15));
}
