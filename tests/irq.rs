use ferros::bootstrap::{BootInfo, KernelBootInfo, SlotRegion};
use ferros::cap::{Child, Local, LocalCap};
use ferros::cnode::{root_cnode, CNodeSlot};
use ferros::error::{KernelError, SeL4Error};
use ferros::invocation::{Invocation, WORD_BITS};
use ferros::irq::{IRQControl, IRQError, IRQHandler, WIRQHandler};
use ferros::untyped::{wrap_untyped, UntypedDesc};

/// The component's interrupt control, as boot hands it over.
fn root_irq_control() -> LocalCap<IRQControl> {
    let empty = SlotRegion { start: 0, end: 0 };
    let regions = KernelBootInfo { empty, user_image_frames: empty, user_image_paging: empty };
    let ut = wrap_untyped(9, &UntypedDesc { paddr: 0, size_bits: 12, is_device: false }, 12).unwrap();
    match BootInfo::wrap(&regions, ut, root_cnode(2, 100, 101), 1, 0) {
        Ok((info, _)) => info.irq_control,
        Err(e) => panic!("{:?}", e.0),
    }
}

fn slot(offset: usize) -> CNodeSlot<Local> {
    root_cnode(2, offset, offset + 1).consume_slot().unwrap().1
}

#[test]
fn second_claim_of_a_line_is_unavailable() {
    let mut control = root_irq_control();
    assert_eq!(
        control.create_handler_invocation(&slot(50), 27).unwrap(),
        Invocation::IRQControlGet { irq_control: 4, irq: 27, root: 2, index: 50, depth: WORD_BITS }
    );
    let handler = control.create_handler(slot(50), 27, 0).unwrap();
    assert_eq!(handler.cptr(), 50);
    assert_eq!(*handler.data(), IRQHandler { irq: 27 });
    assert!(!control.data().is_available(27));
    assert_eq!(
        control.create_handler_invocation(&slot(51), 27).unwrap_err(),
        IRQError::UnavailableIRQ(27)
    );
    assert_eq!(control.create_handler(slot(51), 27, 0).unwrap_err(), IRQError::UnavailableIRQ(27));
    assert!(control.data().is_available(28));
}

#[test]
fn lines_from_1024_on_are_out_of_range() {
    let mut control = root_irq_control();
    for irq in [1024u16, 1025, 4000, u16::MAX] {
        assert_eq!(
            control.create_handler_invocation(&slot(50), irq).unwrap_err(),
            IRQError::OutOfRangeIRQ(irq)
        );
        assert_eq!(control.create_handler(slot(50), irq, 0).unwrap_err(), IRQError::OutOfRangeIRQ(irq));
    }
    assert!(control.create_handler(slot(50), 1023, 0).is_ok());
}

#[test]
fn kernel_refusal_leaves_the_line_free() {
    let mut control = root_irq_control();
    assert_eq!(
        control.create_handler(slot(50), 3, 8).unwrap_err(),
        IRQError::SeL4Error(SeL4Error::IRQControlGet(KernelError::DeleteFirst))
    );
    assert!(control.data().is_available(3));
    assert!(control.create_handler(slot(50), 3, 0).is_ok());
}

#[test]
fn weak_handler_shares_the_table() {
    let mut control = root_irq_control();
    let weak = control.create_weak_handler(slot(60), 9, 0).unwrap();
    assert_eq!(*weak.data(), WIRQHandler { irq: 9 });
    assert_eq!(control.create_handler(slot(61), 9, 0).unwrap_err(), IRQError::UnavailableIRQ(9));
    assert_eq!(control.create_weak_handler(slot(61), 2000, 0).unwrap_err(), IRQError::OutOfRangeIRQ(2000));
}

#[test]
fn handler_can_be_placed_for_a_child() {
    let ut = wrap_untyped(9, &UntypedDesc { paddr: 0, size_bits: 16, is_device: false }, 16).unwrap();
    let (child, _) = ut.retype_local_cnode(root_cnode(2, 10, 11), 4, 0).unwrap();
    let (_, child_slot): (_, CNodeSlot<Child>) = child.consume_slot().unwrap();
    let mut control = root_irq_control();
    let handler = control.create_handler(child_slot, 5, 0).unwrap();
    assert_eq!(handler.cptr(), 0);
}

#[test]
fn irq_error_wraps_kernel_errors() {
    let e = SeL4Error::IRQControlGet(KernelError::RangeError);
    assert_eq!(IRQError::from(e), IRQError::SeL4Error(e));
}
