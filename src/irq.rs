//! Interrupt lines: the table of lines still free to claim, and the handler
//! capabilities made by claiming them.
use vstd::prelude::*;

use crate::cap::{CNodeRole, Cap, LocalCap};
use crate::cnode::CNodeSlot;
use crate::error::{status_result, ErrorExt, SeL4Error};
use crate::invocation::{Invocation, WORD_BITS};

verus! {

/// Number of interrupt lines.
pub const MAX_IRQ_COUNT: u16 = 1024;

/// The authority to claim interrupt lines, with one flag per line: whether
/// the line may still be claimed. A claimed line is never released.
#[derive(Debug)]
pub struct IRQControl {
    pub(crate) available: Vec<bool>,
}

/// The handler of one claimed interrupt line.
#[derive(Debug, PartialEq, Eq, Structural)]
pub struct IRQHandler {
    pub irq: u16,
}

/// The handler of one claimed interrupt line, whose number was chosen at
/// run time.
#[derive(Debug, PartialEq, Eq, Structural)]
pub struct WIRQHandler {
    pub irq: u16,
}

#[derive(Debug, Clone, Copy, PartialEq, Eq, Structural)]
pub enum IRQError {
    /// The IRQ has already been claimed
    UnavailableIRQ(u16),
    /// The IRQ requested is not in the supported range of possible IRQs
    OutOfRangeIRQ(u16),
    /// The kernel has a problem with how IRQ management is proceeding
    SeL4Error(SeL4Error),
}

impl IRQError {
    pub fn from(e: SeL4Error) -> (r: IRQError)
        ensures
            r == IRQError::SeL4Error(e),
    {
        IRQError::SeL4Error(e)
    }
}

impl IRQControl {
    pub open(crate) spec fn spec_available(&self) -> Seq<bool> {
        self.available@
    }

    /// One flag per interrupt line.
    pub open spec fn wf(&self) -> bool {
        self.spec_available().len() == MAX_IRQ_COUNT
    }

    /// Whether line `irq` may still be claimed.
    pub fn is_available(&self, irq: u16) -> (r: bool)
        requires
            self.wf(),
        ensures
            r == (irq < MAX_IRQ_COUNT && self.spec_available()[irq as int]),
    {
        irq < MAX_IRQ_COUNT && self.available[irq as usize]
    }
}

/// The component's interrupt-control capability, at `cptr`, with every line
/// free to claim.
pub(crate) fn root_irq_control(cptr: usize) -> (r: LocalCap<IRQControl>)
    ensures
        r.spec_cptr() == cptr,
        r.spec_data().wf(),
        forall|i: int| 0 <= i < MAX_IRQ_COUNT ==> #[trigger] r.spec_data().spec_available()[i],
{
    let mut available: Vec<bool> = Vec::new();
    let mut i: u16 = 0;
    while i < MAX_IRQ_COUNT
        invariant
            i <= MAX_IRQ_COUNT,
            available@.len() == i,
            forall|j: int| 0 <= j < i ==> #[trigger] available@[j],
        decreases MAX_IRQ_COUNT - i,
    {
        available.push(true);
        i = i + 1;
    }
    Cap::new(cptr, IRQControl { available })
}

/// What claiming line `irq` does to the table `available` when the kernel
/// answers `status`: the table afterwards, and the outcome. Range and
/// availability are checked before anything is asked of the kernel; the
/// line is marked claimed only when the kernel made the handler.
pub open spec fn claim_outcome(available: Seq<bool>, irq: u16, status: u32) -> (Seq<bool>, Result<(), IRQError>) {
    if irq >= MAX_IRQ_COUNT {
        (available, Err(IRQError::OutOfRangeIRQ(irq)))
    } else if !available[irq as int] {
        (available, Err(IRQError::UnavailableIRQ(irq)))
    } else {
        match status_result(status) {
            Ok(()) => (available.update(irq as int, false), Ok(())),
            Err(e) => (available, Err(IRQError::SeL4Error(SeL4Error::IRQControlGet(e)))),
        }
    }
}

impl Cap<IRQControl, crate::cap::Local> {
    /// The invocation that claiming line `irq` into `dest_slot` needs: fails
    /// with `OutOfRangeIRQ` or `UnavailableIRQ` exactly when the claim would.
    pub fn create_handler_invocation<DestRole: CNodeRole>(&self, dest_slot: &CNodeSlot<DestRole>, irq: u16) -> (r:
        Result<Invocation, IRQError>)
        requires
            self.spec_data().wf(),
        ensures
            match r {
                Ok(inv) => irq < MAX_IRQ_COUNT && self.spec_data().spec_available()[irq as int]
                    && inv == (Invocation::IRQControlGet {
                    irq_control: self.spec_cptr(),
                    irq: irq as usize,
                    root: dest_slot.spec_cptr(),
                    index: dest_slot.spec_offset(),
                    depth: WORD_BITS,
                }),
                Err(e) => claim_outcome(self.spec_data().spec_available(), irq, 0).1 == Err::<
                    (),
                    IRQError,
                >(e),
            },
    {
        if irq >= MAX_IRQ_COUNT {
            return Err(IRQError::OutOfRangeIRQ(irq));
        }
        if !self.data().available[irq as usize] {
            return Err(IRQError::UnavailableIRQ(irq));
        }
        Ok(
            Invocation::IRQControlGet {
                irq_control: self.cptr(),
                irq: irq as usize,
                root: dest_slot.cptr(),
                index: dest_slot.offset(),
                depth: WORD_BITS,
            },
        )
    }

    /// Claims line `irq`, placing its handler in `dest_slot`; `status` is the
    /// kernel's answer to `create_handler_invocation`. Returns the handler's
    /// slot index.
    fn internal_create_handler<DestRole: CNodeRole>(
        &mut self,
        dest_slot: CNodeSlot<DestRole>,
        irq: u16,
        status: u32,
    ) -> (r: Result<usize, IRQError>)
        requires
            old(self).spec_data().wf(),
        ensures
            final(self).spec_cptr() == old(self).spec_cptr(),
            final(self).spec_data().wf(),
            final(self).spec_data().spec_available() == claim_outcome(
                old(self).spec_data().spec_available(),
                irq,
                status,
            ).0,
            r is Ok <==> claim_outcome(old(self).spec_data().spec_available(), irq, status).1 is Ok,
            r matches Err(e) ==> claim_outcome(old(self).spec_data().spec_available(), irq, status).1
                == Err::<(), IRQError>(e),
            r matches Ok(offset) ==> offset == dest_slot.spec_offset(),
    {
        if irq >= MAX_IRQ_COUNT {
            return Err(IRQError::OutOfRangeIRQ(irq));
        }
        if !self.data().available[irq as usize] {
            return Err(IRQError::UnavailableIRQ(irq));
        }
        match status.as_result() {
            Ok(()) => {},
            Err(e) => return Err(IRQError::SeL4Error(SeL4Error::IRQControlGet(e))),
        }
        let cptr = self.cptr();
        let mut available = self.data().available.clone();
        available.set(irq as usize, false);
        *self = Cap::new(cptr, IRQControl { available });
        proof {
            assert(final(self).spec_data().spec_available() =~= old(
                self,
            ).spec_data().spec_available().update(irq as int, false));
        }
        Ok(dest_slot.offset())
    }

    /// Claims line `irq` and makes its handler in `dest_slot`; `status` is
    /// the kernel's answer to `create_handler_invocation`. Fails with
    /// `OutOfRangeIRQ` for a line number of 1024 or more and with
    /// `UnavailableIRQ` for a line already claimed, in both cases before any
    /// kernel invocation; the table changes only on success.
    pub fn create_handler<DestRole: CNodeRole>(
        &mut self,
        dest_slot: CNodeSlot<DestRole>,
        irq: u16,
        status: u32,
    ) -> (r: Result<Cap<IRQHandler, DestRole>, IRQError>)
        requires
            old(self).spec_data().wf(),
        ensures
            final(self).spec_cptr() == old(self).spec_cptr(),
            final(self).spec_data().wf(),
            final(self).spec_data().spec_available() == claim_outcome(
                old(self).spec_data().spec_available(),
                irq,
                status,
            ).0,
            r is Ok <==> claim_outcome(old(self).spec_data().spec_available(), irq, status).1 is Ok,
            r matches Err(e) ==> claim_outcome(old(self).spec_data().spec_available(), irq, status).1
                == Err::<(), IRQError>(e),
            r matches Ok(handler) ==> handler.spec_cptr() == dest_slot.spec_offset()
                && handler.spec_data() == (IRQHandler { irq }),
    {
        let offset = self.internal_create_handler(dest_slot, irq, status)?;
        Ok(Cap::new(offset, IRQHandler { irq }))
    }

    /// Like `create_handler`, for a handler whose line number is only known
    /// at run time.
    pub fn create_weak_handler<DestRole: CNodeRole>(
        &mut self,
        dest_slot: CNodeSlot<DestRole>,
        irq: u16,
        status: u32,
    ) -> (r: Result<Cap<WIRQHandler, DestRole>, IRQError>)
        requires
            old(self).spec_data().wf(),
        ensures
            final(self).spec_cptr() == old(self).spec_cptr(),
            final(self).spec_data().wf(),
            final(self).spec_data().spec_available() == claim_outcome(
                old(self).spec_data().spec_available(),
                irq,
                status,
            ).0,
            r is Ok <==> claim_outcome(old(self).spec_data().spec_available(), irq, status).1 is Ok,
            r matches Err(e) ==> claim_outcome(old(self).spec_data().spec_available(), irq, status).1
                == Err::<(), IRQError>(e),
            r matches Ok(handler) ==> handler.spec_cptr() == dest_slot.spec_offset()
                && handler.spec_data() == (WIRQHandler { irq }),
    {
        if irq >= MAX_IRQ_COUNT {
            return Err(IRQError::OutOfRangeIRQ(irq));
        }
        let offset = self.internal_create_handler(dest_slot, irq, status)?;
        Ok(Cap::new(offset, WIRQHandler { irq }))
    }
}

/// Once a line has been claimed, claiming it again fails with
/// `UnavailableIRQ` whatever the kernel would answer; a line number of 1024
/// or more always fails with `OutOfRangeIRQ`.
pub proof fn lemma_claim_once(available: Seq<bool>, irq: u16, first: u32, second: u32)
    requires
        available.len() == MAX_IRQ_COUNT,
    ensures
        claim_outcome(available, irq, first).1 is Ok ==> claim_outcome(
            claim_outcome(available, irq, first).0,
            irq,
            second,
        ).1 == Err::<(), IRQError>(IRQError::UnavailableIRQ(irq)),
        irq >= MAX_IRQ_COUNT ==> claim_outcome(available, irq, first).1 == Err::<(), IRQError>(
            IRQError::OutOfRangeIRQ(irq),
        ),
{
}

} // verus!
