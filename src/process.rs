//! Passing a launch parameter to a new thread: the first four words go in
//! the argument registers, the rest in an image of the initial stack.
use vstd::prelude::*;

use crate::cap::{Child, LocalCap, ThreadControlBlock};
use crate::cnode::CNode;
use crate::error::{status_error, Error, ErrorExt, SeL4Error, NO_ERROR};
use crate::invocation::{Invocation, WORD_BITS};
use crate::vspace::AssignedPageDirectory;

verus! {

/// A launch parameter type, and the type the parameter has once its
/// capabilities belong to the new process.
pub trait RetypeForSetup: Sized + Send + Sync {
    type Output: Sized + Send + Sync;
}

/// Bytes in a machine word of the target.
pub const WORD_BYTES: usize = 4;

/// Number of argument registers that carry the parameter's first words.
pub const ARG_REGISTERS: usize = 4;

/// The four argument registers of the new thread, `r0` to `r3`.
#[derive(Debug, Clone, Copy, PartialEq, Eq, Structural)]
pub struct ArgumentRegisters {
    pub r0: u32,
    pub r1: u32,
    pub r2: u32,
    pub r3: u32,
}

/// Length of a parameter of `n` bytes once zero-padded to whole words.
pub open spec fn padded_len(n: nat) -> nat {
    if n % 4 == 0 {
        n
    } else {
        n + (4 - n % 4) as nat
    }
}

/// Byte `i` of the zero-padded parameter.
pub open spec fn padded_byte(param: Seq<u8>, i: int) -> u8 {
    if 0 <= i < param.len() {
        param[i]
    } else {
        0
    }
}

/// Word `k` of the zero-padded parameter, its bytes in little-endian order.
pub open spec fn param_word(param: Seq<u8>, k: int) -> u32 {
    (padded_byte(param, 4 * k) as int + padded_byte(param, 4 * k + 1) as int * 0x100
        + padded_byte(param, 4 * k + 2) as int * 0x1_0000 + padded_byte(param, 4 * k + 3) as int
        * 0x100_0000) as u32
}

/// Argument register `k`: word `k` of the parameter, or zero past its end.
pub open spec fn register_word(param: Seq<u8>, k: int) -> u32 {
    if 4 * k < param.len() {
        param_word(param, k)
    } else {
        0
    }
}

/// The registers that carry the parameter.
pub open spec fn registers_for(param: Seq<u8>) -> ArgumentRegisters {
    ArgumentRegisters {
        r0: register_word(param, 0),
        r1: register_word(param, 1),
        r2: register_word(param, 2),
        r3: register_word(param, 3),
    }
}

/// The bytes placed directly below the top of the stack: what follows the
/// first four words of the zero-padded parameter, in order.
pub open spec fn stack_image(param: Seq<u8>) -> Seq<u8> {
    let n = padded_len(param.len());
    if n > 16 {
        Seq::new((n - 16) as nat, |i: int| padded_byte(param, 16 + i))
    } else {
        Seq::empty()
    }
}

fn padded_byte_at(param: &[u8], i: usize) -> (r: u8)
    ensures
        r == padded_byte(param@, i as int),
{
    if i < param.len() {
        param[i]
    } else {
        0
    }
}

fn register_at(param: &[u8], k: usize) -> (r: u32)
    requires
        k < ARG_REGISTERS,
    ensures
        r == register_word(param@, k as int),
{
    let base = 4 * k;
    if base >= param.len() {
        return 0;
    }
    let b0 = padded_byte_at(param, base) as u32;
    let b1 = padded_byte_at(param, base + 1) as u32;
    let b2 = padded_byte_at(param, base + 2) as u32;
    let b3 = padded_byte_at(param, base + 3) as u32;
    b0 + b1 * 0x100 + b2 * 0x1_0000 + b3 * 0x100_0000
}

/// Lays a parameter out for a new thread (procedure call standard of the
/// 32-bit ARM architecture): the first four words, zero-padded, in `r0` to
/// `r3`; the rest, zero-padded to a whole word, as the image to copy directly
/// below the top of the stack. The image is empty when the parameter fits
/// in the registers; its length is how far the stack pointer moves down.
pub fn setup_initial_stack_and_regs(param: &[u8]) -> (r: (ArgumentRegisters, Vec<u8>))
    requires
        param@.len() <= isize::MAX,
    ensures
        r.0 == registers_for(param@),
        r.1@ == stack_image(param@),
{
    let regs = ArgumentRegisters {
        r0: register_at(param, 0),
        r1: register_at(param, 1),
        r2: register_at(param, 2),
        r3: register_at(param, 3),
    };
    let len = param.len();
    let tail = len % WORD_BYTES;
    let padded = if tail == 0 {
        len
    } else {
        len + (WORD_BYTES - tail)
    };
    let mut stack: Vec<u8> = Vec::new();
    if padded > 16 {
        let extent = padded - 16;
        let mut i: usize = 0;
        while i < extent
            invariant
                extent == padded_len(param@.len()) - 16,
                padded == padded_len(param@.len()),
                padded <= usize::MAX,
                i <= extent,
                stack@ == Seq::new(i as nat, |j: int| padded_byte(param@, 16 + j)),
            decreases extent - i,
        {
            let b = padded_byte_at(param, 16 + i);
            stack.push(b);
            assert(stack@ =~= Seq::new((i + 1) as nat, |j: int| padded_byte(param@, 16 + j)));
            i = i + 1;
        }
    }
    assert(stack@ =~= stack_image(param@));
    (regs, stack)
}

/// The guard that makes a table of radix `radix` resolve whole capability
/// addresses: the bits above the radix, all zero.
pub open spec fn guard_size(radix: u8) -> usize {
    (WORD_BITS - radix) as usize
}

impl LocalCap<ThreadControlBlock> {
    /// The invocation `configure` needs: no fault endpoint, `cspace_root` as
    /// the capability table with a guard over the bits above its radix, and
    /// `vspace_root` as the address space.
    pub fn configure_invocation(
        &self,
        cspace_root: &CNode<Child>,
        vspace_root: &LocalCap<AssignedPageDirectory>,
    ) -> (r: Invocation)
        requires
            cspace_root.wf(),
        ensures
            r == (Invocation::TCBConfigure {
                tcb: self.spec_cptr(),
                fault_ep: 0,
                cspace_root: cspace_root.spec_cptr(),
                cspace_guard_size: guard_size(cspace_root.spec_radix()),
                vspace_root: vspace_root.spec_cptr(),
            }),
    {
        Invocation::TCBConfigure {
            tcb: self.cptr(),
            fault_ep: 0,
            cspace_root: cspace_root.cptr(),
            cspace_guard_size: WORD_BITS - cspace_root.radix() as usize,
            vspace_root: vspace_root.cptr(),
        }
    }

    /// Gives the thread its capability table and address space, which it
    /// takes over; `status` is the kernel's answer to `configure_invocation`.
    pub fn configure(
        &mut self,
        cspace_root: CNode<Child>,
        vspace_root: LocalCap<AssignedPageDirectory>,
        status: u32,
    ) -> (r: Result<(), Error>)
        requires
            cspace_root.wf(),
        ensures
            *final(self) == *old(self),
            r is Ok <==> status == NO_ERROR,
            r matches Err(e) ==> e == Error::SeL4(SeL4Error::TCBConfigure(status_error(status))),
    {
        match status.as_result() {
            Ok(()) => Ok(()),
            Err(e) => Err(Error::SeL4(SeL4Error::TCBConfigure(e))),
        }
    }
}

} // verus!
