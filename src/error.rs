//! Kernel status codes and the error types built from them.
use vstd::prelude::*;

verus! {

/// Status code the kernel returns when an invocation succeeded.
pub const NO_ERROR: u32 = 0;

/// The closed set of failures the kernel reports, plus a catch-all for codes
/// this library does not know.
#[derive(Debug, Clone, Copy, PartialEq, Eq, Structural)]
pub enum KernelError {
    InvalidArgument,
    InvalidCapability,
    IllegalOperation,
    RangeError,
    AlignmentError,
    FailedLookup,
    TruncatedMessage,
    DeleteFirst,
    RevokeFirst,
    NotEnoughMemory,
    /// A kernel error code that was not recognized
    UnknownError(u32),
}

/// A kernel failure together with the invocation that produced it.
#[derive(Debug, Clone, Copy, PartialEq, Eq, Structural)]
pub enum SeL4Error {
    UntypedRetype(KernelError),
    TCBConfigure(KernelError),
    PageTableMap(KernelError),
    PageTableUnmap(KernelError),
    PageUpperDirectoryMap(KernelError),
    PageDirectoryMap(KernelError),
    ASIDControlMakePool(KernelError),
    ASIDPoolAssign(KernelError),
    PageGetAddress(KernelError),
    PageMap(KernelError),
    PageUnmap(KernelError),
    CNodeCopy(KernelError),
    CNodeMint(KernelError),
    CNodeSaveCaller(KernelError),
    TCBWriteRegisters(KernelError),
    TCBReadRegisters(KernelError),
    TCBSetPriority(KernelError),
    TCBResume(KernelError),
    CNodeMutate(KernelError),
    CNodeMove(KernelError),
    CNodeDelete(KernelError),
    IRQControlGet(KernelError),
    IRQHandlerSetNotification(KernelError),
    IRQHandlerAck(KernelError),
    GetPageAddr(KernelError),
    PageCleanInvalidateData(KernelError),
    CNodeRevoke(KernelError),
    VCPUInjectIRQ(KernelError),
    VCPUReadRegisters(KernelError),
    VCPUWriteRegisters(KernelError),
    VCPUBindTcb(KernelError),
    TCBBindNotification(KernelError),
}

/// The meaning of a kernel status code: `Ok` for success, otherwise the
/// error it names (codes 1 through 10), or `UnknownError` carrying the code.
pub open spec fn status_result(code: u32) -> Result<(), KernelError> {
    if code == 0 {
        Ok(())
    } else if code == 1 {
        Err(KernelError::InvalidArgument)
    } else if code == 2 {
        Err(KernelError::InvalidCapability)
    } else if code == 3 {
        Err(KernelError::IllegalOperation)
    } else if code == 4 {
        Err(KernelError::RangeError)
    } else if code == 5 {
        Err(KernelError::AlignmentError)
    } else if code == 6 {
        Err(KernelError::FailedLookup)
    } else if code == 7 {
        Err(KernelError::TruncatedMessage)
    } else if code == 8 {
        Err(KernelError::DeleteFirst)
    } else if code == 9 {
        Err(KernelError::RevokeFirst)
    } else if code == 10 {
        Err(KernelError::NotEnoughMemory)
    } else {
        Err(KernelError::UnknownError(code))
    }
}

/// The error a failing kernel status code names.
pub open spec fn status_error(code: u32) -> KernelError {
    status_result(code)->Err_0
}

/// Converts a raw kernel status into a `Result`.
pub trait ErrorExt: Sized {
    spec fn as_result_spec(self) -> Result<(), KernelError>;

    fn as_result(self) -> (r: Result<(), KernelError>)
        ensures
            r == self.as_result_spec(),
    ;
}

impl ErrorExt for u32 {
    open spec fn as_result_spec(self) -> Result<(), KernelError> {
        status_result(self)
    }

    fn as_result(self) -> (r: Result<(), KernelError>) {
        match self {
            0 => Ok(()),
            1 => Err(KernelError::InvalidArgument),
            2 => Err(KernelError::InvalidCapability),
            3 => Err(KernelError::IllegalOperation),
            4 => Err(KernelError::RangeError),
            5 => Err(KernelError::AlignmentError),
            6 => Err(KernelError::FailedLookup),
            7 => Err(KernelError::TruncatedMessage),
            8 => Err(KernelError::DeleteFirst),
            9 => Err(KernelError::RevokeFirst),
            10 => Err(KernelError::NotEnoughMemory),
            unknown => Err(KernelError::UnknownError(unknown)),
        }
    }
}

} // verus!

verus! {

/// Failure of a capability operation: either a precondition that was checked
/// before any kernel invocation, or a failure the kernel reported.
#[derive(Debug, Clone, Copy, PartialEq, Eq, Structural)]
pub enum Error {
    /// The destination arena has fewer free slots than the operation consumes.
    SlotsExhausted,
    /// The address-space-id pool has no id left to hand out.
    ASIDPoolExhausted,
    /// The page directory has no entry left for another page table.
    PageDirectoryFull,
    /// The kernel rejected the invocation.
    SeL4(SeL4Error),
}

} // verus!
