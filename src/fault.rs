//! Decoding the fault messages the kernel delivers on behalf of a faulting
//! thread (64-bit ARM message layout).
use vstd::prelude::*;

verus! {

/// The badge of the capability a message was delivered through; it tells
/// the receiver which sender faulted.
#[derive(Debug, Clone, Copy, PartialEq, Eq, Structural)]
pub struct Badge {
    pub inner: usize,
}

impl Badge {
    pub fn from(inner: usize) -> (r: Badge)
        ensures
            r.inner == inner,
    {
        Badge { inner }
    }
}

/// Message labels of the fault classes.
pub const NULL_FAULT: usize = 0;

pub const CAP_FAULT: usize = 1;

pub const UNKNOWN_SYSCALL: usize = 2;

pub const USER_EXCEPTION: usize = 3;

pub const VM_FAULT: usize = 5;

pub const VGIC_MAINTENANCE_FAULT: usize = 6;

pub const VCPU_FAULT: usize = 7;

/// Words of the longest fault message (an unknown system call).
pub const FAULT_MESSAGE_WORDS: usize = 13;

#[derive(Debug, Clone, Copy, PartialEq, Eq, Structural)]
pub struct VMFault {
    pub sender: Badge,
    pub program_counter: usize,
    pub address: usize,
    pub is_instruction_fault: bool,
    pub fault_status_register: usize,
}

#[derive(Debug, Clone, Copy, PartialEq, Eq, Structural)]
pub struct UnknownSyscall {
    pub sender: Badge,
    pub x0: usize,
    pub x1: usize,
    pub x2: usize,
    pub x3: usize,
    pub x4: usize,
    pub x5: usize,
    pub x6: usize,
    pub x7: usize,
    pub program_counter: usize,
    pub stack_pointer: usize,
    pub list_register: usize,
    pub saved_program_status_register: usize,
    pub syscall: usize,
}

#[derive(Debug, Clone, Copy, PartialEq, Eq, Structural)]
pub struct UserException {
    pub sender: Badge,
    pub program_counter: usize,
    pub stack_pointer: usize,
    pub saved_program_status_register: usize,
    pub number: usize,
    pub code: usize,
}

#[derive(Debug, Clone, Copy, PartialEq, Eq, Structural)]
pub struct NullFault {
    pub sender: Badge,
}

#[derive(Debug, Clone, Copy, PartialEq, Eq, Structural)]
pub struct CapFault {
    pub sender: Badge,
    pub in_receive_phase: bool,
    pub cap_address: usize,
}

/// Grab bag for faults that don't fit the regular classification
#[derive(Debug, Clone, Copy, PartialEq, Eq, Structural)]
pub struct UnidentifiedFault {
    pub sender: Badge,
}

/// Delivered only by kernels built with hypervisor support.
#[derive(Debug, Clone, Copy, PartialEq, Eq, Structural)]
pub struct VGICMaintenanceFault {
    pub sender: Badge,
    pub index: usize,
}

/// Delivered only by kernels built with hypervisor support.
#[derive(Debug, Clone, Copy, PartialEq, Eq, Structural)]
pub struct VCPUFault {
    pub sender: Badge,
    pub hyp_syndrome_register: usize,
}

/// A decoded fault message.
#[derive(Debug, Clone, Copy, PartialEq, Eq, Structural)]
pub enum Fault {
    VMFault(VMFault),
    UnknownSyscall(UnknownSyscall),
    UserException(UserException),
    NullFault(NullFault),
    CapFault(CapFault),
    UnidentifiedFault(UnidentifiedFault),
    VGICMaintenanceFault(VGICMaintenanceFault),
    VCPUFault(VCPUFault),
}

/// The fault a message with `label` and words `msg` describes. Labels of the
/// hypervisor classes count only when the kernel has hypervisor support;
/// any other label is an unidentified fault.
pub open spec fn decode_spec(label: usize, msg: Seq<usize>, sender: Badge, hypervisor: bool) -> Fault {
    if label == NULL_FAULT {
        Fault::NullFault(NullFault { sender })
    } else if label == VM_FAULT {
        Fault::VMFault(
            VMFault {
                sender,
                program_counter: msg[0],
                address: msg[1],
                is_instruction_fault: msg[2] == 1,
                fault_status_register: msg[3],
            },
        )
    } else if label == UNKNOWN_SYSCALL {
        Fault::UnknownSyscall(
            UnknownSyscall {
                sender,
                x0: msg[0],
                x1: msg[1],
                x2: msg[2],
                x3: msg[3],
                x4: msg[4],
                x5: msg[5],
                x6: msg[6],
                x7: msg[7],
                program_counter: msg[8],
                stack_pointer: msg[9],
                list_register: msg[10],
                saved_program_status_register: msg[11],
                syscall: msg[12],
            },
        )
    } else if label == USER_EXCEPTION {
        Fault::UserException(
            UserException {
                sender,
                program_counter: msg[0],
                stack_pointer: msg[1],
                saved_program_status_register: msg[2],
                number: msg[3],
                code: msg[4],
            },
        )
    } else if label == CAP_FAULT {
        Fault::CapFault(CapFault { sender, cap_address: msg[1], in_receive_phase: msg[2] == 1 })
    } else if hypervisor && label == VGIC_MAINTENANCE_FAULT {
        Fault::VGICMaintenanceFault(VGICMaintenanceFault { sender, index: msg[0] })
    } else if hypervisor && label == VCPU_FAULT {
        Fault::VCPUFault(VCPUFault { sender, hyp_syndrome_register: msg[0] })
    } else {
        Fault::UnidentifiedFault(UnidentifiedFault { sender })
    }
}

impl Fault {
    pub open spec fn spec_sender(&self) -> Badge {
        match self {
            Fault::VMFault(f) => f.sender,
            Fault::UnknownSyscall(f) => f.sender,
            Fault::UserException(f) => f.sender,
            Fault::NullFault(f) => f.sender,
            Fault::CapFault(f) => f.sender,
            Fault::UnidentifiedFault(f) => f.sender,
            Fault::VGICMaintenanceFault(f) => f.sender,
            Fault::VCPUFault(f) => f.sender,
        }
    }

    /// The badge of the thread that faulted.
    #[verifier::when_used_as_spec(spec_sender)]
    pub fn sender(&self) -> (r: Badge)
        ensures
            r == self.spec_sender(),
    {
        match self {
            Fault::VMFault(f) => f.sender,
            Fault::UnknownSyscall(f) => f.sender,
            Fault::UserException(f) => f.sender,
            Fault::NullFault(f) => f.sender,
            Fault::CapFault(f) => f.sender,
            Fault::UnidentifiedFault(f) => f.sender,
            Fault::VGICMaintenanceFault(f) => f.sender,
            Fault::VCPUFault(f) => f.sender,
        }
    }

    /// Decodes a fault message from its label and the words of the message
    /// buffer. Never fails: a label of no known class gives an
    /// `UnidentifiedFault`. The sender is kept whatever the class.
    pub fn from_message(label: usize, msg: &[usize], sender: Badge, hypervisor: bool) -> (r: Fault)
        requires
            msg@.len() >= FAULT_MESSAGE_WORDS,
        ensures
            r == decode_spec(label, msg@, sender, hypervisor),
            r.spec_sender() == sender,
    {
        if label == NULL_FAULT {
            Fault::NullFault(NullFault { sender })
        } else if label == VM_FAULT {
            Fault::VMFault(
                VMFault {
                    sender,
                    program_counter: msg[0],
                    address: msg[1],
                    is_instruction_fault: msg[2] == 1,
                    fault_status_register: msg[3],
                },
            )
        } else if label == UNKNOWN_SYSCALL {
            Fault::UnknownSyscall(
                UnknownSyscall {
                    sender,
                    x0: msg[0],
                    x1: msg[1],
                    x2: msg[2],
                    x3: msg[3],
                    x4: msg[4],
                    x5: msg[5],
                    x6: msg[6],
                    x7: msg[7],
                    program_counter: msg[8],
                    stack_pointer: msg[9],
                    list_register: msg[10],
                    saved_program_status_register: msg[11],
                    syscall: msg[12],
                },
            )
        } else if label == USER_EXCEPTION {
            Fault::UserException(
                UserException {
                    sender,
                    program_counter: msg[0],
                    stack_pointer: msg[1],
                    saved_program_status_register: msg[2],
                    number: msg[3],
                    code: msg[4],
                },
            )
        } else if label == CAP_FAULT {
            Fault::CapFault(CapFault { sender, cap_address: msg[1], in_receive_phase: msg[2] == 1 })
        } else if hypervisor && label == VGIC_MAINTENANCE_FAULT {
            Fault::VGICMaintenanceFault(VGICMaintenanceFault { sender, index: msg[0] })
        } else if hypervisor && label == VCPU_FAULT {
            Fault::VCPUFault(VCPUFault { sender, hyp_syndrome_register: msg[0] })
        } else {
            Fault::UnidentifiedFault(UnidentifiedFault { sender })
        }
    }
}

} // verus!
