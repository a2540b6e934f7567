use ferros::fault::{
    Badge, CapFault, Fault, NullFault, UnidentifiedFault, UnknownSyscall, UserException,
    VCPUFault, VGICMaintenanceFault, VMFault, CAP_FAULT, NULL_FAULT, UNKNOWN_SYSCALL,
    USER_EXCEPTION, VCPU_FAULT, VGIC_MAINTENANCE_FAULT, VM_FAULT,
};

fn message(words: &[usize]) -> Vec<usize> {
    let mut msg = vec![0usize; 120];
    msg[..words.len()].copy_from_slice(words);
    msg
}

#[test]
fn vm_fault_decodes_its_fields() {
    let msg = message(&[0x1000, 0x2000, 0, 5]);
    let sender = Badge::from(7);
    let fault = Fault::from_message(VM_FAULT, &msg, sender, false);
    assert_eq!(
        fault,
        Fault::VMFault(VMFault {
            sender,
            program_counter: 0x1000,
            address: 0x2000,
            is_instruction_fault: false,
            fault_status_register: 5,
        })
    );
}

#[test]
fn vm_fault_prefetch_flag_marks_instruction_fault() {
    let msg = message(&[0x1000, 0x2000, 1, 5]);
    match Fault::from_message(VM_FAULT, &msg, Badge::from(1), false) {
        Fault::VMFault(f) => assert!(f.is_instruction_fault),
        other => panic!("unexpected {:?}", other),
    }
}

#[test]
fn unknown_label_is_unidentified_with_sender() {
    let msg = message(&[1, 2, 3]);
    let sender = Badge::from(0xABCD);
    let fault = Fault::from_message(0xFFFF, &msg, sender, false);
    assert_eq!(fault, Fault::UnidentifiedFault(UnidentifiedFault { sender }));
    assert_eq!(fault.sender(), sender);
}

#[test]
fn null_fault_carries_sender_only() {
    let msg = message(&[]);
    let fault = Fault::from_message(NULL_FAULT, &msg, Badge::from(3), false);
    assert_eq!(fault, Fault::NullFault(NullFault { sender: Badge::from(3) }));
}

#[test]
fn cap_fault_decodes_address_and_phase() {
    let msg = message(&[0x4444, 314159, 1]);
    let fault = Fault::from_message(CAP_FAULT, &msg, Badge::from(9), false);
    assert_eq!(
        fault,
        Fault::CapFault(CapFault { sender: Badge::from(9), in_receive_phase: true, cap_address: 314159 })
    );
}

#[test]
fn unknown_syscall_decodes_all_registers() {
    let words: Vec<usize> = (100..113).collect();
    let msg = message(&words);
    let fault = Fault::from_message(UNKNOWN_SYSCALL, &msg, Badge::from(2), false);
    assert_eq!(
        fault,
        Fault::UnknownSyscall(UnknownSyscall {
            sender: Badge::from(2),
            x0: 100,
            x1: 101,
            x2: 102,
            x3: 103,
            x4: 104,
            x5: 105,
            x6: 106,
            x7: 107,
            program_counter: 108,
            stack_pointer: 109,
            list_register: 110,
            saved_program_status_register: 111,
            syscall: 112,
        })
    );
}

#[test]
fn user_exception_decodes_its_fields() {
    let msg = message(&[10, 20, 30, 40, 50]);
    let fault = Fault::from_message(USER_EXCEPTION, &msg, Badge::from(4), false);
    assert_eq!(
        fault,
        Fault::UserException(UserException {
            sender: Badge::from(4),
            program_counter: 10,
            stack_pointer: 20,
            saved_program_status_register: 30,
            number: 40,
            code: 50,
        })
    );
}

#[test]
fn hypervisor_labels_need_hypervisor_support() {
    let msg = message(&[77]);
    let sender = Badge::from(5);
    assert_eq!(
        Fault::from_message(VGIC_MAINTENANCE_FAULT, &msg, sender, true),
        Fault::VGICMaintenanceFault(VGICMaintenanceFault { sender, index: 77 })
    );
    assert_eq!(
        Fault::from_message(VCPU_FAULT, &msg, sender, true),
        Fault::VCPUFault(VCPUFault { sender, hyp_syndrome_register: 77 })
    );
    assert_eq!(
        Fault::from_message(VCPU_FAULT, &msg, sender, false),
        Fault::UnidentifiedFault(UnidentifiedFault { sender })
    );
}
