use ferros::error::{ErrorExt, KernelError};

#[test]
fn status_codes_map_to_kernel_errors() {
    assert_eq!(0u32.as_result(), Ok(()));
    assert_eq!(1u32.as_result(), Err(KernelError::InvalidArgument));
    assert_eq!(2u32.as_result(), Err(KernelError::InvalidCapability));
    assert_eq!(3u32.as_result(), Err(KernelError::IllegalOperation));
    assert_eq!(4u32.as_result(), Err(KernelError::RangeError));
    assert_eq!(5u32.as_result(), Err(KernelError::AlignmentError));
    assert_eq!(6u32.as_result(), Err(KernelError::FailedLookup));
    assert_eq!(7u32.as_result(), Err(KernelError::TruncatedMessage));
    assert_eq!(8u32.as_result(), Err(KernelError::DeleteFirst));
    assert_eq!(9u32.as_result(), Err(KernelError::RevokeFirst));
    assert_eq!(10u32.as_result(), Err(KernelError::NotEnoughMemory));
    assert_eq!(11u32.as_result(), Err(KernelError::UnknownError(11)));
    assert_eq!(u32::MAX.as_result(), Err(KernelError::UnknownError(u32::MAX)));
}
