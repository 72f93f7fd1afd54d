use linux_kernel_module::error::{Error, KernelResult, EFAULT, EINVAL, ENOMEM};

#[test]
fn errno_round_trip_on_kernel_codes() {
    for errno in [-1, -12, -14, -16, -22, -4095] {
        assert_eq!(Error::from_kernel_errno(errno).to_kernel_errno(), errno);
    }
}

#[test]
fn errno_round_trip_on_every_kind_of_integer() {
    for errno in [0, 1, 22, i32::MAX, i32::MIN, -i32::MAX] {
        assert_eq!(Error::from_kernel_errno(errno).to_kernel_errno(), errno);
    }
}

#[test]
fn errno_round_trip_over_a_range() {
    let mut errno: i32 = -5000;
    while errno <= 5000 {
        assert_eq!(Error::from_kernel_errno(errno).to_kernel_errno(), errno);
        errno += 1;
    }
}

#[test]
fn kernel_numbers_have_their_values() {
    assert_eq!(EINVAL, 22);
    assert_eq!(ENOMEM, 12);
    assert_eq!(EFAULT, 14);
}

#[test]
fn named_errors_carry_the_negated_number() {
    assert_eq!(Error::einval().to_kernel_errno(), -22);
    assert_eq!(Error::enomem().to_kernel_errno(), -12);
    assert_eq!(Error::efault().to_kernel_errno(), -14);
}

#[test]
fn named_errors_are_what_their_code_wraps_to() {
    assert_eq!(Error::einval(), Error::from_kernel_errno(-EINVAL));
    assert_eq!(Error::enomem(), Error::from_kernel_errno(-ENOMEM));
    assert_eq!(Error::efault(), Error::from_kernel_errno(-EFAULT));
}

#[test]
fn errors_are_equal_exactly_when_their_codes_are() {
    assert_eq!(Error::from_kernel_errno(-12), Error::from_kernel_errno(-12));
    assert_ne!(Error::from_kernel_errno(-12), Error::from_kernel_errno(-14));
    assert_ne!(Error::from_kernel_errno(12), Error::from_kernel_errno(-12));
}

#[test]
fn conversion_to_integer_gives_the_code() {
    let code: i32 = Error::enomem().into();
    assert_eq!(code, -12);
    assert_eq!(i32::from(Error::from_kernel_errno(-16)), -16);
    assert_eq!(i32::from(Error::from_kernel_errno(0)), 0);
}

#[test]
fn error_is_copied_not_moved() {
    let first = Error::efault();
    let second = first;
    assert_eq!(first.to_kernel_errno(), second.to_kernel_errno());
}

#[test]
fn kernel_result_carries_the_error() {
    let failed: KernelResult<u8> = Err(Error::einval());
    let done: KernelResult<u8> = Ok(3);
    assert_eq!(failed.map_err(|e| e.to_kernel_errno()), Err(-22));
    assert_eq!(done, Ok(3));
}
