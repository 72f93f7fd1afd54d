//! The kernel's error codes as a typed value.
//!
//! The kernel reports failure as a negative integer: the negation of one of
//! its error numbers. [`Error`] carries such a code across the typed
//! interfaces of this crate and hands it back unchanged where a result
//! returns to the kernel.

use vstd::prelude::*;
use vstd::std_specs::convert::FromSpecImpl;

verus! {

/// The kernel's number for an invalid argument.
pub const EINVAL: i32 = 22;

/// The kernel's number for exhausted memory.
pub const ENOMEM: i32 = 12;

/// The kernel's number for a bad address.
pub const EFAULT: i32 = 14;

/// An error code of the kernel.
///
/// The type is a carrier, not a validator: it holds whatever integer it was
/// made from. The codes that the kernel hands out are negative; a layer that
/// originates an error picks the code itself, for instance [`Error::enomem`].
#[derive(Clone, Copy, Debug, PartialEq, Eq, Structural)]
pub struct Error(i32);

/// What the fallible operations of this crate return.
pub type KernelResult<T> = Result<T, Error>;

impl View for Error {
    type V = int;

    /// The code as a mathematical integer.
    open spec fn view(&self) -> int {
        self.spec_to_kernel_errno() as int
    }
}

impl Error {
    /// The error that carries `errno`.
    pub closed spec fn spec_from_kernel_errno(errno: i32) -> Error {
        Error(errno)
    }

    /// The code that an error carries.
    pub closed spec fn spec_to_kernel_errno(&self) -> i32 {
        self.0
    }

    /// A code that was wrapped comes back as it went in.
    pub proof fn lemma_errno_round_trip(errno: i32)
        ensures
            Error::spec_from_kernel_errno(errno).spec_to_kernel_errno() == errno,
    {
    }

    /// An error is nothing but its code: wrapping the code of `err` gives `err`
    /// again, so two errors with the same code are equal.
    pub proof fn lemma_error_is_its_code(err: Error)
        ensures
            Error::spec_from_kernel_errno(err.spec_to_kernel_errno()) == err,
    {
    }

    /// Invalid argument: the code `-EINVAL`.
    pub fn einval() -> (err: Error)
        ensures
            err == Error::spec_from_kernel_errno((-EINVAL) as i32),
            err@ == -EINVAL,
    {
        Error(-EINVAL)
    }

    /// Out of memory: the code `-ENOMEM`.
    pub fn enomem() -> (err: Error)
        ensures
            err == Error::spec_from_kernel_errno((-ENOMEM) as i32),
            err@ == -ENOMEM,
    {
        Error(-ENOMEM)
    }

    /// Bad address: the code `-EFAULT`.
    pub fn efault() -> (err: Error)
        ensures
            err == Error::spec_from_kernel_errno((-EFAULT) as i32),
            err@ == -EFAULT,
    {
        Error(-EFAULT)
    }

    /// Wraps a code that the kernel returned. Every integer is accepted, none
    /// is changed.
    pub fn from_kernel_errno(errno: i32) -> (err: Error)
        ensures
            err == Error::spec_from_kernel_errno(errno),
            err@ == errno,
    {
        Error(errno)
    }

    /// The code to hand back to the kernel: the integer this value was made
    /// from.
    #[verifier::when_used_as_spec(spec_to_kernel_errno)]
    pub fn to_kernel_errno(&self) -> (errno: i32)
        ensures
            errno == self.spec_to_kernel_errno(),
            errno == self@,
    {
        self.0
    }
}

impl From<Error> for i32 {
    /// The code to hand back to the kernel, as [`Error::to_kernel_errno`]
    /// gives it.
    fn from(err: Error) -> (errno: i32) {
        err.to_kernel_errno()
    }
}

impl FromSpecImpl<Error> for i32 {
    open spec fn obeys_from_spec() -> bool {
        true
    }

    open spec fn from_spec(err: Error) -> i32 {
        err.spec_to_kernel_errno()
    }
}

} // verus!
