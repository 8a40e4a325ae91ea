//! The capability library that applications use: a capability is known to
//! an application by its handle, and the kernel's answers to the capability
//! system calls become plain values.
//!
//! The system calls themselves are made by the caller; these functions take
//! what the kernel answered.
use vstd::prelude::*;
use crate::errno::{Errno, errno_code};

verus! {

/// A naming capability as an application knows it: its handle in the
/// thread's capability space.
#[derive(Clone, Copy, Debug, PartialEq, Eq, Structural)]
pub struct Capability {
    handle: usize,
}

impl Capability {
    /// The handle.
    pub closed spec fn spec_handle(self) -> usize {
        self.handle
    }

    /// The capability with the given handle.
    pub fn new(handle: usize) -> (r: Self)
        ensures r.spec_handle() == handle,
    {
        Capability { handle }
    }

    /// The handle.
    pub fn handle(&self) -> (r: usize)
        ensures r == self.spec_handle(),
    {
        self.handle
    }
}

/// Whether sharing a system call succeeded, given the kernel's answer: it
/// answers 0 for success. The kernel refusing the call outright is taken to
/// be a fault, so an error does not arise here.
pub fn share_syscall(answer: Result<usize, Errno>) -> (r: bool)
    requires answer is Ok,
    ensures answer matches Ok(v) ==> r == (v == 0),
{
    match answer {
        Ok(b) => b == 0,
        Err(_) => false,
    }
}

/// The result of revoking a system call capability, given the kernel's
/// answer: the answer itself, or the error's code.
pub fn revoke(answer: Result<usize, Errno>) -> (r: isize)
    ensures
        answer matches Ok(v) ==> r == v as isize,
        answer matches Err(e) ==> r == errno_code(e),
{
    match answer {
        Ok(b) => b as isize,
        Err(e) => e.code(),
    }
}

/// The result of sharing a naming capability, given the kernel's answer:
/// the receiver's handle, or the error's code.
pub fn share_naming_object(answer: Result<usize, Errno>) -> (r: isize)
    ensures
        answer matches Ok(v) ==> r == v as isize,
        answer matches Err(e) ==> r == errno_code(e),
{
    match answer {
        Ok(b) => b as isize,
        Err(e) => e.code(),
    }
}

/// How many naming capabilities the thread holds, given the kernel's
/// answer; 0 where the kernel refused.
pub fn get_naming_len(answer: Result<usize, Errno>) -> (r: usize)
    ensures
        answer matches Ok(v) ==> r == v,
        answer is Err ==> r == 0,
{
    match answer {
        Ok(b) => b,
        Err(_) => 0,
    }
}

} // verus!
