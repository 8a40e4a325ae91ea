//! Error numbers that system calls hand back, and how results become return codes.
use vstd::prelude::*;

verus! {

/// The errors of the naming service and of system calls.
#[derive(Clone, Copy, Debug, PartialEq, Eq, Structural)]
pub enum Errno {
    /// Unknown error.
    EUNKN,
    /// No such file or directory.
    ENOENT,
    /// Permission denied.
    EACCES,
    /// The object exists already.
    EEXIST,
    /// Not a directory.
    ENOTDIR,
    /// Invalid argument.
    EINVAL,
    /// Operation not supported on this object.
    ENOTSUP,
    /// A string argument is not valid.
    EBADSTR,
}

/// The return code of each error: always negative.
pub open spec fn errno_code(e: Errno) -> int {
    match e {
        Errno::EUNKN => -1,
        Errno::ENOENT => -2,
        Errno::EACCES => -13,
        Errno::EEXIST => -17,
        Errno::ENOTDIR => -20,
        Errno::EINVAL => -22,
        Errno::ENOTSUP => -95,
        Errno::EBADSTR => -100,
    }
}

impl Errno {
    /// The return code of the error, as a system call hands it back.
    pub fn code(self) -> (r: isize)
        ensures r == errno_code(self), r < 0,
    {
        match self {
            Errno::EUNKN => -1,
            Errno::ENOENT => -2,
            Errno::EACCES => -13,
            Errno::EEXIST => -17,
            Errno::ENOTDIR => -20,
            Errno::EINVAL => -22,
            Errno::ENOTSUP => -95,
            Errno::EBADSTR => -100,
        }
    }

    /// The error whose return code is `code`, if any.
    pub fn from_code(code: isize) -> (r: Option<Errno>)
        ensures
            r matches Some(e) ==> errno_code(e) == code,
            r is None ==> forall|e: Errno| errno_code(e) != code,
    {
        if code == -1 { Some(Errno::EUNKN) }
        else if code == -2 { Some(Errno::ENOENT) }
        else if code == -13 { Some(Errno::EACCES) }
        else if code == -17 { Some(Errno::EEXIST) }
        else if code == -20 { Some(Errno::ENOTDIR) }
        else if code == -22 { Some(Errno::EINVAL) }
        else if code == -95 { Some(Errno::ENOTSUP) }
        else if code == -100 { Some(Errno::EBADSTR) }
        else { None }
    }
}

/// Distinct errors have distinct return codes.
pub proof fn lemma_errno_code_injective(a: Errno, b: Errno)
    ensures errno_code(a) == errno_code(b) ==> a == b,
{
}

/// The return code of a system call's result: the value itself for success,
/// the error's code for failure.
pub open spec fn spec_ret_code(r: Result<usize, Errno>) -> int {
    match r {
        Ok(v) => (v as isize) as int,
        Err(e) => errno_code(e),
    }
}

/// Turns the result of a system call into the number handed back to the caller.
pub fn convert_syscall_result_to_ret_code(r: Result<usize, Errno>) -> (code: isize)
    ensures code == spec_ret_code(r),
{
    match r {
        Ok(v) => v as isize,
        Err(e) => e.code(),
    }
}

/// Turns a system call's return code back into its result: a negative code
/// of a known error is that error; any other code is a success.
pub fn convert_ret_code_to_syscall_result(code: isize) -> (r: Result<usize, Errno>)
    ensures
        code >= 0 ==> r == Ok::<usize, Errno>(code as usize),
        code < 0 ==> match r {
            Err(e) => errno_code(e) == code,
            Ok(v) => v == code as usize && forall|e: Errno| errno_code(e) != code,
        },
{
    if code >= 0 {
        Ok(code as usize)
    } else {
        match Errno::from_code(code) {
            Some(e) => Err(e),
            None => Ok(code as usize),
        }
    }
}

/// A success value that fits in `isize` comes back unchanged from its return
/// code, and so does every error.
pub proof fn lemma_ret_code_round_trip(r: Result<usize, Errno>)
    requires r matches Ok(v) ==> v <= isize::MAX,
    ensures
        spec_ret_code(r) >= 0 <==> r is Ok,
        r matches Ok(v) ==> spec_ret_code(r) as usize == v,
{
}

} // verus!
