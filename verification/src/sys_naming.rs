//! System calls of the naming service: they look up the caller's naming
//! capabilities, call the naming service, and turn its answer into a
//! return code.
//!
//! The caller locks its own capability space and hands it in; buffers and
//! strings arrive already read from the calling thread's memory.
use vstd::prelude::*;
use crate::capability::{Capability, grants_read};
use crate::cspace::{CSpace, lookup};
use crate::errno::{Errno, errno_code, spec_ret_code, convert_syscall_result_to_ret_code};
use crate::lock::guarded_mut;
use crate::naming_api;
use crate::naming_object::{NamedObject, NamingObject};
use crate::options::{OpenOptions, SeekOrigin, option_bits, spec_seek_origin};
use crate::naming_api::{transferred, sought, fifo_made, close_answer, RawDirent};
use vstd::string::StringSliceAdditionalSpecFns;
use vstd::utf8::{valid_utf8, encode_utf8};

verus! {

/// Wraps `core::str::from_utf8`: the text the bytes encode, exactly where
/// they are valid UTF-8.
#[verifier::external_body]
fn str_from_utf8(bytes: &[u8]) -> (r: Option<&str>)
    ensures
        r is Some <==> valid_utf8(bytes@),
        r matches Some(s) ==> s.spec_bytes() == bytes@,
{
    core::str::from_utf8(bytes).ok()
}

/// The text of a string argument, given the bytes before its terminating
/// zero; `EBADSTR` where they are not valid UTF-8.
pub fn bytes_to_string(bytes: &[u8]) -> (r: Result<String, Errno>)
    ensures
        r is Ok <==> valid_utf8(bytes@),
        r matches Ok(s) ==> encode_utf8(s@) == bytes@,
        r matches Err(e) ==> e == Errno::EBADSTR,
{
    match str_from_utf8(bytes) {
        Some(s) => Ok(String::from_str(s)),
        None => Err(Errno::EBADSTR),
    }
}

/// Stores the root directory's capability at handle 0 of the current
/// thread's space and answers 0 (see `naming_api::root` and
/// `CSpace::receive_root_naming_capability`). Where the root could not be
/// opened, the answer is its error's code; where the current space cannot be
/// locked, or holds no capability at handle 0 to replace, `EACCES`'s.
/// `flag_bits` must name open options only; the root is always opened with
/// every option.
pub fn sys_root(flag_bits: usize, current: &Capability<CSpace>, opened: Result<NamedObject, Errno>) -> (r: isize)
    requires option_bits(flag_bits),
    ensures
        opened matches Err(e) ==> r == errno_code(e),
        opened is Ok ==> r == 0 || r == errno_code(Errno::EACCES),
        opened is Ok && (!grants_read(current.rights()) || current.is_null()) ==> r == errno_code(Errno::EACCES),
{
    match naming_api::root(opened) {
        Ok(cap) => {
            if let Some(mut guard) = current.invoke() {
                let cspace = guarded_mut(&mut guard);
                if cspace.get_naming_capabilities_len() > 0 {
                    return cspace.receive_root_naming_capability(Some(cap));
                }
            }
            Errno::EACCES.code()
        },
        Err(errno) => errno.code(),
    }
}

/// Opens the object at `path` through the naming capability `cap_handle`
/// (see `naming_api::open`). The current thread's space is still locked when
/// the new capability would be stored, so storing it fails: a successful
/// open answers `EACCES`'s code, and the new capability is dropped. A failed
/// open answers its error's code; an unknown handle `EACCES`'s.
pub fn sys_open<O, C>(
    cspace: &CSpace,
    path: &String,
    flag_bits: usize,
    cap_handle: usize,
    lookup_fs: Result<NamedObject, Errno>,
    open_fs: O,
    create_file: C,
) -> (r: isize)
    where
        O: Fn(String, OpenOptions) -> Result<NamedObject, Errno>,
        C: FnOnce(NamedObject, String) -> Result<NamedObject, Errno>,
    requires
        option_bits(flag_bits),
        forall|p: String, f: OpenOptions| call_requires(open_fs, (p, f)),
        forall|d: NamedObject, n: String| call_requires(create_file, (d, n)),
    ensures
        lookup(cspace.naming_caps(), cap_handle) is None ==> r == errno_code(Errno::EACCES),
        lookup(cspace.naming_caps(), cap_handle) is Some && lookup_fs is Ok ==> r == errno_code(Errno::EEXIST),
        r < 0,
{
    let flags = match OpenOptions::from_bits(flag_bits) {
        Some(f) => f,
        None => OpenOptions::empty(),
    };
    match cspace.get_naming_capability(cap_handle) {
        Some(cap) => match naming_api::open(path, flags, cap, lookup_fs, open_fs, create_file) {
            Ok(_) => Errno::EACCES.code(),
            Err(errno) => errno.code(),
        },
        None => Errno::EACCES.code(),
    }
}

/// Reads through the naming capability `cap_handle` (see `naming_api::read`)
/// and answers the return code of the result. A missing buffer or one of
/// length 0 answers `EINVAL`'s code; an unknown handle `EACCES`'s.
pub fn sys_read<F>(cspace: &CSpace, cap_handle: usize, buffer_is_null: bool, buffer_length: usize, read_fs: F) -> (r: isize)
    where F: FnOnce(NamedObject, usize, OpenOptions) -> Result<usize, Errno>,
    requires forall|o: NamedObject, pos: usize, opts: OpenOptions| call_requires(read_fs, (o, pos, opts)),
    ensures
        buffer_is_null || buffer_length == 0 ==> r == errno_code(Errno::EINVAL),
        !(buffer_is_null || buffer_length == 0) && lookup(cspace.naming_caps(), cap_handle) is None
            ==> r == errno_code(Errno::EACCES),
        !(buffer_is_null || buffer_length == 0) && lookup(cspace.naming_caps(), cap_handle) is Some
            ==> exists|x: Result<usize, Errno>| transferred(read_fs, x) && r == spec_ret_code(x),
{
    if buffer_is_null || buffer_length == 0 {
        return Errno::EINVAL.code();
    }
    match cspace.get_naming_capability(cap_handle) {
        Some(cap) => convert_syscall_result_to_ret_code(naming_api::read(cap, read_fs)),
        None => Errno::EACCES.code(),
    }
}

/// Writes through the naming capability `cap_handle` (see
/// `naming_api::write`) and answers the return code of the result. A missing
/// buffer or one of length 0 answers `EINVAL`'s code; an unknown handle
/// `EACCES`'s.
pub fn sys_write<F>(cspace: &CSpace, cap_handle: usize, buffer_is_null: bool, buffer_length: usize, write_fs: F) -> (r: isize)
    where F: FnOnce(NamedObject, usize, OpenOptions) -> Result<usize, Errno>,
    requires forall|o: NamedObject, pos: usize, opts: OpenOptions| call_requires(write_fs, (o, pos, opts)),
    ensures
        buffer_is_null || buffer_length == 0 ==> r == errno_code(Errno::EINVAL),
        !(buffer_is_null || buffer_length == 0) && lookup(cspace.naming_caps(), cap_handle) is None
            ==> r == errno_code(Errno::EACCES),
        !(buffer_is_null || buffer_length == 0) && lookup(cspace.naming_caps(), cap_handle) is Some
            ==> exists|x: Result<usize, Errno>| transferred(write_fs, x) && r == spec_ret_code(x),
{
    if buffer_is_null || buffer_length == 0 {
        return Errno::EINVAL.code();
    }
    match cspace.get_naming_capability(cap_handle) {
        Some(cap) => convert_syscall_result_to_ret_code(naming_api::write(cap, write_fs)),
        None => Errno::EACCES.code(),
    }
}

/// Moves the position of the file behind the naming capability `cap_handle`
/// (see `naming_api::seek`); `origin` names where the offset counts from (see
/// `SeekOrigin::from_primitive`). An unknown handle answers `EACCES`'s code.
pub fn sys_seek<S>(cspace: &CSpace, cap_handle: usize, offset: usize, origin: usize, stat_size: S) -> (r: isize)
    where S: FnOnce(NamedObject) -> Result<usize, Errno>,
    requires forall|o: NamedObject| call_requires(stat_size, (o,)),
    ensures
        lookup(cspace.naming_caps(), cap_handle) is None ==> r == errno_code(Errno::EACCES),
        lookup(cspace.naming_caps(), cap_handle) is Some
            ==> exists|x: Result<usize, Errno>| sought(spec_seek_origin(origin), offset, stat_size, x) && r == spec_ret_code(x),
{
    match cspace.get_naming_capability(cap_handle) {
        Some(cap) => convert_syscall_result_to_ret_code(
            naming_api::seek(cap, offset, SeekOrigin::from_primitive(origin), stat_size)),
        None => Errno::EACCES.code(),
    }
}

/// Stores a newly made capability in `cspace` and answers its handle there;
/// where making it failed, nothing changes and the answer is the error's code.
pub fn store_capability(cspace: &mut CSpace, made: Result<Capability<NamingObject>, Errno>) -> (r: isize)
    ensures
        final(cspace).syscall_caps() == old(cspace).syscall_caps(),
        match made {
            Ok(c) => r == old(cspace).naming_caps().len() as isize
                && final(cspace).naming_caps() == old(cspace).naming_caps().push(c),
            Err(e) => r == errno_code(e) && final(cspace).naming_caps() == old(cspace).naming_caps(),
        },
{
    match made {
        Ok(cap) => cspace.receive_naming_capability(Some(cap)),
        Err(errno) => errno.code(),
    }
}

/// Closes the object behind the naming capability `cap_handle` through
/// `close_fs` (see `naming_api::close`) and answers the return code of the
/// result; an unknown handle answers `EACCES`'s code.
pub fn sys_close<F>(cspace: &CSpace, cap_handle: usize, close_fs: F) -> (r: isize)
    where F: FnOnce(NamedObject) -> Result<usize, Errno>,
    requires forall|o: NamedObject| call_requires(close_fs, (o,)),
    ensures
        r == errno_code(Errno::EACCES)
            || exists|o: NamedObject, closed: Result<usize, Errno>|
                call_ensures(close_fs, (o,), closed) && r == spec_ret_code(close_answer(closed)),
        lookup(cspace.naming_caps(), cap_handle) is None ==> r == errno_code(Errno::EACCES),
{
    match cspace.get_naming_capability(cap_handle) {
        Some(cap) => convert_syscall_result_to_ret_code(naming_api::close(cap, close_fs)),
        None => Errno::EACCES.code(),
    }
}

/// Creates the directory `path` in the directory `cap_to_dir` refers to (see
/// `naming_api::mkdir`) and stores the new capability in the current
/// thread's space (see `store_capability`), answering its handle there;
/// where the space cannot be locked, the answer is `EACCES`'s code; where
/// the directory could not be created, the code of the error `mkdir`
/// answered (`EACCES` or `ENOTDIR`).
pub fn sys_mkdir<C>(path: &str, cap_to_dir: Capability<crate::naming_object::NamingObject>, cap_handle: usize, current: &Capability<CSpace>, create_dir: C) -> (r: isize)
    where C: FnOnce(NamedObject, String) -> Result<NamedObject, Errno>,
    requires forall|d: NamedObject, n: String| call_requires(create_dir, (d, n)),
    ensures
        !grants_read(cap_to_dir.rights()) || cap_to_dir.is_null() ==> r == errno_code(Errno::EACCES),
        !grants_read(current.rights()) || current.is_null() ==> r == errno_code(Errno::EACCES) || r == errno_code(Errno::ENOTDIR),
        exists|made: Result<Capability<NamingObject>, Errno>| #[trigger] mkdir_answered(made, r),
{
    let made = naming_api::mkdir(path, cap_to_dir, cap_handle, create_dir);
    let ghost given = made;
    let r = match made {
        Ok(cap) => {
            match current.invoke() {
                Some(mut guard) => store_capability(guarded_mut(&mut guard), Ok(cap)),
                None => Errno::EACCES.code(),
            }
        },
        Err(errno) => errno.code(),
    };
    assert(mkdir_answered(given, r));
    r
}

/// Creating a directory answered `made` and the system call `r`: the error's
/// code where it failed (`EACCES` or `ENOTDIR`); where it succeeded, the
/// capability is not null.
pub open spec fn mkdir_answered(made: Result<Capability<NamingObject>, Errno>, r: isize) -> bool {
    &&& made matches Err(e) ==> (e == Errno::EACCES || e == Errno::ENOTDIR) && r == errno_code(e)
    &&& made matches Ok(c) ==> !c.is_null()
}

/// Creates an empty file `path` in the directory behind the naming
/// capability `cap_handle` (see `naming_api::touch`). The current thread's
/// space is still locked when the new capability would be stored, so storing
/// it fails: a created file answers `EACCES`'s code and its capability is
/// dropped. Where the file could not be created the answer is `EINVAL`'s
/// code; an unknown handle answers `EACCES`'s.
pub fn sys_touch<C>(cspace: &CSpace, path: &str, cap_handle: usize, create_file: C) -> (r: isize)
    where C: FnOnce(NamedObject, String) -> Result<NamedObject, Errno>,
    requires forall|d: NamedObject, n: String| call_requires(create_file, (d, n)),
    ensures
        r == errno_code(Errno::EACCES) || r == errno_code(Errno::EINVAL),
        lookup(cspace.naming_caps(), cap_handle) is None ==> r == errno_code(Errno::EACCES),
        lookup(cspace.naming_caps(), cap_handle) is Some && (path@.len() == 0 || path@.contains('/'))
            ==> r == errno_code(Errno::EINVAL),
{
    match cspace.get_naming_capability(cap_handle) {
        Some(cap) => match naming_api::touch(path, cap, create_file) {
            Ok(_) => Errno::EACCES.code(),
            Err(_) => Errno::EINVAL.code(),
        },
        None => Errno::EACCES.code(),
    }
}

/// Creates a named pipe at `path` and opens it through the directory behind
/// the naming capability `dir_cap_handle` (see `naming_api::mkfifo`); the
/// new capability is stored in the (locked) current space and its handle
/// answered. Where that fails, the answer is the error's code; an unknown
/// handle answers `EACCES`'s.
pub fn sys_mkfifo<M, O, C>(
    cspace: &mut CSpace,
    path: &str,
    flag_bits: usize,
    dir_cap_handle: usize,
    create_pipe: M,
    open_fs: O,
    create_file: C,
) -> (r: isize)
    where
        M: FnOnce(String, String) -> Result<NamedObject, Errno>,
        O: Fn(String, OpenOptions) -> Result<NamedObject, Errno>,
        C: FnOnce(NamedObject, String) -> Result<NamedObject, Errno>,
    requires
        option_bits(flag_bits),
        forall|p: String, n: String| call_requires(create_pipe, (p, n)),
        forall|p: String, f: OpenOptions| call_requires(open_fs, (p, f)),
        forall|d: NamedObject, n: String| call_requires(create_file, (d, n)),
    ensures
        final(cspace).syscall_caps() == old(cspace).syscall_caps(),
        lookup(old(cspace).naming_caps(), dir_cap_handle) is None
            ==> r == errno_code(Errno::EACCES) && final(cspace).naming_caps() == old(cspace).naming_caps(),
        lookup(old(cspace).naming_caps(), dir_cap_handle) is Some ==> exists|flags: OpenOptions, made: Result<Capability<NamingObject>, Errno>| {
            &&& flags@ == flag_bits
            &&& fifo_made(path@, flags, create_pipe, open_fs, create_file, made)
            &&& match made {
                Ok(c) => r == old(cspace).naming_caps().len() as isize
                    && final(cspace).naming_caps() == old(cspace).naming_caps().push(c),
                Err(e) => r == errno_code(e) && final(cspace).naming_caps() == old(cspace).naming_caps(),
            }
        },
{
    let flags = match OpenOptions::from_bits(flag_bits) {
        Some(f) => f,
        None => OpenOptions::empty(),
    };
    let made = match cspace.get_naming_capability(dir_cap_handle) {
        Some(dir_cap) => naming_api::mkfifo(path, flags, dir_cap, create_pipe, open_fs, create_file),
        None => return Errno::EACCES.code(),
    };
    store_capability(cspace, made)
}

/// Hands the next entry of a directory to the caller (see
/// `naming_api::readdir`) and answers the return code of the result. A
/// missing buffer, or one shorter than an entry (`dirent_size` bytes),
/// answers `EINVAL`'s code.
pub fn sys_readdir(
    buffer_is_null: bool,
    buffer_length: usize,
    dirent_size: usize,
    entry: Result<Option<(usize, Vec<u8>)>, Errno>,
    dentry: Option<&mut RawDirent>,
) -> (r: isize)
    ensures
        buffer_is_null || buffer_length == 0 || buffer_length < dirent_size ==> r == errno_code(Errno::EINVAL),
        !(buffer_is_null || buffer_length == 0 || buffer_length < dirent_size) ==> {
            &&& entry matches Err(e) ==> r == errno_code(e)
            &&& entry matches Ok(None) ==> r == 0
            &&& (entry is Ok && entry->Ok_0 is Some && dentry is Some) ==> r == 1
            &&& (entry is Ok && entry->Ok_0 is Some && dentry is None) ==> r == errno_code(Errno::EUNKN)
        },
{
    if buffer_is_null || buffer_length == 0 || buffer_length < dirent_size {
        return Errno::EINVAL.code();
    }
    convert_syscall_result_to_ret_code(naming_api::readdir(entry, dentry))
}

/// Copies the current working directory into the buffer (see
/// `naming_api::cwd`) and answers the return code of the result; a missing
/// buffer or one of length 0 answers `EINVAL`'s code.
pub fn sys_cwd(buffer_is_null: bool, buffer: &mut [u8], current: &str) -> (r: isize)
    ensures
        buffer_is_null || old(buffer)@.len() == 0 ==> r == errno_code(Errno::EINVAL) && final(buffer)@ == old(buffer)@,
{
    if buffer_is_null || buffer.len() == 0 {
        return Errno::EINVAL.code();
    }
    convert_syscall_result_to_ret_code(naming_api::cwd(current, buffer))
}

/// Changes the current working directory (see `naming_api::cd`) and answers
/// the return code of the result.
pub fn sys_cd<T>(path: &String, lookup_dir: Result<T, Errno>, cwd: &mut String) -> (r: isize)
    ensures
        lookup_dir is Ok ==> r == 0 && final(cwd)@ == path@,
        lookup_dir is Err ==> r == errno_code(Errno::ENOTDIR) && final(cwd)@ == old(cwd)@,
{
    convert_syscall_result_to_ret_code(naming_api::cd(path, lookup_dir, cwd))
}

} // verus!
