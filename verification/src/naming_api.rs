//! The naming service: opening, reading, writing and creating named objects
//! through naming capabilities, and the current working directory.
//!
//! The file system itself is a service outside this library. Where an
//! operation needs it, the caller hands in what it answered, or a function
//! that asks it; what such a function returns is not known here, and each
//! contract says what holds whatever it returned.
use vstd::prelude::*;
use crate::errno::Errno;
use crate::capability::{Capability, grants_read};
use crate::lock::{guarded, guarded_mut};
use crate::naming_object::{NamedObject, NamingObject, ObjectType, create_naming_capability, kernel_open_rights, made_from};
use crate::options::{OpenOptions, SeekOrigin, options_contain, OPEN_CREATE, OPEN_ALL};
use crate::path::{contains_slash, split_parent, spec_path_parent, spec_path_name};
use vstd::string::StringSliceAdditionalSpecFns;

verus! {

/// Whether creating the file `name` with content `data` failed, by what
/// `create_static_file` answered.
pub open spec fn creation_failed<F: Fn(&String, &Vec<u8>) -> Result<(), Errno>>(create_static_file: F, name: &String, data: &Vec<u8>, failed: bool) -> bool {
    exists|res: Result<(), Errno>| call_ensures(create_static_file, (name, data), res) && failed == res is Err
}

/// Starts the naming service: the current working directory becomes the
/// root directory. On the first start only (`first_start`), while the root
/// file system is being built, each file of the boot archive (`entries`, a
/// name and its content each) is created with `create_static_file`; the
/// answer tells, entry by entry, where creating the file failed. On a later
/// start no file is created and the answer is empty.
pub fn init<F>(cwd: &mut String, first_start: bool, entries: &Vec<(String, Vec<u8>)>, create_static_file: F) -> (failed: Vec<bool>)
    where F: Fn(&String, &Vec<u8>) -> Result<(), Errno>,
    requires forall|name: &String, data: &Vec<u8>| call_requires(create_static_file, (name, data)),
    ensures
        final(cwd)@ == seq!['/'],
        !first_start ==> failed@.len() == 0,
        first_start ==> failed@.len() == entries@.len(),
        first_start ==> forall|i: int| 0 <= i < entries@.len()
            ==> creation_failed(create_static_file, &entries@[i].0, &entries@[i].1, #[trigger] failed@[i]),
{
    let root = String::from_str("/");
    proof { reveal_strlit("/"); }
    *cwd = root;
    if !first_start {
        return Vec::new();
    }
    let mut failed: Vec<bool> = Vec::new();
    let mut i: usize = 0;
    while i < entries.len()
        invariant
            i <= entries@.len(),
            failed@.len() == i,
            forall|name: &String, data: &Vec<u8>| call_requires(create_static_file, (name, data)),
            forall|k: int| 0 <= k < i
                ==> creation_failed(create_static_file, &entries@[k].0, &entries@[k].1, #[trigger] failed@[k]),
        decreases entries@.len() - i,
    {
        let entry = &entries[i];
        let res = create_static_file(&entry.0, &entry.1);
        let ghost before = failed@;
        failed.push(res.is_err());
        assert(creation_failed(create_static_file, &entries@[i as int].0, &entries@[i as int].1, failed@[i as int]));
        assert forall|k: int| 0 <= k < i + 1
            implies creation_failed(create_static_file, &entries@[k].0, &entries@[k].1, #[trigger] failed@[k]) by {
            if k < i {
                assert(failed@[k] == before[k]);
            }
        }
        i = i + 1;
    }
    failed
}

/// The number of bytes `cwd` copies into a buffer of `buffer_len` bytes:
/// as many of the path's bytes as fit while leaving room for a terminating zero.
pub open spec fn cwd_copy_len(path_len: nat, buffer_len: nat) -> nat
    recommends buffer_len >= 1,
{
    if path_len <= buffer_len - 1 { path_len } else { (buffer_len - 1) as nat }
}

/// Copies the current working directory `current` into `buffer`, as much of it as
/// fits before a terminating zero, and answers the length of the path copied,
/// the zero not counted. The rest of the buffer is left as it was. A buffer
/// without room even for the zero is left as it was, and the answer is `EINVAL`.
pub fn cwd(current: &str, buffer: &mut [u8]) -> (r: Result<usize, Errno>)
    ensures
        old(buffer)@.len() == 0 ==> r == Err::<usize, Errno>(Errno::EINVAL) && final(buffer)@ == old(buffer)@,
        old(buffer)@.len() >= 1 ==> ({
        let n = cwd_copy_len(current.spec_bytes().len(), old(buffer)@.len());
        &&& r == Ok::<usize, Errno>(n as usize)
        &&& final(buffer)@.len() == old(buffer)@.len()
        &&& final(buffer)@.subrange(0, n as int) == current.spec_bytes().subrange(0, n as int)
        &&& final(buffer)@[n as int] == 0
        &&& final(buffer)@.subrange((n + 1) as int, old(buffer)@.len() as int)
            == old(buffer)@.subrange((n + 1) as int, old(buffer)@.len() as int)
    }),
{
    if buffer.len() == 0 {
        return Err(Errno::EINVAL);
    }
    let cwd_bytes = current.as_bytes();
    let room = buffer.len() - 1;
    let len_to_copy = if room < cwd_bytes.len() { room } else { cwd_bytes.len() };
    let ghost old_buffer = buffer@;
    let mut i: usize = 0;
    while i < len_to_copy
        invariant
            i <= len_to_copy,
            len_to_copy <= room,
            room == old_buffer.len() - 1,
            len_to_copy <= cwd_bytes@.len(),
            cwd_bytes@ == current.spec_bytes(),
            buffer@.len() == old_buffer.len(),
            forall|j: int| 0 <= j < i ==> buffer@[j] == cwd_bytes@[j],
            forall|j: int| i <= j < buffer@.len() ==> buffer@[j] == old_buffer[j],
        decreases len_to_copy - i,
    {
        buffer[i] = cwd_bytes[i];
        i = i + 1;
    }
    if buffer.len() > len_to_copy {
        buffer[len_to_copy] = 0;
    }
    assert(buffer@.subrange(0, len_to_copy as int) =~= current.spec_bytes().subrange(0, len_to_copy as int));
    assert(buffer@.subrange(len_to_copy + 1, buffer@.len() as int)
        =~= old_buffer.subrange(len_to_copy + 1, old_buffer.len() as int));
    Ok(len_to_copy)
}

/// Changes the current working directory to `path`, where the file system
/// found a directory there (`lookup` is what it answered); otherwise the
/// directory stays and the answer is `ENOTDIR`.
pub fn cd<T>(path: &String, lookup: Result<T, Errno>, cwd: &mut String) -> (r: Result<usize, Errno>)
    ensures
        lookup is Ok ==> r == Ok::<usize, Errno>(0) && final(cwd)@ == path@,
        lookup is Err ==> r == Err::<usize, Errno>(Errno::ENOTDIR) && final(cwd)@ == old(cwd)@,
{
    match lookup {
        Ok(_) => {
            *cwd = path.clone();
            Ok(0)
        },
        Err(_) => Err(Errno::ENOTDIR),
    }
}


/// The capability on the root directory, opened with every option, where the
/// file system could open `/` (`opened` is what it answered); its error otherwise.
pub fn root(opened: Result<NamedObject, Errno>) -> (r: Result<Capability<NamingObject>, Errno>)
    ensures
        match opened {
            Ok(o) => r matches Ok(c) && !c.is_null() && c.rights() == kernel_open_rights(OPEN_ALL)
                && made_from(c, o, OPEN_ALL, None, seq!['/']),
            Err(e) => r == Err::<Capability<NamingObject>, Errno>(e),
        },
{
    match opened {
        Ok(root) => {
            let path = String::from_str("/");
            proof {
                reveal_strlit("/");
                assert(path@ =~= seq!['/']);
            }
            Ok(create_naming_capability(root, OpenOptions::all(), None, path))
        },
        Err(e) => Err(e),
    }
}

/// Reads or writes the object `obj` is open on, through `transfer`, which is
/// handed the object, the position to start at and the options it was opened
/// with. A file is read or written at its position, which then moves on by
/// the number of bytes `transfer` answered (wrapping, as a release build
/// does); a pipe is read or written from position 0, and its position stays;
/// anything else answers `ENOTSUP`.
pub fn transfer_object<F>(obj: &mut NamingObject, transfer: F) -> (r: Result<usize, Errno>)
    where F: FnOnce(NamedObject, usize, OpenOptions) -> Result<usize, Errno>,
    requires forall|o: NamedObject, pos: usize, opts: OpenOptions| call_requires(transfer, (o, pos, opts)),
    ensures
        final(obj).named_object == old(obj).named_object,
        final(obj).access_rights == old(obj).access_rights,
        final(obj).path == old(obj).path,
        final(obj).parent_handle == old(obj).parent_handle,
        old(obj).named_object.kind == ObjectType::Directory
            ==> r == Err::<usize, Errno>(Errno::ENOTSUP) && final(obj).position == old(obj).position,
        old(obj).named_object.kind == ObjectType::Pipe ==> {
            &&& call_ensures(transfer, (*old(obj).named_object, 0usize, old(obj).access_rights), r)
            &&& final(obj).position == old(obj).position
        },
        old(obj).named_object.kind == ObjectType::File ==> {
            &&& call_ensures(transfer, (*old(obj).named_object, old(obj).position, old(obj).access_rights), r)
            &&& match r {
                Ok(n) => final(obj).position == old(obj).position.wrapping_add(n),
                Err(_) => final(obj).position == old(obj).position,
            }
        },
{
    let object = *obj.named_object;
    if object.is_file() {
        let pos = obj.position;
        let done = transfer(object, pos, obj.access_rights);
        if let Ok(n) = done {
            obj.position = pos.wrapping_add(n);
        }
        return done;
    }
    if object.is_pipe() {
        return transfer(object, 0, obj.access_rights);
    }
    Err(Errno::ENOTSUP)
}

/// What reading or writing through a capability can answer: `EACCES` where
/// it cannot be invoked, `ENOTSUP` for an object that is no file or pipe,
/// and otherwise what `transfer` answered.
pub open spec fn transferred<F: FnOnce(NamedObject, usize, OpenOptions) -> Result<usize, Errno>>(transfer: F, r: Result<usize, Errno>) -> bool {
    ||| r == Err::<usize, Errno>(Errno::EACCES)
    ||| r == Err::<usize, Errno>(Errno::ENOTSUP)
    ||| exists|o: NamedObject, pos: usize, opts: OpenOptions| call_ensures(transfer, (o, pos, opts), r)
}

/// Writes to the object `cap` refers to (see `transfer_object`), with
/// `write_fs` doing the writing. Where `cap` cannot be invoked, the answer
/// is `EACCES`.
pub fn write<F>(cap: &Capability<NamingObject>, write_fs: F) -> (r: Result<usize, Errno>)
    where F: FnOnce(NamedObject, usize, OpenOptions) -> Result<usize, Errno>,
    requires forall|o: NamedObject, pos: usize, opts: OpenOptions| call_requires(write_fs, (o, pos, opts)),
    ensures
        !grants_read(cap.rights()) || cap.is_null() ==> r == Err::<usize, Errno>(Errno::EACCES),
        transferred(write_fs, r),
{
    match cap.invoke() {
        Some(mut guard) => transfer_object(guarded_mut(&mut guard), write_fs),
        None => Err(Errno::EACCES),
    }
}

/// Reads from the object `cap` refers to (see `transfer_object`), with
/// `read_fs` doing the reading. Where `cap` cannot be invoked, the answer
/// is `EACCES`.
pub fn read<F>(cap: &Capability<NamingObject>, read_fs: F) -> (r: Result<usize, Errno>)
    where F: FnOnce(NamedObject, usize, OpenOptions) -> Result<usize, Errno>,
    requires forall|o: NamedObject, pos: usize, opts: OpenOptions| call_requires(read_fs, (o, pos, opts)),
    ensures
        !grants_read(cap.rights()) || cap.is_null() ==> r == Err::<usize, Errno>(Errno::EACCES),
        transferred(read_fs, r),
{
    match cap.invoke() {
        Some(mut guard) => transfer_object(guarded_mut(&mut guard), read_fs),
        None => Err(Errno::EACCES),
    }
}

/// The position a seek moves to: `offset` from the start, from the current
/// position, or from the end of an object of `size` bytes (wrapping, as a
/// release build does).
pub open spec fn seek_target(origin: SeekOrigin, offset: usize, current: usize, size: usize) -> usize {
    match origin {
        SeekOrigin::Start => offset,
        SeekOrigin::Current => current.wrapping_add(offset),
        SeekOrigin::End => size.wrapping_add(offset),
    }
}

/// Moves the position of the file `obj` is open on (see `seek_target`) and
/// answers the new position; the size of the file is asked of `stat_size`
/// where the seek counts from the end, and its error is answered where it
/// fails, the position staying. Anything but a file answers `ENOTSUP`.
pub fn seek_object<S>(obj: &mut NamingObject, offset: usize, origin: SeekOrigin, stat_size: S) -> (r: Result<usize, Errno>)
    where S: FnOnce(NamedObject) -> Result<usize, Errno>,
    requires forall|o: NamedObject| call_requires(stat_size, (o,)),
    ensures
        final(obj).named_object == old(obj).named_object,
        final(obj).access_rights == old(obj).access_rights,
        final(obj).path == old(obj).path,
        final(obj).parent_handle == old(obj).parent_handle,
        old(obj).named_object.kind != ObjectType::File
            ==> r == Err::<usize, Errno>(Errno::ENOTSUP) && final(obj).position == old(obj).position,
        old(obj).named_object.kind == ObjectType::File ==> match origin {
            SeekOrigin::End => exists|size: Result<usize, Errno>| {
                &&& call_ensures(stat_size, (*old(obj).named_object,), size)
                &&& match size {
                    Ok(n) => r == Ok::<usize, Errno>(seek_target(origin, offset, old(obj).position, n))
                        && final(obj).position == seek_target(origin, offset, old(obj).position, n),
                    Err(e) => r == Err::<usize, Errno>(e) && final(obj).position == old(obj).position,
                }
            },
            _ => r == Ok::<usize, Errno>(seek_target(origin, offset, old(obj).position, 0))
                && final(obj).position == seek_target(origin, offset, old(obj).position, 0),
        },
{
    let object = *obj.named_object;
    if object.is_file() {
        let new_pos = match origin {
            SeekOrigin::Start => offset,
            SeekOrigin::End => {
                let size = stat_size(object);
                match size {
                    Ok(n) => n.wrapping_add(offset),
                    Err(e) => return Err(e),
                }
            },
            SeekOrigin::Current => obj.position.wrapping_add(offset),
        };
        obj.position = new_pos;
        return Ok(new_pos);
    }
    Err(Errno::ENOTSUP)
}

/// Moves the position of the file `cap` refers to (see `seek_object`).
/// Where `cap` cannot be invoked, the answer is `EACCES`.
pub fn seek<S>(cap: &Capability<NamingObject>, offset: usize, origin: SeekOrigin, stat_size: S) -> (r: Result<usize, Errno>)
    where S: FnOnce(NamedObject) -> Result<usize, Errno>,
    requires forall|o: NamedObject| call_requires(stat_size, (o,)),
    ensures
        !grants_read(cap.rights()) || cap.is_null() ==> r == Err::<usize, Errno>(Errno::EACCES),
        sought(origin, offset, stat_size, r),
{
    match cap.invoke() {
        Some(mut guard) => seek_object(guarded_mut(&mut guard), offset, origin, stat_size),
        None => Err(Errno::EACCES),
    }
}

/// What seeking through a capability can answer: `EACCES` where it cannot be
/// invoked, `ENOTSUP` for an object that is no file, the offset itself for a
/// seek from the start, some position for a seek from the current one, and
/// for a seek from the end the size `stat_size` answered plus the offset, or
/// its error.
pub open spec fn sought<S: FnOnce(NamedObject) -> Result<usize, Errno>>(origin: SeekOrigin, offset: usize, stat_size: S, r: Result<usize, Errno>) -> bool {
    ||| r == Err::<usize, Errno>(Errno::EACCES)
    ||| r == Err::<usize, Errno>(Errno::ENOTSUP)
    ||| match origin {
        SeekOrigin::Start => r == Ok::<usize, Errno>(offset),
        SeekOrigin::Current => r is Ok,
        SeekOrigin::End => exists|o: NamedObject, size: Result<usize, Errno>| {
            &&& call_ensures(stat_size, (o,), size)
            &&& match size {
                Ok(n) => r == Ok::<usize, Errno>(seek_target(origin, offset, 0, n)),
                Err(e) => r == Err::<usize, Errno>(e),
            }
        },
    }
}

/// What closing an object answers, given what the file system answered
/// (`closed`): 0 where it closed the object, its error otherwise.
pub open spec fn close_answer(closed: Result<usize, Errno>) -> Result<usize, Errno> {
    match closed {
        Ok(_) => Ok(0),
        Err(e) => Err(e),
    }
}

/// Closes the object `obj` is open on, through `close_fs`, which is handed
/// that object (see `close_answer`).
pub fn close_object<F>(obj: &NamingObject, close_fs: F) -> (r: Result<usize, Errno>)
    where F: FnOnce(NamedObject) -> Result<usize, Errno>,
    requires forall|o: NamedObject| call_requires(close_fs, (o,)),
    ensures
        exists|closed: Result<usize, Errno>| call_ensures(close_fs, (*obj.named_object,), closed) && r == close_answer(closed),
{
    let closed = close_fs(*obj.named_object);
    let r = match closed {
        Ok(_) => Ok(0),
        Err(e) => Err(e),
    };
    assert(call_ensures(close_fs, (*obj.named_object,), closed) && r == close_answer(closed));
    r
}

/// Closes the object `cap` refers to (see `close_object`); where `cap`
/// cannot be invoked, the answer is `EACCES`.
pub fn close<F>(cap: &Capability<NamingObject>, close_fs: F) -> (r: Result<usize, Errno>)
    where F: FnOnce(NamedObject) -> Result<usize, Errno>,
    requires forall|o: NamedObject| call_requires(close_fs, (o,)),
    ensures
        !grants_read(cap.rights()) || cap.is_null() ==> r == Err::<usize, Errno>(Errno::EACCES),
        r == Err::<usize, Errno>(Errno::EACCES)
            || exists|o: NamedObject, closed: Result<usize, Errno>| call_ensures(close_fs, (o,), closed) && r == close_answer(closed),
{
    match cap.invoke() {
        Some(guard) => close_object(guarded(&guard), close_fs),
        None => Err(Errno::EACCES),
    }
}

/// Creates the file `name` in the directory `dir` is open on, through
/// `create_file`, where `dir` is a directory opened with the create option;
/// the new file's capability grants nothing (it is opened with no option).
/// Where the file system refuses, the answer is `ENOTDIR`; where `dir` is no
/// such directory, `EINVAL`.
pub fn touch_in<C>(dir: &NamingObject, name: &str, create_file: C) -> (r: Result<Capability<NamingObject>, Errno>)
    where C: FnOnce(NamedObject, String) -> Result<NamedObject, Errno>,
    requires forall|d: NamedObject, n: String| call_requires(create_file, (d, n)),
    ensures
        !(dir.named_object.kind == ObjectType::Directory && options_contain(dir.access_rights@, OPEN_CREATE))
            ==> r == Err::<Capability<NamingObject>, Errno>(Errno::EINVAL),
        dir.named_object.kind == ObjectType::Directory && options_contain(dir.access_rights@, OPEN_CREATE)
            ==> exists|n: String, created: Result<NamedObject, Errno>| {
                &&& n@ == name@
                &&& call_ensures(create_file, (*dir.named_object, n), created)
                &&& created matches Ok(o) ==> (r matches Ok(c) && !c.is_null() && c.rights() == kernel_open_rights(0)
                    && made_from(c, o, 0, None, name@))
                &&& created is Err ==> r == Err::<Capability<NamingObject>, Errno>(Errno::ENOTDIR)
            },
{
    let object = *dir.named_object;
    if object.is_dir() && dir.access_rights.contains(OpenOptions::create()) {
        let n = String::from_str(name);
        let created = create_file(object, n);
        return match created {
            Ok(obj) => {
                let path = String::from_str(name);
                let c = create_naming_capability(obj, OpenOptions::empty(), None, path);
                Ok(c)
            },
            Err(_) => Err(Errno::ENOTDIR),
        };
    }
    Err(Errno::EINVAL)
}

/// Creates an empty file `name` in the directory `cap` refers to (see
/// `touch_in`). An empty name, or one that holds a slash, answers `EINVAL`,
/// and so does a capability that cannot be invoked.
pub fn touch<C>(name: &str, cap: &Capability<NamingObject>, create_file: C) -> (r: Result<Capability<NamingObject>, Errno>)
    where C: FnOnce(NamedObject, String) -> Result<NamedObject, Errno>,
    requires forall|d: NamedObject, n: String| call_requires(create_file, (d, n)),
    ensures
        name@.len() == 0 || name@.contains('/') ==> r == Err::<Capability<NamingObject>, Errno>(Errno::EINVAL),
        !grants_read(cap.rights()) || cap.is_null() ==> r == Err::<Capability<NamingObject>, Errno>(Errno::EINVAL),
        r matches Ok(c) ==> !c.is_null() && c.rights() == kernel_open_rights(0)
            && exists|o: NamedObject| made_from(c, o, 0, None, name@),
        r is Ok ==> created_named(create_file, name@),
        r == Err::<Capability<NamingObject>, Errno>(Errno::ENOTDIR) ==> creation_refused(create_file, name@),
        r matches Err(e) ==> e == Errno::EINVAL || e == Errno::ENOTDIR,
{
    if name.is_empty() {
        return Err(Errno::EINVAL);
    }
    if contains_slash(name) {
        return Err(Errno::EINVAL);
    }
    match cap.invoke() {
        Some(guard) => {
            let dir = guarded(&guard);
            let r = touch_in(dir, name, create_file);
            proof {
                if r == Err::<Capability<NamingObject>, Errno>(Errno::ENOTDIR) {
                    let (n, created) = choose|n: String, created: Result<NamedObject, Errno>| {
                        &&& n@ == name@
                        &&& call_ensures(create_file, (*dir.named_object, n), created)
                        &&& created matches Ok(o) ==> (r matches Ok(c) && !c.is_null() && c.rights() == kernel_open_rights(0)
                            && made_from(c, o, 0, None, name@))
                        &&& created is Err ==> r == Err::<Capability<NamingObject>, Errno>(Errno::ENOTDIR)
                    };
                    if let Err(e) = created {
                        assert(call_ensures(create_file, (*dir.named_object, n), Err::<NamedObject, Errno>(e)));
                    }
                }
            }
            r
        },
        None => Err(Errno::EINVAL),
    }
}

/// Creates the directory `name` in the directory `parent` is open on,
/// through `create_dir`, where `parent` was opened with the create option.
/// The new directory's capability grants what opening with every option
/// grants and remembers `parent_handle`. Where the file system refuses, the
/// answer is `EACCES`; where `parent` is no directory, `ENOTDIR`; where it
/// lacks the create option, `EACCES`.
pub fn mkdir_in<C>(parent: &NamingObject, name: &str, parent_handle: usize, create_dir: C) -> (r: Result<Capability<NamingObject>, Errno>)
    where C: FnOnce(NamedObject, String) -> Result<NamedObject, Errno>,
    requires forall|d: NamedObject, n: String| call_requires(create_dir, (d, n)),
    ensures
        parent.access_rights@ & OPEN_CREATE == 0 ==> r == Err::<Capability<NamingObject>, Errno>(Errno::EACCES),
        parent.access_rights@ & OPEN_CREATE != 0 && parent.named_object.kind != ObjectType::Directory
            ==> r == Err::<Capability<NamingObject>, Errno>(Errno::ENOTDIR),
        parent.access_rights@ & OPEN_CREATE != 0 && parent.named_object.kind == ObjectType::Directory
            ==> exists|n: String, created: Result<NamedObject, Errno>| {
                &&& n@ == name@
                &&& call_ensures(create_dir, (*parent.named_object, n), created)
                &&& created matches Ok(o) ==> (r matches Ok(c) && !c.is_null() && c.rights() == kernel_open_rights(OPEN_ALL)
                    && made_from(c, o, OPEN_ALL, Some(parent_handle), name@))
                &&& created is Err ==> r == Err::<Capability<NamingObject>, Errno>(Errno::EACCES)
            },
{
    if parent.access_rights.intersects(OpenOptions::create()) {
        let object = *parent.named_object;
        if !object.is_dir() {
            return Err(Errno::ENOTDIR);
        }
        let created = create_dir(object, String::from_str(name));
        return match created {
            Ok(obj) => Ok(create_naming_capability(obj, OpenOptions::all(), Some(parent_handle), String::from_str(name))),
            Err(_) => Err(Errno::EACCES),
        };
    }
    Err(Errno::EACCES)
}

/// Creates the directory `name` in the directory `parent` refers to (see
/// `mkdir_in`). Where `parent` cannot be invoked, the answer is `EACCES`.
pub fn mkdir<C>(name: &str, parent: Capability<NamingObject>, parent_handle: usize, create_dir: C) -> (r: Result<Capability<NamingObject>, Errno>)
    where C: FnOnce(NamedObject, String) -> Result<NamedObject, Errno>,
    requires forall|d: NamedObject, n: String| call_requires(create_dir, (d, n)),
    ensures
        !grants_read(parent.rights()) || parent.is_null() ==> r == Err::<Capability<NamingObject>, Errno>(Errno::EACCES),
        r matches Ok(c) ==> !c.is_null() && c.rights() == kernel_open_rights(OPEN_ALL)
            && exists|o: NamedObject| made_from(c, o, OPEN_ALL, Some(parent_handle), name@),
        r matches Err(e) ==> e == Errno::EACCES || e == Errno::ENOTDIR,
{
    match parent.invoke() {
        Some(guard) => mkdir_in(guarded(&guard), name, parent_handle, create_dir),
        None => Err(Errno::EACCES),
    }
}


/// Whether a failed open is retried after creating the object: where the
/// options ask for creation and the object does not exist already.
pub open spec fn retries_with_create(flags: usize, error: Errno) -> bool {
    options_contain(flags, OPEN_CREATE) && error != Errno::EEXIST
}

/// `create_file` answered an object it created under the name `name`, in
/// some directory.
pub open spec fn created_named<C: FnOnce(NamedObject, String) -> Result<NamedObject, Errno>>(create_file: C, name: Seq<char>) -> bool {
    exists|d: NamedObject, n: String, o: NamedObject|
        #![trigger call_ensures(create_file, (d, n), Ok::<NamedObject, Errno>(o))]
        n@ == name && call_ensures(create_file, (d, n), Ok::<NamedObject, Errno>(o))
}

/// `create_file` was asked to create an object under the name `name`, in
/// some directory, and refused.
pub open spec fn creation_refused<C: FnOnce(NamedObject, String) -> Result<NamedObject, Errno>>(create_file: C, name: Seq<char>) -> bool {
    exists|d: NamedObject, n: String, e: Errno|
        #![trigger call_ensures(create_file, (d, n), Err::<NamedObject, Errno>(e))]
        n@ == name && call_ensures(create_file, (d, n), Err::<NamedObject, Errno>(e))
}

/// What opening `path` with `flags` answers (see `open_object`), given how
/// `open_fs` answers: where the first attempt opens the object, a capability
/// on it (see `made_from`) that grants what `flags` asks for; any capability
/// answered is one on an object `open_fs` opened at `path` with `flags`;
/// where the first attempt fails and no creation is
/// tried, its error; where creation is tried for a path that is empty or holds
/// a slash, `EINVAL`; otherwise a capability as above, answered only where
/// `create_file` first created an object of that name (see `created_named`),
/// an error of the creation step, or an error of the second attempt.
pub open spec fn opened_as<O: Fn(String, OpenOptions) -> Result<NamedObject, Errno>, C: FnOnce(NamedObject, String) -> Result<NamedObject, Errno>>(
    path: Seq<char>,
    flags: OpenOptions,
    open_fs: O,
    create_file: C,
    r: Result<Capability<NamingObject>, Errno>,
) -> bool {
    &&& r matches Ok(c) ==> !c.is_null() && c.rights() == kernel_open_rights(flags@)
    &&& r matches Ok(c) ==> exists|p: String, o: NamedObject|
        #![trigger call_ensures(open_fs, (p, flags), Ok::<NamedObject, Errno>(o))]
        p@ == path && call_ensures(open_fs, (p, flags), Ok::<NamedObject, Errno>(o))
            && made_from(c, o, flags@, None, path)
    &&& exists|p: String, first: Result<NamedObject, Errno>| {
        &&& p@ == path
        &&& call_ensures(open_fs, (p, flags), first)
        &&& reopened(path, flags, first, open_fs, create_file, r)
    }
}

/// What opening `path` with `flags` answers once the first attempt answered
/// `first` (see `open_after_first`): where it opened the object, a capability
/// on it (see `made_from`); where it failed and no creation is tried, its
/// error; where creation is tried for a path that is empty or holds a slash,
/// `EINVAL`; otherwise a capability on an object `open_fs` opened at `path`,
/// answered only where `create_file` created an object of that name (see
/// `created_named`), an error of the creation step (`ENOTDIR` only where
/// `create_file` refused, see `creation_refused`), or, after the object was
/// created, an error of the second attempt.
pub open spec fn reopened<O: Fn(String, OpenOptions) -> Result<NamedObject, Errno>, C: FnOnce(NamedObject, String) -> Result<NamedObject, Errno>>(
    path: Seq<char>,
    flags: OpenOptions,
    first: Result<NamedObject, Errno>,
    open_fs: O,
    create_file: C,
    r: Result<Capability<NamingObject>, Errno>,
) -> bool {
    &&& r matches Ok(c) ==> !c.is_null() && c.rights() == kernel_open_rights(flags@)
    &&& match first {
        Ok(o) => r matches Ok(c) && made_from(c, o, flags@, None, path),
        Err(e) => if !retries_with_create(flags@, e) {
            r == Err::<Capability<NamingObject>, Errno>(e)
        } else if path.len() == 0 || path.contains('/') {
            r == Err::<Capability<NamingObject>, Errno>(Errno::EINVAL)
        } else {
            match r {
                Ok(c) => created_named(create_file, path) && exists|p: String, o: NamedObject|
                    #![trigger call_ensures(open_fs, (p, flags), Ok::<NamedObject, Errno>(o))]
                    p@ == path && call_ensures(open_fs, (p, flags), Ok::<NamedObject, Errno>(o))
                        && made_from(c, o, flags@, None, path),
                Err(e2) => {
                    ||| e2 == Errno::EINVAL
                    ||| e2 == Errno::ENOTDIR && creation_refused(create_file, path)
                    ||| created_named(create_file, path)
                        && exists|p2: String| p2@ == path && call_ensures(open_fs, (p2, flags), Err::<NamedObject, Errno>(e2))
                },
            }
        },
    }
}

/// Opens the object at `path` with `flags`, asking `open_fs`. Where that
/// fails, the options ask for creation and the object does not exist
/// already, the object is first created with `touch` in the directory
/// `capability_to_dir` refers to, under the name `path`, and then opened
/// again. The capability on the opened object grants what `flags` asks for.
pub fn open_object<O, C>(
    path: &String,
    flags: OpenOptions,
    capability_to_dir: &Capability<NamingObject>,
    open_fs: O,
    create_file: C,
) -> (r: Result<Capability<NamingObject>, Errno>)
    where
        O: Fn(String, OpenOptions) -> Result<NamedObject, Errno>,
        C: FnOnce(NamedObject, String) -> Result<NamedObject, Errno>,
    requires
        forall|p: String, f: OpenOptions| call_requires(open_fs, (p, f)),
        forall|d: NamedObject, n: String| call_requires(create_file, (d, n)),
    ensures
        opened_as(path@, flags, open_fs, create_file, r),
{
    let p1 = path.clone();
    let ghost asked = p1;
    let first = open_fs(p1, flags);
    let r = open_after_first(path, flags, capability_to_dir, first, open_fs, create_file);
    assert(call_ensures(open_fs, (asked, flags), first));
    r
}

/// Finishes opening the object at `path` with `flags` once the first attempt
/// through `open_fs` answered `first` (see `reopened`): where it failed, the
/// options ask for creation and the object does not exist already, the object
/// is created with `touch` in the directory `capability_to_dir` refers to,
/// under the name `path`, and then opened again.
pub fn open_after_first<O, C>(
    path: &String,
    flags: OpenOptions,
    capability_to_dir: &Capability<NamingObject>,
    first: Result<NamedObject, Errno>,
    open_fs: O,
    create_file: C,
) -> (r: Result<Capability<NamingObject>, Errno>)
    where
        O: Fn(String, OpenOptions) -> Result<NamedObject, Errno>,
        C: FnOnce(NamedObject, String) -> Result<NamedObject, Errno>,
    requires
        forall|p: String, f: OpenOptions| call_requires(open_fs, (p, f)),
        forall|d: NamedObject, n: String| call_requires(create_file, (d, n)),
    ensures
        reopened(path@, flags, first, open_fs, create_file, r),
{
    let ghost mut asked_last: String = *path;
    let opened = match first {
        Ok(obj) => Ok(obj),
        Err(e) => {
            if flags.contains(OpenOptions::create()) && e != Errno::EEXIST {
                match touch(path.as_str(), capability_to_dir, create_file) {
                    Ok(_) => {
                        let p2 = path.clone();
                        proof { asked_last = p2; }
                        open_fs(p2, flags)
                    },
                    Err(e2) => Err(e2),
                }
            } else {
                Err(e)
            }
        },
    };
    match opened {
        Ok(obj) => {
            proof {
                if first is Err {
                    assert(call_ensures(open_fs, (asked_last, flags), Ok::<NamedObject, Errno>(obj)));
                }
            }
            Ok(create_naming_capability(obj, flags, None, path.clone()))
        },
        Err(e) => Err(e),
    }
}

/// Opens the object at `path` (see `open_object`), unless the file system
/// already knows a named object there (`lookup` is what it answered): then
/// the answer is `EEXIST`, since only the creator of an object receives a
/// capability on it, and hands it on by sharing.
pub fn open<O, C>(
    path: &String,
    flags: OpenOptions,
    cap_to_dir: &Capability<NamingObject>,
    lookup: Result<NamedObject, Errno>,
    open_fs: O,
    create_file: C,
) -> (r: Result<Capability<NamingObject>, Errno>)
    where
        O: Fn(String, OpenOptions) -> Result<NamedObject, Errno>,
        C: FnOnce(NamedObject, String) -> Result<NamedObject, Errno>,
    requires
        forall|p: String, f: OpenOptions| call_requires(open_fs, (p, f)),
        forall|d: NamedObject, n: String| call_requires(create_file, (d, n)),
    ensures
        lookup is Ok ==> r == Err::<Capability<NamingObject>, Errno>(Errno::EEXIST),
        lookup is Err ==> opened_as(path@, flags, open_fs, create_file, r),
{
    if lookup.is_ok() {
        return Err(Errno::EEXIST);
    }
    open_object(path, flags, cap_to_dir, open_fs, create_file)
}

/// What creating and opening a named pipe at `path` answers (see `mkfifo`):
/// `create_pipe` is asked for the last name of the path in the directory
/// before it; where it fails, `ENOTDIR`; where it succeeds, what opening the
/// path answers (see `opened_as`).
pub open spec fn fifo_made<M: FnOnce(String, String) -> Result<NamedObject, Errno>, O: Fn(String, OpenOptions) -> Result<NamedObject, Errno>, C: FnOnce(NamedObject, String) -> Result<NamedObject, Errno>>(
    path: Seq<char>,
    flags: OpenOptions,
    create_pipe: M,
    open_fs: O,
    create_file: C,
    r: Result<Capability<NamingObject>, Errno>,
) -> bool {
    &&& r matches Ok(c) ==> !c.is_null() && c.rights() == kernel_open_rights(flags@)
    &&& exists|parent: String, name: String, created: Result<NamedObject, Errno>| {
        &&& parent@ == spec_path_parent(path)
        &&& name@ == spec_path_name(path)
        &&& call_ensures(create_pipe, (parent, name), created)
        &&& created is Err ==> r == Err::<Capability<NamingObject>, Errno>(Errno::ENOTDIR)
        &&& created is Ok ==> opened_as(path, flags, open_fs, create_file, r)
    }
}

/// Creates a named pipe at `path` and opens it (see `open_object`). The
/// path is split at its last slash (see `split_parent`), and `create_pipe`
/// is asked to create a pipe of the last name in the directory before it;
/// where it fails, the answer is `ENOTDIR`.
pub fn mkfifo<M, O, C>(
    path: &str,
    flags: OpenOptions,
    cap_to_dir: &Capability<NamingObject>,
    create_pipe: M,
    open_fs: O,
    create_file: C,
) -> (r: Result<Capability<NamingObject>, Errno>)
    where
        M: FnOnce(String, String) -> Result<NamedObject, Errno>,
        O: Fn(String, OpenOptions) -> Result<NamedObject, Errno>,
        C: FnOnce(NamedObject, String) -> Result<NamedObject, Errno>,
    requires
        forall|p: String, n: String| call_requires(create_pipe, (p, n)),
        forall|p: String, f: OpenOptions| call_requires(open_fs, (p, f)),
        forall|d: NamedObject, n: String| call_requires(create_file, (d, n)),
    ensures
        fifo_made(path@, flags, create_pipe, open_fs, create_file, r),
{
    let (parent, name) = split_parent(path);
    let created = create_pipe(parent, name);
    match created {
        Ok(_) => open_object(&String::from_str(path), flags, cap_to_dir, open_fs, create_file),
        Err(_) => Err(Errno::ENOTDIR),
    }
}

/// The longest name a directory entry holds.
pub const DIRENT_NAME_MAX: usize = 255;

/// A directory entry as the caller receives it: the type of the object and
/// its name, cut to at most 255 bytes and padded with zeros.
pub struct RawDirent {
    pub d_type: usize,
    pub d_name: [u8; 256],
}

impl RawDirent {
    /// An empty entry: type 0 and a name of zeros.
    pub fn new() -> (r: Self)
        ensures
            r.d_type == 0,
            forall|i: int| 0 <= i < 256 ==> r.d_name@[i] == 0,
    {
        RawDirent { d_type: 0, d_name: [0u8; 256] }
    }
}

/// How many bytes of a name of `len` bytes a directory entry holds.
pub open spec fn dirent_name_len(len: nat) -> nat {
    if len < 255 { len } else { 255 }
}

/// Hands the next entry of a directory to the caller (`entry` is what the
/// file system answered: the entry's type and name, or that the directory
/// has no more entries). An entry is written to `dentry` with its type, the
/// first bytes of its name (at most 255) and zeros after them, and the answer
/// is 1; where there are no more entries, 0; where the caller gave no place
/// for the entry, `EUNKN`; an error of the file system is answered as it is.
pub fn readdir(entry: Result<Option<(usize, Vec<u8>)>, Errno>, dentry: Option<&mut RawDirent>) -> (r: Result<usize, Errno>)
    ensures
        entry matches Err(e) ==> r == Err::<usize, Errno>(e),
        entry matches Ok(None) ==> r == Ok::<usize, Errno>(0),
        entry matches Ok(Some(_)) && dentry is None ==> r == Err::<usize, Errno>(Errno::EUNKN),
        entry matches Ok(Some((t, name))) ==> (dentry matches Some(d) ==> {
            let n = dirent_name_len(name@.len());
            &&& r == Ok::<usize, Errno>(1)
            &&& final(d).d_type == t
            &&& final(d).d_name@.subrange(0, n as int) == name@.subrange(0, n as int)
            &&& forall|i: int| n <= i < 256 ==> final(d).d_name@[i] == 0
        }),
{
    match entry {
        Ok(Some((file_type, name))) => {
            let mut de = RawDirent::new();
            de.d_type = file_type;
            let len = if name.len() < DIRENT_NAME_MAX { name.len() } else { DIRENT_NAME_MAX };
            let mut i: usize = 0;
            while i < len
                invariant
                    i <= len,
                    len <= 255,
                    len <= name@.len(),
                    de.d_type == file_type,
                    forall|j: int| 0 <= j < i ==> de.d_name@[j] == name@[j],
                    forall|j: int| i <= j < 256 ==> de.d_name@[j] == 0,
                decreases len - i,
            {
                de.d_name[i] = name[i];
                i = i + 1;
            }
            assert(de.d_name@.subrange(0, len as int) =~= name@.subrange(0, len as int));
            match dentry {
                Some(d) => {
                    *d = de;
                    Ok(1)
                },
                None => Err(Errno::EUNKN),
            }
        },
        Ok(None) => Ok(0),
        Err(e) => Err(e),
    }
}


/// Opening with creation never skips the creation: where the first attempt
/// to open a valid name failed with an error on which creation is tried, a
/// capability comes back only where `create_file` created an object of that
/// name, and it is one on an object that `open_fs`, asked again, opened at
/// that path with those options.
pub proof fn law_open_creates_before_reopening<O, C>(
    path: Seq<char>,
    flags: OpenOptions,
    first: Result<NamedObject, Errno>,
    open_fs: O,
    create_file: C,
    r: Result<Capability<NamingObject>, Errno>,
)
    where
        O: Fn(String, OpenOptions) -> Result<NamedObject, Errno>,
        C: FnOnce(NamedObject, String) -> Result<NamedObject, Errno>,
    requires
        reopened(path, flags, first, open_fs, create_file, r),
        first matches Err(e) && options_contain(flags@, OPEN_CREATE) && e != Errno::EEXIST,
        path.len() > 0,
        !path.contains('/'),
    ensures
        r is Ok ==> exists|d: NamedObject, n: String, x: NamedObject|
            n@ == path && #[trigger] call_ensures(create_file, (d, n), Ok::<NamedObject, Errno>(x)),
        r matches Ok(c) ==> exists|p: String, o: NamedObject|
            p@ == path && #[trigger] call_ensures(open_fs, (p, flags), Ok::<NamedObject, Errno>(o))
                && (c.record() matches Some(obj) && *obj.named_object == o && obj.access_rights@ == flags@),
{
}

} // verus!
