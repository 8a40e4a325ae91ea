//! Naming objects as the kernel keeps them: the named object, the rights it
//! was opened with, a read/write position, its path and its parent's handle.
use vstd::prelude::*;
use std::sync::Arc;
use crate::capability::Capability;
use crate::flags::{CapabilityFlags, bits_contain, FLAG_READ, FLAG_WRITE, FLAG_SHARE, FLAG_EXECUTE, FLAG_TRANSFER};
use crate::options::{OpenOptions, options_contain, OPEN_READONLY, OPEN_READWRITE, OPEN_WRITEONLY, OPEN_SHARE};

verus! {

/// What kind of object a name refers to.
#[derive(Clone, Copy, Debug, PartialEq, Eq, Structural)]
pub enum ObjectType {
    File,
    Directory,
    Pipe,
}

/// An object of the file system: its kind and the number of the node that
/// holds it.
#[derive(Clone, Copy, Debug, PartialEq, Eq, Structural)]
pub struct NamedObject {
    pub kind: ObjectType,
    pub node: usize,
}

impl NamedObject {
    /// A file.
    pub fn file(node: usize) -> (r: Self)
        ensures r.kind == ObjectType::File, r.node == node,
    {
        NamedObject { kind: ObjectType::File, node }
    }

    /// A directory.
    pub fn directory(node: usize) -> (r: Self)
        ensures r.kind == ObjectType::Directory, r.node == node,
    {
        NamedObject { kind: ObjectType::Directory, node }
    }

    /// A pipe.
    pub fn pipe(node: usize) -> (r: Self)
        ensures r.kind == ObjectType::Pipe, r.node == node,
    {
        NamedObject { kind: ObjectType::Pipe, node }
    }

    pub fn is_file(&self) -> (r: bool)
        ensures r == (self.kind == ObjectType::File),
    {
        self.kind == ObjectType::File
    }

    pub fn is_dir(&self) -> (r: bool)
        ensures r == (self.kind == ObjectType::Directory),
    {
        self.kind == ObjectType::Directory
    }

    pub fn is_pipe(&self) -> (r: bool)
        ensures r == (self.kind == ObjectType::Pipe),
    {
        self.kind == ObjectType::Pipe
    }
}

/// An open object: what it names, the options it was opened with, where the
/// next read or write starts, its path, and the handle of its parent
/// directory's capability.
pub struct NamingObject {
    pub named_object: Arc<NamedObject>,
    pub access_rights: OpenOptions,
    pub position: usize,
    pub path: String,
    pub parent_handle: Option<usize>,
}

impl NamingObject {
    /// The open object for `object`, at position 0.
    fn new(object: NamedObject, rights: OpenOptions, parent: Option<usize>, path: String) -> (r: Self)
        ensures
            *r.named_object == object,
            r.access_rights == rights,
            r.path@ == path@,
            r.parent_handle == parent,
            r.position == 0,
    {
        NamingObject {
            named_object: Arc::new(object),
            access_rights: rights,
            position: 0,
            parent_handle: parent,
            path,
        }
    }
}

/// The permissions a capability on an object opened with `options` grants:
/// read where it is opened for reading or for both, write where it is opened
/// for writing or for both, share where the options allow sharing; nothing else.
pub open spec fn kernel_open_rights(options: usize) -> u32 {
    let read: u32 = if options_contain(options, OPEN_READONLY) || options_contain(options, OPEN_READWRITE) {
        FLAG_READ
    } else {
        0
    };
    let write: u32 = if options_contain(options, OPEN_WRITEONLY) || options_contain(options, OPEN_READWRITE) {
        FLAG_WRITE
    } else {
        0
    };
    let share: u32 = if options_contain(options, OPEN_SHARE) { FLAG_SHARE } else { 0 };
    read | write | share
}

/// The capability was made on an open object for `object`, opened with the
/// options `rights`, at position 0, with the given path and parent handle.
pub open spec fn made_from(c: Capability<NamingObject>, object: NamedObject, rights: usize, parent: Option<usize>, path: Seq<char>) -> bool {
    c.record() matches Some(o) && {
        &&& *o.named_object == object
        &&& o.access_rights@ == rights
        &&& o.position == 0
        &&& o.path@ == path
        &&& o.parent_handle == parent
    }
}

/// A capability on a new open object for `object`, granting what `rights`
/// asks for (see `kernel_open_rights`).
pub fn create_naming_capability(object: NamedObject, rights: OpenOptions, parent: Option<usize>, path: String) -> (r: Capability<NamingObject>)
    ensures
        r.object() is Some,
        r.rights() == kernel_open_rights(rights@),
        made_from(r, object, rights@, parent, path@),
{
    let readable = rights.contains(OpenOptions::readonly()) || rights.contains(OpenOptions::readwrite());
    let writable = rights.contains(OpenOptions::writeonly()) || rights.contains(OpenOptions::readwrite());
    let shareable = rights.contains(OpenOptions::share());
    let mut flags = CapabilityFlags::empty();
    assert(forall|x: u32| #[trigger] (x | 0u32) == x) by (bit_vector);
    if readable {
        flags.insert(CapabilityFlags::read());
    }
    if writable {
        flags.insert(CapabilityFlags::write());
    }
    if shareable {
        flags.insert(CapabilityFlags::share());
    }
    let ghost r: u32 = if readable { FLAG_READ } else { 0 };
    let ghost w: u32 = if writable { FLAG_WRITE } else { 0 };
    let ghost s: u32 = if shareable { FLAG_SHARE } else { 0 };
    assert(((0u32 | r) | w) | s == (r | w) | s) by (bit_vector);
    Capability::new(NamingObject::new(object, rights, parent, path), flags)
}


/// The permissions of a capability on an opened object follow its options,
/// each on its own: read exactly where it is opened for reading or for both,
/// write exactly where it is opened for writing or for both, share exactly
/// where the options allow sharing (whatever the read and write options are),
/// and never execute or transfer.
pub proof fn law_open_rights_follow_options(options: usize)
    ensures
        bits_contain(kernel_open_rights(options), FLAG_READ)
            <==> options & OPEN_READONLY == OPEN_READONLY || options & OPEN_READWRITE == OPEN_READWRITE,
        bits_contain(kernel_open_rights(options), FLAG_WRITE)
            <==> options & OPEN_WRITEONLY == OPEN_WRITEONLY || options & OPEN_READWRITE == OPEN_READWRITE,
        bits_contain(kernel_open_rights(options), FLAG_SHARE) <==> options & OPEN_SHARE == OPEN_SHARE,
        !bits_contain(kernel_open_rights(options), FLAG_EXECUTE),
        !bits_contain(kernel_open_rights(options), FLAG_TRANSFER),
{
    let rd: u32 = if options_contain(options, OPEN_READONLY) || options_contain(options, OPEN_READWRITE) { 1 } else { 0 };
    let wr: u32 = if options_contain(options, OPEN_WRITEONLY) || options_contain(options, OPEN_READWRITE) { 2 } else { 0 };
    let sh: u32 = if options_contain(options, OPEN_SHARE) { 8 } else { 0 };
    let k = kernel_open_rights(options);
    assert(k == rd | wr | sh);
    assert({
        &&& (k & 1 == 1 <==> rd == 1)
        &&& (k & 2 == 2 <==> wr == 2)
        &&& (k & 8 == 8 <==> sh == 8)
        &&& k & 4 != 4
        &&& k & 16 != 16
    }) by (bit_vector)
        requires
            k == rd | wr | sh,
            rd == 0 || rd == 1,
            wr == 0 || wr == 2,
            sh == 0 || sh == 8;
}

} // verus!
