//! The objects that capabilities refer to: system calls, and naming objects
//! as handles with a type.
use vstd::prelude::*;
use crate::capability::Capability;
use crate::flags::{CapabilityFlags, FLAG_READ, FLAG_WRITE, FLAG_ALL};
use crate::options::{OpenOptions, options_contain, OPEN_READONLY, OPEN_READWRITE, OPEN_WRITEONLY};

verus! {

/// A system call: its number and the address of the function that serves it.
pub struct Syscall {
    number: usize,
    function: usize,
}

impl Syscall {
    /// The number of the system call.
    pub closed spec fn spec_number(self) -> usize {
        self.number
    }

    /// The address of the function that serves it.
    pub closed spec fn spec_function(self) -> usize {
        self.function
    }

    /// The system call with the given number, served by the function at `function`.
    pub fn new(number: usize, function: usize) -> (r: Self)
        ensures r.spec_number() == number, r.spec_function() == function,
    {
        Syscall { number, function }
    }

    /// The address of the function that serves the call.
    pub fn function_pointer(&self) -> (r: usize)
        ensures r == self.spec_function(),
    {
        self.function
    }

    /// The number of the system call.
    pub fn number(&self) -> (r: usize)
        ensures r == self.spec_number(),
    {
        self.number
    }
}

/// What kind of object a name refers to.
#[derive(Clone, Copy, Debug, PartialEq, Eq, Structural)]
pub enum ObjectType {
    File,
    Directory,
    Pipe,
}

/// An object of the naming service, known by its handle and type.
pub struct NamingObject {
    handle: usize,
    object_type: ObjectType,
}

impl NamingObject {
    /// The handle of the object.
    pub closed spec fn spec_handle(self) -> usize {
        self.handle
    }

    /// The type of the object.
    pub closed spec fn spec_object_type(self) -> ObjectType {
        self.object_type
    }

    /// The object with the given handle and type.
    pub fn new(handle: usize, object_type: ObjectType) -> (r: Self)
        ensures r.spec_handle() == handle, r.spec_object_type() == object_type,
    {
        NamingObject { handle, object_type }
    }

    /// The handle of the object.
    pub fn handle(&self) -> (r: usize)
        ensures r == self.spec_handle(),
    {
        self.handle
    }

    /// The type of the object.
    pub fn object_type(&self) -> (r: ObjectType)
        ensures r == self.spec_object_type(),
    {
        self.object_type
    }
}

/// The permissions that opening with `options` grants: read where the object
/// is opened for reading, writing or both, and write where it is opened for
/// writing or for both; nothing else. Reading comes with writing, since a
/// capability without read permission cannot be invoked at all.
pub open spec fn open_rights(options: usize) -> u32 {
    let readable = options_contain(options, OPEN_READONLY) || options_contain(options, OPEN_READWRITE)
        || options_contain(options, OPEN_WRITEONLY);
    let writable = options_contain(options, OPEN_READWRITE) || options_contain(options, OPEN_WRITEONLY);
    if readable && writable {
        FLAG_READ | FLAG_WRITE
    } else if readable {
        FLAG_READ
    } else {
        0
    }
}

proof fn lemma_read_write_union()
    ensures
        0u32 | FLAG_READ == FLAG_READ,
        0u32 | (FLAG_READ | FLAG_WRITE) == FLAG_READ | FLAG_WRITE,
        FLAG_READ | FLAG_READ == FLAG_READ,
        FLAG_READ | (FLAG_READ | FLAG_WRITE) == FLAG_READ | FLAG_WRITE,
        (FLAG_READ | FLAG_WRITE) | FLAG_READ == FLAG_READ | FLAG_WRITE,
        (FLAG_READ | FLAG_WRITE) | (FLAG_READ | FLAG_WRITE) == FLAG_READ | FLAG_WRITE,
        FLAG_READ | FLAG_WRITE <= FLAG_ALL,
{
    assert(0u32 | 1u32 == 1u32) by (bit_vector);
    assert(0u32 | 3u32 == 3u32) by (bit_vector);
    assert(1u32 | 1u32 == 1u32) by (bit_vector);
    assert(1u32 | 3u32 == 3u32) by (bit_vector);
    assert(3u32 | 1u32 == 3u32) by (bit_vector);
    assert(3u32 | 3u32 == 3u32) by (bit_vector);
    assert(1u32 | 2u32 == 3u32) by (bit_vector);
}

/// A capability on a new naming object with the given handle and type,
/// granting what `options` asks for (see `open_rights`).
pub fn create_naming_capability(handle: usize, object_type: ObjectType, options: OpenOptions) -> (r: Capability<NamingObject>)
    ensures
        r.object() is Some,
        r.rights() == open_rights(options@),
        r.record() matches Some(o) && o.spec_handle() == handle && o.spec_object_type() == object_type,
{
    proof { lemma_read_write_union(); }
    let mut flags = CapabilityFlags::empty();
    let read_write = CapabilityFlags::read().union(CapabilityFlags::write());
    if options.contains(OpenOptions::readonly()) {
        flags.insert(CapabilityFlags::read());
    }
    if options.contains(OpenOptions::readwrite()) {
        flags.insert(read_write);
    }
    if options.contains(OpenOptions::writeonly()) {
        flags.insert(read_write);
    }
    Capability::new(NamingObject::new(handle, object_type), flags)
}

} // verus!
