//! How a named object is opened, and where a seek counts from.
use vstd::prelude::*;

verus! {

/// Open for reading only.
pub const OPEN_READONLY: usize = 0x001;
/// Open for writing only.
pub const OPEN_WRITEONLY: usize = 0x002;
/// Open for reading and writing.
pub const OPEN_READWRITE: usize = 0x004;
/// Create the object where it does not exist.
pub const OPEN_CREATE: usize = 0x008;
/// Fail where the object exists.
pub const OPEN_EXCLUSIVE: usize = 0x010;
/// Do not hand the object on to children.
pub const OPEN_NOINHERIT: usize = 0x020;
/// Empty the object on opening.
pub const OPEN_TRUNCATE: usize = 0x040;
/// Write at the end.
pub const OPEN_APPEND: usize = 0x080;
/// The object is a directory.
pub const OPEN_DIRECTORY: usize = 0x100;
/// The capability to the object may be shared.
pub const OPEN_SHARE: usize = 0x200;
/// Every option bit.
pub const OPEN_ALL: usize = 0x3ff;

/// No bit outside the option bits is set in `b`.
pub open spec fn option_bits(b: usize) -> bool {
    b & !OPEN_ALL == 0
}

/// The bits of `a` include every bit of `b`.
pub open spec fn options_contain(a: usize, b: usize) -> bool {
    a & b == b
}

/// A set of open options, kept as the bits of a `usize`.
#[derive(Clone, Copy, Debug, PartialEq, Eq, Structural)]
pub struct OpenOptions {
    bits: usize,
}

impl View for OpenOptions {
    type V = usize;

    closed spec fn view(&self) -> usize {
        self.bits
    }
}

impl OpenOptions {
    /// The set holds only option bits.
    pub open spec fn wf(self) -> bool {
        option_bits(self@)
    }

    /// Every set of options holds only option bits.
    #[verifier::type_invariant]
    closed spec fn inv(self) -> bool {
        self.wf()
    }

    fn from_literal(b: usize) -> (r: Self)
        requires b <= OPEN_ALL,
        ensures r@ == b, r.wf(),
    {
        assert(b <= OPEN_ALL ==> b & !OPEN_ALL == 0) by (bit_vector);
        OpenOptions { bits: b }
    }

    /// No option.
    pub fn empty() -> (r: Self)
        ensures r@ == 0, r.wf(),
    {
        Self::from_literal(0)
    }

    /// Every option.
    pub fn all() -> (r: Self)
        ensures r@ == OPEN_ALL, r.wf(),
    {
        Self::from_literal(OPEN_ALL)
    }

    /// Read only.
    pub fn readonly() -> (r: Self)
        ensures r@ == OPEN_READONLY, r.wf(),
    {
        Self::from_literal(OPEN_READONLY)
    }

    /// Write only.
    pub fn writeonly() -> (r: Self)
        ensures r@ == OPEN_WRITEONLY, r.wf(),
    {
        Self::from_literal(OPEN_WRITEONLY)
    }

    /// Read and write.
    pub fn readwrite() -> (r: Self)
        ensures r@ == OPEN_READWRITE, r.wf(),
    {
        Self::from_literal(OPEN_READWRITE)
    }

    /// Create.
    pub fn create() -> (r: Self)
        ensures r@ == OPEN_CREATE, r.wf(),
    {
        Self::from_literal(OPEN_CREATE)
    }

    /// Directory.
    pub fn directory() -> (r: Self)
        ensures r@ == OPEN_DIRECTORY, r.wf(),
    {
        Self::from_literal(OPEN_DIRECTORY)
    }

    /// Share.
    pub fn share() -> (r: Self)
        ensures r@ == OPEN_SHARE, r.wf(),
    {
        Self::from_literal(OPEN_SHARE)
    }

    /// The raw bits.
    pub fn bits(&self) -> (r: usize)
        ensures r == self@, option_bits(r),
    {
        proof { use_type_invariant(self); }
        self.bits
    }

    /// The set with exactly the given bits, or `None` where a bit is not an option.
    pub fn from_bits(bits: usize) -> (r: Option<Self>)
        ensures
            r is Some <==> option_bits(bits),
            r matches Some(o) ==> o@ == bits && o.wf(),
    {
        if bits & !OPEN_ALL == 0 {
            Some(OpenOptions { bits })
        } else {
            None
        }
    }

    /// Whether every option of `other` is in `self`.
    pub fn contains(&self, other: Self) -> (r: bool)
        ensures r == options_contain(self@, other@),
    {
        self.bits & other.bits == other.bits
    }

    /// Whether the two sets share an option.
    pub fn intersects(&self, other: Self) -> (r: bool)
        ensures r == (self@ & other@ != 0),
    {
        self.bits & other.bits != 0
    }

    /// The options in either set.
    pub fn union(self, other: Self) -> (r: Self)
        ensures r@ == self@ | other@, r.wf(),
    {
        proof {
            use_type_invariant(&self);
            use_type_invariant(&other);
        }
        let a = self.bits;
        let b = other.bits;
        assert((a | b) & !OPEN_ALL == 0) by (bit_vector)
            requires a & !OPEN_ALL == 0, b & !OPEN_ALL == 0;
        OpenOptions { bits: a | b }
    }
}

/// Where a seek offset counts from.
#[derive(Clone, Copy, Debug, PartialEq, Eq, Structural)]
pub enum SeekOrigin {
    /// The start of the object.
    Start,
    /// The current position.
    Current,
    /// The end of the object.
    End,
}

/// The origin a system call argument names: 1 is the current position,
/// 2 the end, and every other number the start.
pub open spec fn spec_seek_origin(v: usize) -> SeekOrigin {
    if v == 1 {
        SeekOrigin::Current
    } else if v == 2 {
        SeekOrigin::End
    } else {
        SeekOrigin::Start
    }
}

impl SeekOrigin {
    /// The origin that a system call argument names.
    pub fn from_primitive(v: usize) -> (r: SeekOrigin)
        ensures r == spec_seek_origin(v),
    {
        if v == 1 {
            SeekOrigin::Current
        } else if v == 2 {
            SeekOrigin::End
        } else {
            SeekOrigin::Start
        }
    }
}

} // verus!
