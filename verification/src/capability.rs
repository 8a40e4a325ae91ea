//! A capability: a shared handle on a locked object, with the permissions
//! that its holder has on it.
use vstd::prelude::*;
use std::sync::Arc;
use crate::flags::{CapabilityFlags, bits_contain, lemma_contain_transitive, FLAG_READ, FLAG_WRITE, FLAG_EXECUTE, FLAG_SHARE, FLAG_TRANSFER, FLAG_ALL};
use crate::lock::{new_mutex, try_lock, same_allocation};

verus! {

/// A handle on an object together with the permissions it grants.
/// A null capability refers to nothing and grants nothing.
#[verifier::reject_recursive_types(T)]
pub struct Capability<T> {
    obj: Option<Arc<spin::Mutex<T>>>,
    flags: CapabilityFlags,
    made: Ghost<Option<T>>,
}

/// The bits of `flags` include read permission.
pub open spec fn grants_read(flags: u32) -> bool {
    bits_contain(flags, FLAG_READ)
}

impl<T> Capability<T> {
    /// The object the capability refers to, `None` for a null capability.
    pub closed spec fn object(self) -> Option<Arc<spin::Mutex<T>>> {
        self.obj
    }

    /// The permissions the capability grants.
    pub closed spec fn permissions(self) -> CapabilityFlags {
        self.flags
    }

    /// The value the capability's object was made with, `None` for a null
    /// capability. Copies made by sharing, transferring or joining keep it.
    /// It is the value at creation: what the object holds later, behind its
    /// lock, may have changed since.
    pub closed spec fn record(self) -> Option<T> {
        self.made@
    }

    /// The permission bits the capability grants.
    pub open spec fn rights(self) -> u32 {
        self.permissions()@
    }

    /// A null capability grants no permission; only permission bits are set.
    #[verifier::type_invariant]
    closed spec fn inv(self) -> bool {
        &&& self.obj is None ==> self.flags@ == 0
        &&& self.obj is None <==> self.made@ is None
    }

    /// The capability is null.
    pub open spec fn is_null(self) -> bool {
        self.object() is None
    }

    /// Whether the capability refers to nothing.
    pub fn is_none(&self) -> (r: bool)
        ensures r == self.is_null(), r == (self.record() is None),
    {
        proof { use_type_invariant(self); }
        self.obj.is_none()
    }

    /// A capability on a new object, granting `flags`.
    pub fn new(obj: T, flags: CapabilityFlags) -> (r: Self)
        ensures
            r.object() is Some,
            r.permissions() == flags,
            r.record() == Some(obj),
    {
        let ghost made = obj;
        Capability { obj: Some(Arc::new(new_mutex(obj))), flags, made: Ghost(Some(made)) }
    }

    /// Whether the capability grants every permission of `flags`.
    pub fn has_permissions(&self, flags: CapabilityFlags) -> (r: bool)
        ensures r == self.permissions().has(flags),
    {
        self.flags.contains(flags)
    }

    /// The permissions the capability grants.
    pub fn get_permissions(&self) -> (r: CapabilityFlags)
        ensures r == self.permissions(),
    {
        self.flags
    }

    /// Locks the object for use. Without read permission, or on a null
    /// capability, this gives `None`; otherwise the lock is tried, and `None`
    /// comes back when another holder has it.
    pub fn invoke(&self) -> (r: Option<spin::MutexGuard<'_, T>>)
        ensures
            !grants_read(self.rights()) ==> r is None,
            self.is_null() ==> r is None,
    {
        if !self.flags.contains(CapabilityFlags::read()) {
            return None;
        }
        match &self.obj {
            Some(m) => try_lock(&**m),
            None => None,
        }
    }

    /// A copy of the capability on the same object, granting the permissions
    /// of `new_flags` that this one grants too. Given only where this one
    /// grants share permission and is not null.
    pub fn share(&self, new_flags: CapabilityFlags) -> (r: Option<Capability<T>>)
        ensures
            r is Some <==> bits_contain(self.rights(), FLAG_SHARE) && !self.is_null(),
            r matches Some(c) ==> c.object() == self.object() && c.rights() == new_flags@ & self.rights()
                && c.record() == self.record(),
    {
        proof { use_type_invariant(self); }
        if !self.has_permissions(CapabilityFlags::share()) {
            return None;
        }
        match &self.obj {
            Some(arc) => {
                let flags = new_flags.intersection(self.flags);
                Some(Capability { obj: Some(Arc::clone(arc)), flags, made: Ghost(self.made@) })
            },
            None => None,
        }
    }

    /// Moves the capability away with the permissions `new_flags`, which must
    /// all be granted by this one. On success this capability becomes null.
    /// Without transfer permission, with a permission this one lacks, or on a
    /// null capability, nothing happens and `None` comes back.
    pub fn transfer(&mut self, new_flags: CapabilityFlags) -> (r: Option<Capability<T>>)
        ensures
            r is Some <==> bits_contain(old(self).rights(), FLAG_TRANSFER)
                && bits_contain(old(self).rights(), new_flags@) && !old(self).is_null(),
            r matches Some(c) ==> c.object() == old(self).object() && c.permissions() == new_flags
                && c.record() == old(self).record()
                && final(self).is_null() && final(self).rights() == 0 && final(self).record() is None,
            r is None ==> *final(self) == *old(self),
    {
        proof { use_type_invariant(&*self); }
        if !self.has_permissions(CapabilityFlags::transfer()) {
            return None;
        }
        if !self.flags.contains(new_flags) {
            return None;
        }
        let new_cap = match &self.obj {
            Some(arc) => Some(Capability { obj: Some(Arc::clone(arc)), flags: new_flags, made: Ghost(self.made@) }),
            None => None,
        };
        if new_cap.is_some() {
            self.revoke();
        }
        new_cap
    }

    /// Makes the capability null: it refers to nothing and grants nothing.
    pub fn revoke(&mut self)
        ensures final(self).is_null(), final(self).rights() == 0, final(self).record() is None,
    {
        *self = Capability::null();
    }

    /// Takes the permissions of `flags` away; the object stays.
    pub fn remove_permissions(&mut self, flags: CapabilityFlags)
        ensures
            final(self).object() == old(self).object(),
            final(self).rights() == old(self).rights() & !flags@,
            final(self).record() == old(self).record(),
    {
        proof { use_type_invariant(&*self); }
        let f = self.flags.difference(flags);
        let ghost a = self.flags@;
        let ghost b = flags@;
        assert(a == 0 ==> a & !b == 0) by (bit_vector);
        self.flags = f;
    }

    /// Joins two capabilities on the same object into one that grants the
    /// permissions of both. `None` where either is null or they refer to
    /// different objects (see `combined`).
    pub fn combine(&self, other: &Capability<T>) -> (r: Option<Capability<T>>)
        ensures
            combined(*self, *other, r),
            r is Some <==> !self.is_null() && !other.is_null() && self.object() == other.object(),
            r matches Some(c) ==> c.object() == self.object() && self.object() == other.object()
                && c.rights() == self.rights() | other.rights() && c.record() == self.record(),
    {
        match (&self.obj, &other.obj) {
            (Some(a), Some(b)) => {
                let same = same_allocation(a, b);
                self.merge(other, same)
            },
            _ => None,
        }
    }

    /// Whether the two capabilities refer to one and the same object: never
    /// where either is null.
    pub fn same_object(&self, other: &Capability<T>) -> (r: bool)
        ensures
            r <==> !self.is_null() && !other.is_null() && self.object() == other.object(),
    {
        match (&self.obj, &other.obj) {
            (Some(a), Some(b)) => same_allocation(a, b),
            _ => false,
        }
    }

    /// What `combine` gives once it is known whether the two capabilities
    /// refer to one object: the joined capability where `same_object` holds
    /// and neither is null, `None` otherwise.
    pub fn merge(&self, other: &Capability<T>, same_object: bool) -> (r: Option<Capability<T>>)
        requires same_object ==> self.object() == other.object(),
        ensures
            r is Some <==> same_object && !self.is_null() && !other.is_null(),
            r matches Some(c) ==> c.object() == self.object() && c.rights() == self.rights() | other.rights()
                && c.record() == self.record(),
    {
        proof {
            use_type_invariant(self);
            use_type_invariant(other);
        }
        if !same_object {
            return None;
        }
        match &self.obj {
            Some(a) => {
                if other.obj.is_none() {
                    return None;
                }
                let flags = self.flags.union(other.flags);
                Some(Capability { obj: Some(Arc::clone(a)), flags, made: Ghost(self.made@) })
            },
            None => None,
        }
    }

    fn with_flags(obj: T, bits: u32) -> (r: Self)
        requires bits <= FLAG_ALL,
        ensures r.object() is Some, r.rights() == bits, r.record() == Some(obj),
    {
        let f = CapabilityFlags::from_bits_truncate(bits);
        assert(bits <= FLAG_ALL ==> bits & FLAG_ALL == bits) by (bit_vector);
        Self::new(obj, f)
    }

    /// A capability granting read permission only.
    pub fn readonly(obj: T) -> (r: Self)
        ensures r.object() is Some, r.rights() == FLAG_READ, r.record() == Some(obj),
    {
        Self::with_flags(obj, FLAG_READ)
    }

    /// A capability granting read and write permission.
    pub fn readwrite(obj: T) -> (r: Self)
        ensures r.object() is Some, r.rights() == FLAG_READ | FLAG_WRITE, r.record() == Some(obj),
    {
        assert(FLAG_READ | FLAG_WRITE <= FLAG_ALL) by (bit_vector);
        Self::with_flags(obj, FLAG_READ | FLAG_WRITE)
    }

    /// A capability granting read and share permission.
    pub fn shareable(obj: T) -> (r: Self)
        ensures r.object() is Some, r.rights() == FLAG_READ | FLAG_SHARE, r.record() == Some(obj),
    {
        assert(FLAG_READ | FLAG_SHARE <= FLAG_ALL) by (bit_vector);
        Self::with_flags(obj, FLAG_READ | FLAG_SHARE)
    }

    /// A capability granting read and transfer permission.
    pub fn transferable(obj: T) -> (r: Self)
        ensures r.object() is Some, r.rights() == FLAG_READ | FLAG_TRANSFER, r.record() == Some(obj),
    {
        assert(FLAG_READ | FLAG_TRANSFER <= FLAG_ALL) by (bit_vector);
        Self::with_flags(obj, FLAG_READ | FLAG_TRANSFER)
    }

    /// A capability granting every permission.
    pub fn full_access(obj: T) -> (r: Self)
        ensures r.object() is Some, r.rights() == FLAG_ALL, r.record() == Some(obj),
    {
        Self::with_flags(obj, FLAG_ALL)
    }

    /// The null capability.
    pub fn null() -> (r: Self)
        ensures r.is_null(), r.rights() == 0, r.record() is None,
    {
        Capability { obj: None, flags: CapabilityFlags::empty(), made: Ghost(None) }
    }

    /// A capability on a system call: read, execute and share permission.
    pub fn syscall(obj: T) -> (r: Self)
        ensures r.object() is Some, r.rights() == FLAG_READ | FLAG_EXECUTE | FLAG_SHARE, r.record() == Some(obj),
    {
        assert(FLAG_READ | FLAG_EXECUTE | FLAG_SHARE <= FLAG_ALL) by (bit_vector);
        Self::with_flags(obj, FLAG_READ | FLAG_EXECUTE | FLAG_SHARE)
    }
}

/// What joining `a` and `b` answers: a capability on their common object
/// granting the permissions of both, made with `a`'s value, where neither is
/// null and both refer to one object; `None` otherwise.
pub open spec fn combined<T>(a: Capability<T>, b: Capability<T>, r: Option<Capability<T>>) -> bool {
    if !a.is_null() && !b.is_null() && a.object() == b.object() {
        r matches Some(c) && c.object() == a.object() && c.rights() == a.rights() | b.rights()
            && c.record() == a.record()
    } else {
        r is None
    }
}

/// Joining two capabilities succeeds exactly on two capabilities, neither
/// null, on one object, whatever permissions they grant; the joined one
/// refers to that object and grants each permission of either, and no other.
pub proof fn law_combine_on_one_object<T>(a: Capability<T>, b: Capability<T>, r: Option<Capability<T>>)
    requires combined(a, b, r),
    ensures
        r is Some <==> !a.is_null() && !b.is_null() && a.object() == b.object(),
        r matches Some(c) ==> {
            &&& c.object() == a.object() && c.object() == b.object()
            &&& bits_contain(c.rights(), a.rights())
            &&& bits_contain(c.rights(), b.rights())
            &&& forall|bit: u32| #[trigger] bits_contain(c.rights(), bit)
                ==> bits_contain(a.rights() | b.rights(), bit)
        },
{
    if let Some(c) = r {
        crate::flags::lemma_union_covers(a.rights(), b.rights());
    }
}

/// A shared capability never grants a permission that the capability it was
/// shared from lacks, whatever permissions were asked for.
pub proof fn law_share_within_source(held: u32, requested: u32)
    ensures bits_contain(held, requested & held),
{
    assert(held & (requested & held) == requested & held) by (bit_vector);
}

/// Sharing a capability with its own permissions hands on exactly those permissions.
pub proof fn law_share_with_own_permissions(held: u32)
    ensures held & held == held,
{
    assert(held & held == held) by (bit_vector);
}

/// However often a capability is shared on, each copy grants no more than
/// the one it was shared from, and so no more than the first.
pub proof fn law_shares_never_escalate(held: u32, first: u32, second: u32)
    ensures
        bits_contain(held, first & held),
        bits_contain(first & held, second & (first & held)),
        bits_contain(held, second & (first & held)),
{
    law_share_within_source(held, first);
    law_share_within_source(first & held, second);
    lemma_contain_transitive(held, first & held, second & (first & held));
}

/// Joining two capabilities grants every permission of each, nothing else,
/// and does not depend on the order of the two.
pub proof fn law_combine_is_union(a: u32, b: u32)
    ensures
        bits_contain(a | b, a),
        bits_contain(a | b, b),
        a | b == b | a,
        forall|c: u32| bits_contain(c, a) && bits_contain(c, b) ==> #[trigger] bits_contain(c, a | b),
{
    crate::flags::lemma_union_covers(a, b);
    assert forall|c: u32| bits_contain(c, a) && bits_contain(c, b) implies #[trigger] bits_contain(c, a | b) by {
        assert(c & a == a && c & b == b ==> c & (a | b) == a | b) by (bit_vector);
    }
}

/// A capability without read permission, like a revoked one, cannot be
/// invoked: no permission set without the read bit holds it.
pub proof fn law_revoked_grants_nothing()
    ensures
        !grants_read(0),
        !bits_contain(0, FLAG_SHARE),
        !bits_contain(0, FLAG_TRANSFER),
{
    assert(0u32 & 1u32 != 1u32) by (bit_vector);
    assert(0u32 & 8u32 != 8u32) by (bit_vector);
    assert(0u32 & 16u32 != 16u32) by (bit_vector);
}

} // verus!
