//! The capability space of a thread: its system call capabilities, indexed
//! by system call number, and its naming capabilities, indexed by handle.
use vstd::prelude::*;
use crate::capability::Capability;
use crate::capability_objects::Syscall;
use crate::naming_object::{NamingObject, NamedObject, kernel_open_rights, made_from};
use crate::naming_api::root;
use crate::options::OPEN_ALL;
use crate::flags::{CapabilityFlags, FLAG_READ, FLAG_EXECUTE, FLAG_SHARE};

verus! {

/// The capabilities a thread holds.
pub struct CSpace {
    syscall_capabilities: Vec<Capability<Syscall>>,
    naming_capabilities: Vec<Capability<NamingObject>>,
}

/// The capability at `index`, where there is one.
pub open spec fn lookup<T>(caps: Seq<Capability<T>>, index: usize) -> Option<Capability<T>> {
    if index < caps.len() {
        Some(caps[index as int])
    } else {
        None
    }
}

/// The capabilities after `received` is joined into the one at `index`:
/// where both are not null and refer to the same object, the one at `index`
/// grants the permissions of both; otherwise `received` takes its place.
/// Either way the capability at `index` then refers to the object `received`
/// refers to, and the others stay as they were.
pub open spec fn joined<T>(old_caps: Seq<Capability<T>>, new_caps: Seq<Capability<T>>, index: usize, received: Capability<T>) -> bool {
    &&& new_caps.len() == old_caps.len()
    &&& forall|i: int| 0 <= i < old_caps.len() && i != index ==> new_caps[i] == old_caps[i]
    &&& if !received.is_null() && !old_caps[index as int].is_null() && received.object() == old_caps[index as int].object() {
        &&& new_caps[index as int].object() == received.object()
        &&& new_caps[index as int].rights() == received.rights() | old_caps[index as int].rights()
        &&& new_caps[index as int].record() == received.record()
    } else {
        new_caps[index as int] == received
    }
}

/// Both capabilities are not null and refer to one object.
pub open spec fn refers_to_same<T>(c: Capability<T>, target: Capability<T>) -> bool {
    !c.is_null() && !target.is_null() && c.object() == target.object()
}

/// `marks` holds, for each capability of `caps`, whether it refers to the
/// object `target` refers to.
pub open spec fn same_object_marks<T>(caps: Seq<Capability<T>>, target: Capability<T>, marks: Seq<bool>) -> bool {
    &&& marks.len() == caps.len()
    &&& forall|i: int| 0 <= i < caps.len() ==> #[trigger] marks[i] == refers_to_same(caps[i], target)
}

/// A capability after those on the object of `target` were revoked: revoked
/// where it referred to that object, as it was otherwise.
pub open spec fn revoked_at<T>(before: Capability<T>, after: Capability<T>, target: Capability<T>) -> bool {
    if refers_to_same(before, target) {
        after.is_null() && after.rights() == 0 && after.record() is None
    } else {
        after == before
    }
}

/// Every capability on the object of `target` is revoked, every other one
/// stays as it was.
pub open spec fn revoked_same_object<T>(old_caps: Seq<Capability<T>>, new_caps: Seq<Capability<T>>, target: Capability<T>) -> bool {
    &&& new_caps.len() == old_caps.len()
    &&& forall|i: int| 0 <= i < old_caps.len() ==> revoked_at(old_caps[i], #[trigger] new_caps[i], target)
}

/// A capability after `rights` were taken from those on the object of
/// `target`: narrowed where it referred to that object, as it was otherwise.
pub open spec fn narrowed_at<T>(before: Capability<T>, after: Capability<T>, target: Capability<T>, rights: u32) -> bool {
    if refers_to_same(before, target) {
        &&& after.object() == before.object()
        &&& after.rights() == before.rights() & !rights
        &&& after.record() == before.record()
    } else {
        after == before
    }
}

/// The permissions `rights` are taken from every capability on the object of
/// `target`; every other capability stays as it was.
pub open spec fn narrowed_same_object<T>(old_caps: Seq<Capability<T>>, new_caps: Seq<Capability<T>>, target: Capability<T>, rights: u32) -> bool {
    &&& new_caps.len() == old_caps.len()
    &&& forall|i: int| 0 <= i < old_caps.len() ==> narrowed_at(old_caps[i], #[trigger] new_caps[i], target, rights)
}

impl CSpace {
    /// The system call capabilities, by system call number.
    pub closed spec fn syscall_caps(self) -> Seq<Capability<Syscall>> {
        self.syscall_capabilities@
    }

    /// The naming capabilities, by handle.
    pub closed spec fn naming_caps(self) -> Seq<Capability<NamingObject>> {
        self.naming_capabilities@
    }

    /// A capability space with one system call capability for each function
    /// in `syscall_fns`, the one at index `i` for system call `i`, granting
    /// read, execute and share permission. Where the naming service is up
    /// (`naming_roots` holds the root directory as the file system opened it
    /// and the capability on the shared pipe), handle 0 is a capability on
    /// the root directory opened with every option (see `naming_api::root`)
    /// and handle 1 the shared pipe; otherwise there is no naming capability.
    pub fn new(syscall_fns: &Vec<usize>, naming_roots: Option<(NamedObject, Capability<NamingObject>)>) -> (r: Self)
        ensures
            r.syscall_caps().len() == syscall_fns@.len(),
            forall|i: int| 0 <= i < syscall_fns@.len() ==> {
                &&& !(#[trigger] r.syscall_caps()[i]).is_null()
                &&& r.syscall_caps()[i].rights() == FLAG_READ | FLAG_EXECUTE | FLAG_SHARE
                &&& r.syscall_caps()[i].record() matches Some(s) && s.spec_number() == i && s.spec_function() == syscall_fns@[i]
            },
            match naming_roots {
                Some((root_dir, pipe)) => {
                    &&& r.naming_caps().len() == 2
                    &&& !r.naming_caps()[0].is_null()
                    &&& r.naming_caps()[0].rights() == kernel_open_rights(OPEN_ALL)
                    &&& made_from(r.naming_caps()[0], root_dir, OPEN_ALL, None, seq!['/'])
                    &&& r.naming_caps()[1] == pipe
                },
                None => r.naming_caps() == Seq::<Capability<NamingObject>>::empty(),
            },
    {
        let mut syscall_capabilities: Vec<Capability<Syscall>> = Vec::new();
        let mut num: usize = 0;
        while num < syscall_fns.len()
            invariant
                num <= syscall_fns@.len(),
                syscall_capabilities@.len() == num,
                forall|i: int| 0 <= i < num ==> {
                    &&& !(#[trigger] syscall_capabilities@[i]).is_null()
                    &&& syscall_capabilities@[i].rights() == FLAG_READ | FLAG_EXECUTE | FLAG_SHARE
                    &&& syscall_capabilities@[i].record() matches Some(s) && s.spec_number() == i && s.spec_function() == syscall_fns@[i]
                },
            decreases syscall_fns@.len() - num,
        {
            let cap = Capability::syscall(Syscall::new(num, syscall_fns[num]));
            syscall_capabilities.push(cap);
            num = num + 1;
        }
        let mut naming_capabilities: Vec<Capability<NamingObject>> = Vec::new();
        if let Some((root_dir, pipe)) = naming_roots {
            if let Ok(root_cap) = root(Ok(root_dir)) {
                naming_capabilities.push(root_cap);
            }
            naming_capabilities.push(pipe);
        }
        CSpace { syscall_capabilities, naming_capabilities }
    }

    /// Joins a received capability into the one this space holds for the
    /// same system call, or puts it in that one's place where the two refer
    /// to different objects (see `joined`), and answers the system call number.
    /// Where nothing was received, nothing changes and the answer is -1.
    pub fn receive_syscall_capability(&mut self, capability: Option<Capability<Syscall>>, syscall_num: usize) -> (r: isize)
        requires
            capability is Some ==> syscall_num < old(self).syscall_caps().len() && syscall_num <= isize::MAX,
        ensures
            final(self).naming_caps() == old(self).naming_caps(),
            match capability {
                Some(c) => r == syscall_num as isize
                    && joined(old(self).syscall_caps(), final(self).syscall_caps(), syscall_num, c),
                None => r == -1 && final(self).syscall_caps() == old(self).syscall_caps(),
            },
    {
        if let Some(capability) = capability {
            let combined = capability.combine(&self.syscall_capabilities[syscall_num]);
            match combined {
                Some(combined) => self.syscall_capabilities.set(syscall_num, combined),
                None => self.syscall_capabilities.set(syscall_num, capability),
            }
            return syscall_num as isize;
        }
        -1
    }

    /// Revokes the capability for a system call, where there is one.
    pub fn revoke_syscall_capability(&mut self, syscall_num: usize)
        ensures
            final(self).naming_caps() == old(self).naming_caps(),
            final(self).syscall_caps().len() == old(self).syscall_caps().len(),
            forall|i: int| 0 <= i < old(self).syscall_caps().len() && i != syscall_num
                ==> final(self).syscall_caps()[i] == old(self).syscall_caps()[i],
            syscall_num < old(self).syscall_caps().len() ==> {
                &&& final(self).syscall_caps()[syscall_num as int].is_null()
                &&& final(self).syscall_caps()[syscall_num as int].rights() == 0
            },
    {
        if let Some(cap) = self.get_syscall_capability_mut(syscall_num) {
            cap.revoke();
        }
    }

    /// The capability for a system call, where there is one.
    pub fn get_syscall_capability(&self, syscall_num: usize) -> (r: Option<&Capability<Syscall>>)
        ensures
            match r {
                Some(c) => lookup(self.syscall_caps(), syscall_num) == Some(*c),
                None => lookup(self.syscall_caps(), syscall_num) is None,
            },
    {
        if syscall_num < self.syscall_capabilities.len() {
            Some(&self.syscall_capabilities[syscall_num])
        } else {
            None
        }
    }

    /// The capability for a system call, for changing it in place.
    pub fn get_syscall_capability_mut(&mut self, syscall_num: usize) -> (r: Option<&mut Capability<Syscall>>)
        ensures
            match r {
                Some(c) => {
                    &&& syscall_num < old(self).syscall_caps().len()
                    &&& *c == old(self).syscall_caps()[syscall_num as int]
                    &&& final(self).syscall_caps() == old(self).syscall_caps().update(syscall_num as int, *final(c))
                    &&& final(self).naming_caps() == old(self).naming_caps()
                },
                None => syscall_num >= old(self).syscall_caps().len() && *final(self) == *old(self),
            },
    {
        if syscall_num < self.syscall_capabilities.len() {
            Some(&mut self.syscall_capabilities[syscall_num])
        } else {
            None
        }
    }

    /// Removes the capability for a system call; the ones after it move down.
    pub fn remove_syscall_capability(&mut self, syscall_num: usize) -> (r: Capability<Syscall>)
        requires syscall_num < old(self).syscall_caps().len(),
        ensures
            r == old(self).syscall_caps()[syscall_num as int],
            final(self).syscall_caps() == old(self).syscall_caps().remove(syscall_num as int),
            final(self).naming_caps() == old(self).naming_caps(),
    {
        self.syscall_capabilities.remove(syscall_num)
    }

    /// Puts a received capability at handle 0, in place of the root
    /// directory, and answers 0; where nothing was received, nothing changes
    /// and the answer is -1.
    pub fn receive_root_naming_capability(&mut self, capability: Option<Capability<NamingObject>>) -> (r: isize)
        requires capability is Some ==> old(self).naming_caps().len() > 0,
        ensures
            final(self).syscall_caps() == old(self).syscall_caps(),
            match capability {
                Some(c) => r == 0 && final(self).naming_caps() == old(self).naming_caps().update(0, c),
                None => r == -1 && final(self).naming_caps() == old(self).naming_caps(),
            },
    {
        if let Some(cap) = capability {
            self.naming_capabilities.set(0, cap);
            return 0;
        }
        -1
    }

    /// Adds a received capability at the next free handle and answers that
    /// handle; where nothing was received, nothing changes and the answer is -1.
    pub fn receive_naming_capability(&mut self, capability: Option<Capability<NamingObject>>) -> (r: isize)
        ensures
            final(self).syscall_caps() == old(self).syscall_caps(),
            match capability {
                Some(c) => r == old(self).naming_caps().len() as isize
                    && final(self).naming_caps() == old(self).naming_caps().push(c),
                None => r == -1 && final(self).naming_caps() == old(self).naming_caps(),
            },
    {
        if let Some(cap) = capability {
            let handle = self.naming_capabilities.len();
            self.naming_capabilities.push(cap);
            return handle as isize;
        }
        -1
    }

    /// The naming capability with the given handle, where there is one.
    pub fn get_naming_capability(&self, handle: usize) -> (r: Option<&Capability<NamingObject>>)
        ensures
            match r {
                Some(c) => lookup(self.naming_caps(), handle) == Some(*c),
                None => lookup(self.naming_caps(), handle) is None,
            },
    {
        if handle < self.naming_capabilities.len() {
            Some(&self.naming_capabilities[handle])
        } else {
            None
        }
    }

    /// The naming capability with the given handle, for changing it in place.
    pub fn get_naming_capability_mut(&mut self, handle: usize) -> (r: Option<&mut Capability<NamingObject>>)
        ensures
            match r {
                Some(c) => {
                    &&& handle < old(self).naming_caps().len()
                    &&& *c == old(self).naming_caps()[handle as int]
                    &&& final(self).naming_caps() == old(self).naming_caps().update(handle as int, *final(c))
                    &&& final(self).syscall_caps() == old(self).syscall_caps()
                },
                None => handle >= old(self).naming_caps().len() && *final(self) == *old(self),
            },
    {
        if handle < self.naming_capabilities.len() {
            Some(&mut self.naming_capabilities[handle])
        } else {
            None
        }
    }

    /// For each naming capability, whether it refers to the object `target`
    /// refers to, whatever permissions either grants (see `same_object_marks`).
    /// A null capability, or any capability where `target` is null, is
    /// answered `false`.
    pub fn same_object_answers(&self, target: &Capability<NamingObject>) -> (r: Vec<bool>)
        ensures
            same_object_marks(self.naming_caps(), *target, r@),
    {
        let mut answers: Vec<bool> = Vec::new();
        let mut i: usize = 0;
        while i < self.naming_capabilities.len()
            invariant
                i <= self.naming_capabilities@.len(),
                answers@.len() == i,
                forall|j: int| 0 <= j < i ==> #[trigger] answers@[j] == refers_to_same(self.naming_capabilities@[j], *target),
            decreases self.naming_capabilities@.len() - i,
        {
            let same = self.naming_capabilities[i].same_object(target);
            answers.push(same);
            i = i + 1;
        }
        answers
    }

    /// Revokes each naming capability whose entry in `marked` is `true`; the
    /// others stay as they were.
    pub fn revoke_marked(&mut self, marked: &Vec<bool>)
        requires marked@.len() == old(self).naming_caps().len(),
        ensures
            final(self).syscall_caps() == old(self).syscall_caps(),
            final(self).naming_caps().len() == old(self).naming_caps().len(),
            forall|i: int| 0 <= i < marked@.len() && #[trigger] marked@[i] ==> {
                &&& final(self).naming_caps()[i].is_null()
                &&& final(self).naming_caps()[i].rights() == 0
                &&& final(self).naming_caps()[i].record() is None
            },
            forall|i: int| 0 <= i < marked@.len() && !#[trigger] marked@[i]
                ==> final(self).naming_caps()[i] == old(self).naming_caps()[i],
    {
        let mut i: usize = 0;
        while i < marked.len()
            invariant
                i <= marked@.len(),
                marked@.len() == old(self).naming_caps().len(),
                self.naming_capabilities@.len() == marked@.len(),
                self.syscall_capabilities@ == old(self).syscall_capabilities@,
                forall|j: int| i <= j < marked@.len() ==> self.naming_capabilities@[j] == old(self).naming_capabilities@[j],
                forall|j: int| 0 <= j < i && #[trigger] marked@[j] ==> {
                    &&& self.naming_capabilities@[j].is_null()
                    &&& self.naming_capabilities@[j].rights() == 0
                    &&& self.naming_capabilities@[j].record() is None
                },
                forall|j: int| 0 <= j < i && !#[trigger] marked@[j]
                    ==> self.naming_capabilities@[j] == old(self).naming_capabilities@[j],
            decreases marked@.len() - i,
        {
            if marked[i] {
                self.naming_capabilities.set(i, Capability::null());
            }
            i = i + 1;
        }
    }

    /// Takes the permissions of `rights` away from each naming capability
    /// whose entry in `marked` is `true`; the others stay as they were.
    pub fn remove_rights_marked(&mut self, marked: &Vec<bool>, rights: CapabilityFlags)
        requires marked@.len() == old(self).naming_caps().len(),
        ensures
            final(self).syscall_caps() == old(self).syscall_caps(),
            final(self).naming_caps().len() == old(self).naming_caps().len(),
            forall|i: int| 0 <= i < marked@.len() && #[trigger] marked@[i] ==> {
                &&& final(self).naming_caps()[i].object() == old(self).naming_caps()[i].object()
                &&& final(self).naming_caps()[i].rights() == old(self).naming_caps()[i].rights() & !rights@
                &&& final(self).naming_caps()[i].record() == old(self).naming_caps()[i].record()
            },
            forall|i: int| 0 <= i < marked@.len() && !#[trigger] marked@[i]
                ==> final(self).naming_caps()[i] == old(self).naming_caps()[i],
    {
        let mut i: usize = 0;
        while i < marked.len()
            invariant
                i <= marked@.len(),
                marked@.len() == old(self).naming_caps().len(),
                self.naming_capabilities@.len() == marked@.len(),
                self.syscall_capabilities@ == old(self).syscall_capabilities@,
                forall|j: int| i <= j < marked@.len() ==> self.naming_capabilities@[j] == old(self).naming_capabilities@[j],
                forall|j: int| 0 <= j < i && #[trigger] marked@[j] ==> {
                    &&& self.naming_capabilities@[j].object() == old(self).naming_capabilities@[j].object()
                    &&& self.naming_capabilities@[j].rights() == old(self).naming_capabilities@[j].rights() & !rights@
                    &&& self.naming_capabilities@[j].record() == old(self).naming_capabilities@[j].record()
                },
                forall|j: int| 0 <= j < i && !#[trigger] marked@[j]
                    ==> self.naming_capabilities@[j] == old(self).naming_capabilities@[j],
            decreases marked@.len() - i,
        {
            if marked[i] {
                let cap = &mut self.naming_capabilities[i];
                cap.remove_permissions(rights);
            }
            i = i + 1;
        }
    }

    /// Revokes every naming capability that refers to the object `target`
    /// refers to (see `same_object_answers` and `revoke_marked`). The others
    /// stay as they were; a revoked one is null and grants nothing.
    pub fn revoke_same_object(&mut self, target: &Capability<NamingObject>)
        ensures
            final(self).syscall_caps() == old(self).syscall_caps(),
            final(self).naming_caps().len() == old(self).naming_caps().len(),
            revoked_same_object(old(self).naming_caps(), final(self).naming_caps(), *target),
            target.is_null() ==> final(self).naming_caps() == old(self).naming_caps(),
    {
        let marked = self.same_object_answers(target);
        self.revoke_marked(&marked);
        proof {
            assert forall|i: int| 0 <= i < old(self).naming_caps().len() implies
                revoked_at(old(self).naming_caps()[i], #[trigger] self.naming_caps()[i], *target) by {
                if marked@[i] {} else {}
            }
            if target.is_null() {
                assert forall|i: int| 0 <= i < old(self).naming_caps().len() implies
                    self.naming_caps()[i] == old(self).naming_caps()[i] by {
                    assert(!marked@[i]);
                }
                assert(self.naming_caps() =~= old(self).naming_caps());
            }
        }
    }

    /// Takes the permissions of `rights` away from every naming capability
    /// that refers to the object `target` refers to (see
    /// `same_object_answers` and `remove_rights_marked`), and answers 0. The
    /// others stay as they were.
    pub fn revoke_naming_rights(&mut self, target: &Capability<NamingObject>, rights: CapabilityFlags) -> (r: isize)
        ensures
            r == 0,
            final(self).syscall_caps() == old(self).syscall_caps(),
            final(self).naming_caps().len() == old(self).naming_caps().len(),
            narrowed_same_object(old(self).naming_caps(), final(self).naming_caps(), *target, rights@),
            target.is_null() ==> final(self).naming_caps() == old(self).naming_caps(),
    {
        let marked = self.same_object_answers(target);
        self.remove_rights_marked(&marked, rights);
        proof {
            assert forall|i: int| 0 <= i < old(self).naming_caps().len() implies
                narrowed_at(old(self).naming_caps()[i], #[trigger] self.naming_caps()[i], *target, rights@) by {
                if marked@[i] {} else {}
            }
            if target.is_null() {
                assert forall|i: int| 0 <= i < old(self).naming_caps().len() implies
                    self.naming_caps()[i] == old(self).naming_caps()[i] by {
                    assert(!marked@[i]);
                }
                assert(self.naming_caps() =~= old(self).naming_caps());
            }
        }
        0
    }

    /// How many naming capabilities the space holds.
    pub fn get_naming_capabilities_len(&self) -> (r: usize)
        ensures r == self.naming_caps().len(),
    {
        self.naming_capabilities.len()
    }
}

/// The handle a received naming capability is answered with finds that
/// capability, and every capability held before keeps its handle.
pub proof fn law_received_capability_is_found<T>(caps: Seq<Capability<T>>, received: Capability<T>)
    requires caps.len() <= usize::MAX,
    ensures
        lookup(caps.push(received), caps.len() as usize) == Some(received),
        forall|h: usize| h < caps.len() ==> #[trigger] lookup(caps.push(received), h) == lookup(caps, h),
{
}

/// After a capability is received for an index, the capability there refers
/// to the object the received one refers to, was made with the same value,
/// and grants at least every permission the received one grants; no other
/// capability changes.
pub proof fn law_join_grants_received<T>(old_caps: Seq<Capability<T>>, new_caps: Seq<Capability<T>>, index: usize, received: Capability<T>)
    requires
        index < old_caps.len(),
        joined(old_caps, new_caps, index, received),
    ensures
        crate::flags::bits_contain(new_caps[index as int].rights(), received.rights()),
        new_caps[index as int].object() == received.object(),
        new_caps[index as int].record() == received.record(),
        forall|i: int| 0 <= i < old_caps.len() && i != index ==> new_caps[i] == old_caps[i],
{
    crate::flags::lemma_contain_reflexive(received.rights());
    crate::flags::lemma_union_covers(received.rights(), old_caps[index as int].rights());
}


/// The same-object answers mark a capability exactly where it and the target
/// are not null and refer to one object, whatever permissions either grants.
pub proof fn law_marks_follow_the_object<T>(caps: Seq<Capability<T>>, target: Capability<T>, marks: Seq<bool>, i: int)
    requires
        same_object_marks(caps, target, marks),
        0 <= i < caps.len(),
    ensures
        marks.len() == caps.len(),
        marks[i] <==> !caps[i].is_null() && !target.is_null() && caps[i].object() == target.object(),
{
}

/// Revoking by object reaches every copy of the target's capability, with
/// whatever permissions it was shared: each capability on that object ends
/// up null, granting nothing, and every capability on another object, or a
/// null one, stays as it was.
pub proof fn law_revocation_reaches_every_copy<T>(old_caps: Seq<Capability<T>>, new_caps: Seq<Capability<T>>, target: Capability<T>, i: int)
    requires
        revoked_same_object(old_caps, new_caps, target),
        0 <= i < old_caps.len(),
    ensures
        new_caps.len() == old_caps.len(),
        !target.is_null() && !old_caps[i].is_null() && old_caps[i].object() == target.object() ==> {
            &&& new_caps[i].is_null()
            &&& new_caps[i].rights() == 0
        },
        target.is_null() || old_caps[i].is_null() || old_caps[i].object() != target.object()
            ==> new_caps[i] == old_caps[i],
{
    assert(revoked_at(old_caps[i], new_caps[i], target));
}

/// Narrowing by object takes the named permissions from every copy of the
/// target's capability and leaves it the rest; every capability on another
/// object, or a null one, stays as it was.
pub proof fn law_narrowing_reaches_every_copy<T>(old_caps: Seq<Capability<T>>, new_caps: Seq<Capability<T>>, target: Capability<T>, rights: u32, i: int)
    requires
        narrowed_same_object(old_caps, new_caps, target, rights),
        0 <= i < old_caps.len(),
    ensures
        new_caps.len() == old_caps.len(),
        !target.is_null() && !old_caps[i].is_null() && old_caps[i].object() == target.object() ==> {
            &&& new_caps[i].object() == old_caps[i].object()
            &&& forall|bit: u32| #[trigger] crate::flags::bits_contain(rights, bit) && bit != 0
                ==> !crate::flags::bits_contain(new_caps[i].rights(), bit)
            &&& crate::flags::bits_contain(old_caps[i].rights(), new_caps[i].rights())
        },
        target.is_null() || old_caps[i].is_null() || old_caps[i].object() != target.object()
            ==> new_caps[i] == old_caps[i],
{
    assert(narrowed_at(old_caps[i], new_caps[i], target, rights));
    let a = old_caps[i].rights();
    assert forall|bit: u32| #[trigger] crate::flags::bits_contain(rights, bit) && bit != 0
        implies !crate::flags::bits_contain(a & !rights, bit) by {
        assert(rights & bit == bit && bit != 0 ==> (a & !rights) & bit != bit) by (bit_vector);
    }
    assert(a & (a & !rights) == a & !rights) by (bit_vector);
}

/// A capability received for an index on the object already held there is
/// joined into it, granting the permissions of both; one on another object,
/// or where either is null, takes its place.
pub proof fn law_join_on_one_object<T>(old_caps: Seq<Capability<T>>, new_caps: Seq<Capability<T>>, index: usize, received: Capability<T>)
    requires
        index < old_caps.len(),
        joined(old_caps, new_caps, index, received),
    ensures
        !received.is_null() && !old_caps[index as int].is_null() && received.object() == old_caps[index as int].object() ==> {
            &&& new_caps[index as int].object() == received.object()
            &&& crate::flags::bits_contain(new_caps[index as int].rights(), old_caps[index as int].rights())
            &&& crate::flags::bits_contain(new_caps[index as int].rights(), received.rights())
        },
        received.is_null() || old_caps[index as int].is_null() || received.object() != old_caps[index as int].object()
            ==> new_caps[index as int] == received,
{
    crate::flags::lemma_union_covers(received.rights(), old_caps[index as int].rights());
}

} // verus!
