//! System calls that hand capabilities from one thread to another and take
//! them back.
//!
//! A thread's capability space sits behind a capability of its own. The
//! caller finds the threads involved and hands in their capability spaces'
//! capabilities; these functions lock them, and the decisions that follow
//! stand in the functions that take the locked spaces.
use vstd::prelude::*;
use crate::capability::{Capability, grants_read};
use crate::capability_objects::Syscall;
use crate::cspace::{CSpace, lookup, joined, law_join_grants_received};
use crate::flags::{CapabilityFlags, bits_contain, permission_bits, FLAG_SHARE};
use crate::lock::{guarded, guarded_mut};
use crate::naming_object::NamingObject;

verus! {

/// The capability a sharer hands on for a system call: a copy of its own,
/// with the same permissions, where it holds one that grants share
/// permission; `None` otherwise.
pub fn shared_syscall_capability(sharer: &CSpace, syscall_number: usize) -> (r: Option<Capability<Syscall>>)
    ensures
        match lookup(sharer.syscall_caps(), syscall_number) {
            None => r is None,
            Some(c) => {
                &&& r is Some <==> bits_contain(c.rights(), FLAG_SHARE) && !c.is_null()
                &&& r matches Some(s) ==> s.object() == c.object() && s.rights() == c.rights() && s.record() == c.record()
            },
        },
{
    match sharer.get_syscall_capability(syscall_number) {
        Some(cap) => {
            let perms = cap.get_permissions();
            let r = cap.share(perms);
            assert(forall|a: u32| #[trigger] (a & a) == a) by (bit_vector);
            r
        },
        None => None,
    }
}

/// Hands a shared system call capability to the receiving space, where it is
/// joined into the receiver's own or takes its place (see
/// `CSpace::receive_syscall_capability`),
/// and answers the system call number. Where nothing was shared, or the
/// number lies beyond the receiver's table, nothing changes and the answer
/// is -5.
pub fn deliver_syscall_capability(receiver: &mut CSpace, shared: Option<Capability<Syscall>>, syscall_number: usize) -> (r: isize)
    ensures
        final(receiver).naming_caps() == old(receiver).naming_caps(),
        match shared {
            Some(c) => if syscall_number < old(receiver).syscall_caps().len() && syscall_number <= isize::MAX {
                r == syscall_number as isize && joined(old(receiver).syscall_caps(), final(receiver).syscall_caps(), syscall_number, c)
            } else {
                r == -5 && final(receiver).syscall_caps() == old(receiver).syscall_caps()
            },
            None => r == -5 && final(receiver).syscall_caps() == old(receiver).syscall_caps(),
        },
{
    if shared.is_some() {
        if syscall_number <= isize::MAX as usize && receiver.get_syscall_capability(syscall_number).is_some() {
            return receiver.receive_syscall_capability(shared, syscall_number);
        }
    }
    -5
}

/// The space holds a capability for system call `n` that grants share
/// permission.
pub open spec fn syscall_shareable(caps: Seq<Capability<Syscall>>, n: usize) -> bool {
    &&& n < caps.len()
    &&& bits_contain(caps[n as int].rights(), FLAG_SHARE)
    &&& !caps[n as int].is_null()
}

/// After a share of `shared_from`, the capability at `index` refers to the
/// object `shared_from` refers to, was made with the same value and grants
/// at least its permissions; every other capability stays as it was.
pub open spec fn holds_share<T>(old_caps: Seq<Capability<T>>, new_caps: Seq<Capability<T>>, index: usize, shared_from: Capability<T>) -> bool {
    &&& new_caps.len() == old_caps.len()
    &&& forall|i: int| 0 <= i < old_caps.len() && i != index ==> new_caps[i] == old_caps[i]
    &&& new_caps[index as int].object() == shared_from.object()
    &&& new_caps[index as int].record() == shared_from.record()
    &&& bits_contain(new_caps[index as int].rights(), shared_from.rights())
}

proof fn lemma_delivered_holds_share(old_caps: Seq<Capability<Syscall>>, new_caps: Seq<Capability<Syscall>>, index: usize, shared: Capability<Syscall>, shared_from: Capability<Syscall>)
    requires
        index < old_caps.len(),
        joined(old_caps, new_caps, index, shared),
        shared.object() == shared_from.object(),
        shared.record() == shared_from.record(),
        shared.rights() == shared_from.rights(),
    ensures holds_share(old_caps, new_caps, index, shared_from),
{
    law_join_grants_received(old_caps, new_caps, index, shared);
}

/// What sharing the capability for system call `syscall_number` of `sharer`
/// with `receiver` answers: the system call number where the sharer's
/// capability grants share permission and the receiver has a capability for
/// that call, which then holds the shared one (see `holds_share`); -5, with
/// nothing changed, otherwise or where there is no receiving space.
pub fn share_syscall_between(sharer: &CSpace, receiver: Option<&mut CSpace>, syscall_number: usize) -> (r: isize)
    ensures
        match receiver {
            None => r == -5,
            Some(rc) => {
                &&& final(rc).naming_caps() == rc.naming_caps()
                &&& if syscall_shareable(sharer.syscall_caps(), syscall_number)
                    && syscall_number < rc.syscall_caps().len() && syscall_number <= isize::MAX {
                    &&& r == syscall_number as isize
                    &&& holds_share(rc.syscall_caps(), final(rc).syscall_caps(), syscall_number,
                        sharer.syscall_caps()[syscall_number as int])
                } else {
                    r == -5 && final(rc).syscall_caps() == rc.syscall_caps()
                }
            },
        },
{
    let shared = shared_syscall_capability(sharer, syscall_number);
    match receiver {
        Some(rc) => {
            let ghost before = rc.syscall_caps();
            let ghost given = shared;
            let r = deliver_syscall_capability(rc, shared, syscall_number);
            proof {
                if let Some(s) = given {
                    if syscall_number < before.len() && syscall_number <= isize::MAX {
                        lemma_delivered_holds_share(before, rc.syscall_caps(), syscall_number, s,
                            sharer.syscall_caps()[syscall_number as int]);
                    }
                }
            }
            r
        },
        None => -5,
    }
}

/// What sharing its own capability for system call `syscall_number` with
/// itself does to `space`: as `share_syscall_between` with the space as both
/// sharer and receiver.
pub fn share_syscall_within(space: &mut CSpace, syscall_number: usize) -> (r: isize)
    ensures
        final(space).naming_caps() == old(space).naming_caps(),
        if syscall_shareable(old(space).syscall_caps(), syscall_number) && syscall_number <= isize::MAX {
            &&& r == syscall_number as isize
            &&& holds_share(old(space).syscall_caps(), final(space).syscall_caps(), syscall_number,
                old(space).syscall_caps()[syscall_number as int])
        } else {
            r == -5 && final(space).syscall_caps() == old(space).syscall_caps()
        },
{
    let shared = shared_syscall_capability(space, syscall_number);
    let ghost before = space.syscall_caps();
    let ghost given = shared;
    let r = deliver_syscall_capability(space, shared, syscall_number);
    proof {
        if let Some(s) = given {
            if syscall_number < before.len() && syscall_number <= isize::MAX {
                lemma_delivered_holds_share(before, space.syscall_caps(), syscall_number, s, before[syscall_number as int]);
            }
        }
    }
    r
}

/// Shares the current thread's capability for a system call with the
/// receiving thread, with the same permissions: both spaces are locked and
/// `share_syscall_between` decides, or `share_syscall_within` where the
/// receiver's space is the current one. Where the current space cannot be
/// locked, there is no receiver, or its space cannot be locked, the answer
/// is -5.
pub fn sys_share_syscall_cap(current: &Capability<CSpace>, receiver: Option<&Capability<CSpace>>, syscall_number: usize) -> (r: isize)
    ensures
        r == -5 || r == syscall_number as isize,
        receiver is None ==> r == -5,
        !grants_read(current.rights()) || current.is_null() ==> r == -5,
{
    let mut guard = match current.invoke() {
        Some(g) => g,
        None => return -5,
    };
    match receiver {
        Some(rc) => {
            if current.same_object(rc) {
                if !rc.has_permissions(CapabilityFlags::read()) {
                    return -5;
                }
                return share_syscall_within(guarded_mut(&mut guard), syscall_number);
            }
            match rc.invoke() {
                Some(mut receiver_guard) => share_syscall_between(guarded(&guard), Some(guarded_mut(&mut receiver_guard)), syscall_number),
                None => -5,
            }
        },
        None => -5,
    }
}

/// Revokes a thread's capability for a system call and answers 0; where
/// there is no such thread or its space cannot be locked, the answer is -5.
pub fn sys_revoke_syscall_cap(target: Option<&Capability<CSpace>>, syscall_number: usize) -> (r: isize)
    ensures
        r == 0 || r == -5,
        target is None ==> r == -5,
        target matches Some(t) && (!grants_read(t.rights()) || t.is_null()) ==> r == -5,
{
    if let Some(target) = target {
        if let Some(mut guard) = target.invoke() {
            guarded_mut(&mut guard).revoke_syscall_capability(syscall_number);
            return 0;
        }
    }
    -5
}

/// The capability a sharer hands on for a naming object: `None` where it
/// holds no capability with that handle; otherwise a copy of that
/// capability with the same permissions where it grants share permission,
/// and nothing to hand on where it does not.
pub fn shared_naming_capability(sharer: &CSpace, handle: usize) -> (r: Option<Option<Capability<NamingObject>>>)
    ensures
        match lookup(sharer.naming_caps(), handle) {
            None => r is None,
            Some(c) => r matches Some(s) && {
                &&& s is Some <==> bits_contain(c.rights(), FLAG_SHARE) && !c.is_null()
                &&& s matches Some(x) ==> x.object() == c.object() && x.rights() == c.rights() && x.record() == c.record()
            },
        },
{
    match sharer.get_naming_capability(handle) {
        Some(cap) => {
            let perms = cap.get_permissions();
            let s = cap.share(perms);
            assert(forall|a: u32| #[trigger] (a & a) == a) by (bit_vector);
            Some(s)
        },
        None => None,
    }
}

/// Adds a shared naming capability to the receiving space and answers its
/// handle there (see `CSpace::receive_naming_capability`); where nothing was
/// shared, nothing changes and the answer is -1.
pub fn deliver_naming_capability(receiver: &mut CSpace, shared: Option<Capability<NamingObject>>) -> (r: isize)
    ensures
        final(receiver).syscall_caps() == old(receiver).syscall_caps(),
        match shared {
            Some(c) => r == old(receiver).naming_caps().len() as isize
                && final(receiver).naming_caps() == old(receiver).naming_caps().push(c),
            None => r == -1 && final(receiver).naming_caps() == old(receiver).naming_caps(),
        },
{
    if shared.is_some() {
        return receiver.receive_naming_capability(shared);
    }
    -1
}

/// What sharing the naming capability `handle` of `sharer` with `receiver`
/// answers: -5 where the sharer holds no capability with that handle; -1
/// where that capability may not be shared or there is no receiving space,
/// nothing changing; otherwise the handle under which a copy with the same
/// permissions is added to the receiving space.
pub fn share_naming_between(sharer: &CSpace, receiver: Option<&mut CSpace>, handle: usize) -> (r: isize)
    ensures
        match lookup(sharer.naming_caps(), handle) {
            None => r == -5,
            Some(c) => if bits_contain(c.rights(), FLAG_SHARE) && !c.is_null() {
                match receiver {
                    Some(rc) => {
                        &&& r == rc.naming_caps().len() as isize
                        &&& final(rc).syscall_caps() == rc.syscall_caps()
                        &&& final(rc).naming_caps().len() == rc.naming_caps().len() + 1
                        &&& final(rc).naming_caps().subrange(0, rc.naming_caps().len() as int) == rc.naming_caps()
                        &&& final(rc).naming_caps().last().object() == c.object()
                        &&& final(rc).naming_caps().last().rights() == c.rights()
                        &&& final(rc).naming_caps().last().record() == c.record()
                    },
                    None => r == -1,
                }
            } else {
                r == -1
            },
        },
{
    let shared = match shared_naming_capability(sharer, handle) {
        Some(s) => s,
        None => return -5,
    };
    match receiver {
        Some(rc) => {
            let ghost before = rc.naming_caps();
            let r = deliver_naming_capability(rc, shared);
            proof {
                if shared is Some {
                    assert(rc.naming_caps().subrange(0, before.len() as int) =~= before);
                }
            }
            r
        },
        None => -1,
    }
}

/// What sharing its own naming capability `handle` with itself does to
/// `space`: as `share_naming_between` with the space as both sharer and
/// receiver.
pub fn share_naming_within(space: &mut CSpace, handle: usize) -> (r: isize)
    ensures
        final(space).syscall_caps() == old(space).syscall_caps(),
        match lookup(old(space).naming_caps(), handle) {
            None => r == -5 && final(space).naming_caps() == old(space).naming_caps(),
            Some(c) => if bits_contain(c.rights(), FLAG_SHARE) && !c.is_null() {
                &&& r == old(space).naming_caps().len() as isize
                &&& final(space).naming_caps().len() == old(space).naming_caps().len() + 1
                &&& final(space).naming_caps().subrange(0, old(space).naming_caps().len() as int) == old(space).naming_caps()
                &&& final(space).naming_caps().last().object() == c.object()
                &&& final(space).naming_caps().last().rights() == c.rights()
                &&& final(space).naming_caps().last().record() == c.record()
            } else {
                r == -1 && final(space).naming_caps() == old(space).naming_caps()
            },
        },
{
    let shared = match shared_naming_capability(space, handle) {
        Some(s) => s,
        None => return -5,
    };
    let ghost before = space.naming_caps();
    let r = deliver_naming_capability(space, shared);
    proof {
        if shared is Some {
            assert(space.naming_caps().subrange(0, before.len() as int) =~= before);
        }
    }
    r
}

/// Shares the current thread's naming capability with the given handle with
/// the receiving thread, with the same permissions: both spaces are locked
/// and `share_naming_between` decides, or `share_naming_within` where the
/// receiver's space is the current one. Where the current space cannot be
/// locked the answer is -5; where the receiver's space cannot be locked,
/// `share_naming_between` decides as for a missing receiver.
pub fn sys_share_naming_cap(current: &Capability<CSpace>, receiver: Option<&Capability<CSpace>>, naming_object_number: usize) -> (r: isize)
    ensures
        !grants_read(current.rights()) || current.is_null() ==> r == -5,
        receiver is None ==> r == -5 || r == -1,
        r != -5 && r != -1 ==> (receiver matches Some(rc) && grants_read(rc.rights()) && !rc.is_null()),
{
    let mut guard = match current.invoke() {
        Some(g) => g,
        None => return -5,
    };
    match receiver {
        Some(rc) => {
            if current.same_object(rc) {
                if !rc.has_permissions(CapabilityFlags::read()) {
                    return share_naming_between(guarded(&guard), None, naming_object_number);
                }
                return share_naming_within(guarded_mut(&mut guard), naming_object_number);
            }
            match rc.invoke() {
                Some(mut receiver_guard) => share_naming_between(guarded(&guard), Some(guarded_mut(&mut receiver_guard)), naming_object_number),
                None => share_naming_between(guarded(&guard), None, naming_object_number),
            }
        },
        None => share_naming_between(guarded(&guard), None, naming_object_number),
    }
}

/// How many naming capabilities the current thread holds; 0 where its space
/// cannot be locked.
pub fn sys_naming_len(current: &Capability<CSpace>) -> (r: usize)
    ensures !grants_read(current.rights()) || current.is_null() ==> r == 0,
{
    match current.invoke() {
        Some(guard) => guarded(&guard).get_naming_capabilities_len(),
        None => 0,
    }
}

/// Revokes the naming capability with the given handle in `cspace` and
/// answers 0; where there is none, nothing changes and the answer is -5.
pub fn revoke_own_naming_capability(cspace: &mut CSpace, handle: usize) -> (r: isize)
    ensures
        final(cspace).syscall_caps() == old(cspace).syscall_caps(),
        handle < old(cspace).naming_caps().len() ==> {
            &&& r == 0
            &&& final(cspace).naming_caps().len() == old(cspace).naming_caps().len()
            &&& final(cspace).naming_caps()[handle as int].is_null()
            &&& final(cspace).naming_caps()[handle as int].rights() == 0
            &&& forall|i: int| 0 <= i < old(cspace).naming_caps().len() && i != handle
                ==> final(cspace).naming_caps()[i] == old(cspace).naming_caps()[i]
        },
        handle >= old(cspace).naming_caps().len() ==> r == -5 && *final(cspace) == *old(cspace),
{
    match cspace.get_naming_capability_mut(handle) {
        Some(cap) => {
            cap.revoke();
            0
        },
        None => -5,
    }
}

/// Revokes a naming capability of the current thread, where the current
/// thread is the one named (see `revoke_own_naming_capability`); where
/// another thread is named, revokes every capability in that thread's space
/// that refers to the same object (see `CSpace::revoke_same_object`). The
/// answer is 0, or -5 where the current space cannot be locked, holds no
/// capability with that handle, or the other thread's space is missing or
/// cannot be locked.
pub fn sys_revoke_naming_cap(
    current: &Capability<CSpace>,
    current_thread_id: usize,
    thread_id: usize,
    naming_object_number: usize,
    receiver: Option<&Capability<CSpace>>,
) -> (r: isize)
    ensures
        r == 0 || r == -5,
        thread_id != current_thread_id && receiver is None ==> r == -5,
        !grants_read(current.rights()) || current.is_null() ==> r == -5,
        thread_id != current_thread_id && (receiver matches Some(rc) && (!grants_read(rc.rights()) || rc.is_null())) ==> r == -5,
{
    let mut guard = match current.invoke() {
        Some(g) => g,
        None => return -5,
    };
    let cspace = guarded_mut(&mut guard);
    if thread_id == current_thread_id {
        return revoke_own_naming_capability(cspace, naming_object_number);
    }
    let cap = match cspace.get_naming_capability(naming_object_number) {
        Some(c) => c,
        None => return -5,
    };
    if let Some(receiver) = receiver {
        if let Some(mut receiver_guard) = receiver.invoke() {
            guarded_mut(&mut receiver_guard).revoke_same_object(cap);
            return 0;
        }
    }
    -5
}

/// The permissions a request to revoke `rights` names: those bits where
/// `rights` holds permission bits only; none where it holds any other bit,
/// above the 32nd too.
pub fn rights_to_revoke(rights: usize) -> (r: CapabilityFlags)
    ensures
        if rights <= u32::MAX && permission_bits(rights as u32) { r@ == rights as u32 } else { r@ == 0 },
{
    if rights > u32::MAX as usize {
        return CapabilityFlags::empty();
    }
    match CapabilityFlags::from_bits(rights as u32) {
        Some(f) => f,
        None => CapabilityFlags::empty(),
    }
}

/// Takes specific rights away from the capabilities another thread holds on
/// the object of the current thread's naming capability `naming_object_number`
/// (see `CSpace::revoke_naming_rights`), those `rights_to_revoke` reads
/// from `rights`: where it names any bit that is no permission bit, nothing
/// is taken away. The answer is 0, or
/// -5 where the current space cannot be locked, holds no capability with that
/// handle, or the other thread's space is missing or cannot be locked.
pub fn sys_revoke_naming_rights(
    current: &Capability<CSpace>,
    naming_object_number: usize,
    rights: usize,
    receiver: Option<&Capability<CSpace>>,
) -> (r: isize)
    ensures
        r == 0 || r == -5,
        receiver is None ==> r == -5,
        !grants_read(current.rights()) || current.is_null() ==> r == -5,
{
    let guard = match current.invoke() {
        Some(g) => g,
        None => return -5,
    };
    let cspace = guarded(&guard);
    if let Some(cap) = cspace.get_naming_capability(naming_object_number) {
        if let Some(receiver) = receiver {
            if let Some(mut receiver_guard) = receiver.invoke() {
                let flags = rights_to_revoke(rights);
                return guarded_mut(&mut receiver_guard).revoke_naming_rights(cap, flags);
            }
        }
    }
    -5
}

} // verus!
