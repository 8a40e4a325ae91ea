use capos::capability::Capability;
use capos::capability_objects::Syscall;
use capos::cspace::CSpace;
use capos::errno::Errno;
use capos::flags::{CapabilityFlags, FLAG_EXECUTE, FLAG_READ, FLAG_SHARE, FLAG_WRITE};
use capos::naming_object::{create_naming_capability, NamedObject, NamingObject};
use capos::options::OpenOptions;
use capos::sys_caps::{
    deliver_naming_capability, deliver_syscall_capability, revoke_own_naming_capability, share_naming_between, shared_naming_capability,
    shared_syscall_capability, sys_naming_len, sys_revoke_naming_cap, sys_revoke_syscall_cap, sys_share_naming_cap,
    sys_share_syscall_cap,
};

fn naming_cap(node: usize, options: OpenOptions) -> Capability<NamingObject> {
    create_naming_capability(NamedObject::file(node), options, None, String::from("/f"))
}

fn shareable_rw() -> OpenOptions {
    OpenOptions::readwrite().union(OpenOptions::share())
}

fn space(n: usize) -> CSpace {
    let fns: Vec<usize> = (0..n).map(|i| 0x1000 + i).collect();
    CSpace::new(&fns, None)
}

#[test]
fn new_space_has_one_syscall_capability_per_function() {
    let cs = space(40);
    for i in 0..40 {
        let cap = cs.get_syscall_capability(i).unwrap();
        assert_eq!(cap.get_permissions().bits(), FLAG_READ | FLAG_EXECUTE | FLAG_SHARE);
        let guard = cap.invoke().unwrap();
        assert_eq!(guard.number(), i);
        assert_eq!(guard.function_pointer(), 0x1000 + i);
    }
    assert!(cs.get_syscall_capability(40).is_none());
    assert_eq!(cs.get_naming_capabilities_len(), 0);
}

#[test]
fn new_space_puts_root_and_shared_pipe_first() {
    let pipe = naming_cap(2, OpenOptions::readwrite());
    let cs = CSpace::new(&vec![1, 2, 3], Some((NamedObject::directory(1), pipe)));
    assert_eq!(cs.get_naming_capabilities_len(), 2);
    assert_eq!(cs.get_naming_capability(0).unwrap().get_permissions().bits(), FLAG_READ | FLAG_WRITE | FLAG_SHARE);
    {
        let root = cs.get_naming_capability(0).unwrap().invoke().unwrap();
        assert_eq!(*root.named_object, NamedObject::directory(1));
        assert_eq!(root.access_rights, OpenOptions::all());
        assert_eq!(root.path, "/");
        assert_eq!(root.parent_handle, None);
    }
    assert_eq!(cs.get_naming_capability(1).unwrap().invoke().unwrap().named_object.node, 2);
}

#[test]
fn receive_naming_capability_answers_its_handle() {
    let mut cs = space(2);
    assert_eq!(cs.receive_naming_capability(Some(naming_cap(10, OpenOptions::readonly()))), 0);
    assert_eq!(cs.receive_naming_capability(Some(naming_cap(11, OpenOptions::readonly()))), 1);
    assert_eq!(cs.receive_naming_capability(None), -1);
    assert_eq!(cs.get_naming_capabilities_len(), 2);
    assert_eq!(cs.get_naming_capability(1).unwrap().invoke().unwrap().named_object.node, 11);
    assert!(cs.get_naming_capability(2).is_none());
}

#[test]
fn receive_root_naming_capability_replaces_handle_zero() {
    let mut cs = space(1);
    cs.receive_naming_capability(Some(naming_cap(1, OpenOptions::readonly())));
    assert_eq!(cs.receive_root_naming_capability(Some(naming_cap(9, OpenOptions::readonly()))), 0);
    assert_eq!(cs.get_naming_capability(0).unwrap().invoke().unwrap().named_object.node, 9);
    assert_eq!(cs.receive_root_naming_capability(None), -1);
}

#[test]
fn revoke_syscall_capability_leaves_others() {
    let mut cs = space(5);
    cs.revoke_syscall_capability(3);
    assert!(cs.get_syscall_capability(3).unwrap().is_none());
    assert!(!cs.get_syscall_capability(2).unwrap().is_none());
    assert!(!cs.get_syscall_capability(4).unwrap().is_none());
    cs.revoke_syscall_capability(99);
    assert!(cs.get_syscall_capability(99).is_none());
}

#[test]
fn remove_syscall_capability_shifts_the_rest() {
    let mut cs = space(3);
    let removed = cs.remove_syscall_capability(1);
    assert_eq!(removed.invoke().unwrap().number(), 1);
    assert_eq!(cs.get_syscall_capability(1).unwrap().invoke().unwrap().number(), 2);
    assert!(cs.get_syscall_capability(2).is_none());
}

#[test]
fn get_mut_changes_in_place() {
    let mut cs = space(2);
    cs.get_syscall_capability_mut(0).unwrap().revoke();
    assert!(cs.get_syscall_capability(0).unwrap().is_none());
    assert!(cs.get_syscall_capability_mut(5).is_none());
    cs.receive_naming_capability(Some(naming_cap(1, OpenOptions::readonly())));
    cs.get_naming_capability_mut(0).unwrap().revoke();
    assert!(cs.get_naming_capability(0).unwrap().is_none());
    assert!(cs.get_naming_capability_mut(1).is_none());
}

#[test]
fn receive_syscall_capability_joins_same_object() {
    let sharer = space(3);
    let mut receiver = CSpace::new(&vec![0, 0, 0], None);
    // a share of the sharer's capability for call 1 refers to another object
    // than the receiver's own, so it takes that one's place
    let shared = shared_syscall_capability(&sharer, 1).unwrap();
    assert_eq!(receiver.receive_syscall_capability(Some(shared), 1), 1);
    assert_eq!(receiver.get_syscall_capability(1).unwrap().invoke().unwrap().function_pointer(), 0x1001);
    assert!(receiver.get_syscall_capability(1).unwrap().same_object(sharer.get_syscall_capability(1).unwrap()));
    assert_eq!(receiver.receive_syscall_capability(None, 1), -1);
    // a share of the receiver's own capability is joined into it
    let own = receiver.get_syscall_capability(2).unwrap().share(CapabilityFlags::read()).unwrap();
    assert_eq!(receiver.receive_syscall_capability(Some(own), 2), 2);
    assert_eq!(receiver.get_syscall_capability(2).unwrap().get_permissions().bits(), FLAG_READ | FLAG_EXECUTE | FLAG_SHARE);
}

#[test]
fn shared_syscall_capability_needs_share_permission() {
    let mut cs = space(2);
    assert!(shared_syscall_capability(&cs, 7).is_none());
    let s = shared_syscall_capability(&cs, 0).unwrap();
    assert_eq!(s.get_permissions().bits(), FLAG_READ | FLAG_EXECUTE | FLAG_SHARE);
    cs.revoke_syscall_capability(0);
    assert!(shared_syscall_capability(&cs, 0).is_none());
}

#[test]
fn deliver_syscall_capability_answers_minus_five_without_share() {
    let mut cs = space(2);
    assert_eq!(deliver_syscall_capability(&mut cs, None, 1), -5);
    let shared = Capability::syscall(Syscall::new(1, 5));
    assert_eq!(deliver_syscall_capability(&mut cs, Some(shared), 9), -5);
}

#[test]
fn sys_share_syscall_cap_between_threads() {
    let current = Capability::full_access(space(3));
    let receiver = Capability::full_access(space(3));
    assert_eq!(sys_share_syscall_cap(&current, Some(&receiver), 2), 2);
    assert_eq!(sys_share_syscall_cap(&current, None, 2), -5);
    let locked_out = Capability::new(space(3), CapabilityFlags::write());
    assert_eq!(sys_share_syscall_cap(&locked_out, Some(&receiver), 2), -5);
}

#[test]
fn sys_revoke_syscall_cap_revokes() {
    let target = Capability::full_access(space(3));
    assert_eq!(sys_revoke_syscall_cap(Some(&target), 1), 0);
    assert!(target.invoke().unwrap().get_syscall_capability(1).unwrap().is_none());
    assert_eq!(sys_revoke_syscall_cap(None, 1), -5);
}

#[test]
fn sys_share_naming_cap_hands_on_same_rights() {
    let mut sharer_space = space(1);
    sharer_space.receive_naming_capability(Some(naming_cap(3, shareable_rw())));
    sharer_space.receive_naming_capability(Some(naming_cap(4, OpenOptions::readwrite())));
    let current = Capability::full_access(sharer_space);
    let receiver = Capability::full_access(space(1));
    assert_eq!(sys_share_naming_cap(&current, Some(&receiver), 0), 0);
    assert_eq!(sys_share_naming_cap(&current, Some(&receiver), 0), 1);
    {
        let guard = receiver.invoke().unwrap();
        let cap = guard.get_naming_capability(1).unwrap();
        assert_eq!(cap.get_permissions().bits(), FLAG_READ | FLAG_WRITE | FLAG_SHARE);
        assert_eq!(cap.invoke().unwrap().named_object.node, 3);
    }
    // no share permission: nothing to hand on
    assert_eq!(sys_share_naming_cap(&current, Some(&receiver), 1), -1);
    // unknown handle
    assert_eq!(sys_share_naming_cap(&current, Some(&receiver), 7), -5);
    assert_eq!(sys_share_naming_cap(&current, None, 0), -1);
    assert_eq!(sys_naming_len(&receiver), 2);
}

#[test]
fn shared_and_delivered_naming_capability() {
    let mut cs = space(0);
    assert!(shared_naming_capability(&cs, 0).is_none());
    cs.receive_naming_capability(Some(naming_cap(1, OpenOptions::readonly())));
    assert!(shared_naming_capability(&cs, 0).unwrap().is_none());
    assert_eq!(deliver_naming_capability(&mut cs, None), -1);
    assert_eq!(deliver_naming_capability(&mut cs, Some(naming_cap(2, OpenOptions::readonly()))), 1);
}

#[test]
fn sys_naming_len_counts_or_answers_zero() {
    let mut cs = space(0);
    cs.receive_naming_capability(Some(naming_cap(1, OpenOptions::readonly())));
    let current = Capability::full_access(cs);
    assert_eq!(sys_naming_len(&current), 1);
    let unreadable = Capability::new(space(0), CapabilityFlags::write());
    assert_eq!(sys_naming_len(&unreadable), 0);
}

#[test]
fn revoke_own_naming_capability_nulls_it() {
    let mut cs = space(0);
    cs.receive_naming_capability(Some(naming_cap(1, OpenOptions::readonly())));
    assert_eq!(revoke_own_naming_capability(&mut cs, 0), 0);
    assert!(cs.get_naming_capability(0).unwrap().is_none());
    assert_eq!(revoke_own_naming_capability(&mut cs, 4), -5);
}

#[test]
fn sys_revoke_naming_cap_on_own_thread() {
    let mut cs = space(0);
    cs.receive_naming_capability(Some(naming_cap(1, OpenOptions::readonly())));
    let current = Capability::full_access(cs);
    assert_eq!(sys_revoke_naming_cap(&current, 10, 11, 0, None), -5);
    assert_eq!(sys_revoke_naming_cap(&current, 10, 10, 0, None), 0);
    assert!(current.invoke().unwrap().get_naming_capability(0).unwrap().is_none());
    assert_eq!(sys_revoke_naming_cap(&current, 10, 10, 3, None), -5);
}

#[test]
fn sys_revoke_naming_cap_on_another_thread() {
    let mut own = space(0);
    own.receive_naming_capability(Some(naming_cap(1, shareable_rw())));
    own.receive_naming_capability(Some(naming_cap(2, shareable_rw())));
    let current = Capability::full_access(own);
    let other = Capability::full_access(space(0));
    assert_eq!(sys_share_naming_cap(&current, Some(&other), 0), 0);
    assert_eq!(sys_share_naming_cap(&current, Some(&other), 1), 1);
    assert_eq!(sys_share_naming_cap(&current, Some(&other), 0), 2);
    assert_eq!(sys_revoke_naming_cap(&current, 10, 11, 0, Some(&other)), 0);
    {
        let guard = other.invoke().unwrap();
        assert!(guard.get_naming_capability(0).unwrap().is_none());
        assert!(!guard.get_naming_capability(1).unwrap().is_none());
        assert!(guard.get_naming_capability(2).unwrap().is_none());
    }
    // the current thread keeps its own capability
    assert!(!current.invoke().unwrap().get_naming_capability(0).unwrap().is_none());
    assert_eq!(sys_revoke_naming_cap(&current, 10, 11, 5, Some(&other)), -5);
}

#[test]
fn share_naming_between_spaces() {
    let mut sharer = space(0);
    sharer.receive_naming_capability(Some(naming_cap(1, shareable_rw())));
    sharer.receive_naming_capability(Some(naming_cap(2, OpenOptions::readwrite())));
    let mut receiver = space(0);
    assert_eq!(share_naming_between(&sharer, Some(&mut receiver), 0), 0);
    assert_eq!(receiver.get_naming_capabilities_len(), 1);
    assert_eq!(share_naming_between(&sharer, Some(&mut receiver), 1), -1);
    assert_eq!(share_naming_between(&sharer, Some(&mut receiver), 9), -5);
    assert_eq!(share_naming_between(&sharer, None, 0), -1);
    assert_eq!(receiver.get_naming_capabilities_len(), 1);
}

#[test]
fn revoke_same_object_in_a_space() {
    let target = naming_cap(1, shareable_rw());
    let mut cs = space(0);
    cs.receive_naming_capability(Some(target.share(CapabilityFlags::read()).unwrap()));
    cs.receive_naming_capability(Some(naming_cap(1, shareable_rw())));
    cs.revoke_same_object(&target);
    assert!(cs.get_naming_capability(0).unwrap().is_none());
    assert!(!cs.get_naming_capability(1).unwrap().is_none());
    let null: Capability<NamingObject> = Capability::null();
    cs.revoke_same_object(&null);
    assert!(!cs.get_naming_capability(1).unwrap().is_none());
}

#[test]
fn same_object_answers_mark_shared_copies() {
    let target = naming_cap(1, shareable_rw());
    let mut cs = space(0);
    cs.receive_naming_capability(Some(naming_cap(1, shareable_rw())));
    cs.receive_naming_capability(Some(target.share(CapabilityFlags::read()).unwrap()));
    cs.receive_naming_capability(Some(Capability::null()));
    assert_eq!(cs.same_object_answers(&target), vec![false, true, false]);
    assert_eq!(cs.same_object_answers(&Capability::null()), vec![false, false, false]);
}

#[test]
fn marked_capabilities_are_revoked_or_narrowed() {
    let mut cs = space(0);
    cs.receive_naming_capability(Some(naming_cap(1, shareable_rw())));
    cs.receive_naming_capability(Some(naming_cap(2, shareable_rw())));
    cs.remove_rights_marked(&vec![true, false], CapabilityFlags::write());
    assert_eq!(cs.get_naming_capability(0).unwrap().get_permissions().bits(), FLAG_READ | FLAG_SHARE);
    assert_eq!(cs.get_naming_capability(1).unwrap().get_permissions().bits(), FLAG_READ | FLAG_WRITE | FLAG_SHARE);
    cs.revoke_marked(&vec![false, true]);
    assert!(!cs.get_naming_capability(0).unwrap().is_none());
    assert!(cs.get_naming_capability(1).unwrap().is_none());
    assert_eq!(cs.get_naming_capability(1).unwrap().get_permissions().bits(), 0);
}

#[test]
fn shared_syscall_capability_reaches_a_revoked_slot() {
    let current = Capability::full_access(space(4));
    let mut receiving = space(4);
    receiving.revoke_syscall_capability(2);
    let receiver = Capability::full_access(receiving);
    assert_eq!(sys_share_syscall_cap(&current, Some(&receiver), 2), 2);
    let guard = receiver.invoke().unwrap();
    let slot = guard.get_syscall_capability(2).unwrap();
    assert_eq!(slot.get_permissions().bits(), FLAG_READ | FLAG_EXECUTE | FLAG_SHARE);
    let call = slot.invoke().unwrap();
    assert_eq!(call.number(), 2);
    assert_eq!(call.function_pointer(), 0x1002);
}

#[test]
fn sharing_with_oneself_adds_a_copy() {
    let mut own = space(3);
    own.receive_naming_capability(Some(naming_cap(1, shareable_rw())));
    let current = Capability::full_access(own);
    let same = current.share(CapabilityFlags::all()).unwrap();
    assert_eq!(sys_share_naming_cap(&current, Some(&same), 0), 1);
    assert_eq!(sys_share_syscall_cap(&current, Some(&same), 1), 1);
    let guard = current.invoke().unwrap();
    assert_eq!(guard.get_naming_capabilities_len(), 2);
    assert!(guard.get_naming_capability(1).unwrap().same_object(guard.get_naming_capability(0).unwrap()));
}

#[test]
fn rights_beyond_thirty_two_bits_revoke_nothing() {
    assert_eq!(capos::sys_caps::rights_to_revoke(FLAG_WRITE as usize).bits(), FLAG_WRITE);
    assert_eq!(capos::sys_caps::rights_to_revoke((1usize << 40) | FLAG_WRITE as usize).bits(), 0);
    assert_eq!(capos::sys_caps::rights_to_revoke(0x100).bits(), 0);
}

#[test]
fn same_object_only_for_shared_copies() {
    let a = naming_cap(1, shareable_rw());
    let b = a.share(CapabilityFlags::read()).unwrap();
    let c = naming_cap(1, shareable_rw());
    assert!(a.same_object(&b));
    assert!(!a.same_object(&c));
    assert!(!a.same_object(&Capability::null()));
}

#[test]
fn error_codes_are_distinct_and_negative() {
    let all = [
        Errno::EUNKN, Errno::ENOENT, Errno::EACCES, Errno::EEXIST, Errno::ENOTDIR, Errno::EINVAL, Errno::ENOTSUP,
        Errno::EBADSTR,
    ];
    for (i, a) in all.iter().enumerate() {
        assert!(a.code() < 0);
        assert_eq!(Errno::from_code(a.code()), Some(*a));
        for b in all.iter().skip(i + 1) {
            assert_ne!(a.code(), b.code());
        }
    }
    assert_eq!(Errno::from_code(-3), None);
}

#[test]
fn revoke_naming_rights_narrows_shared_copies() {
    let mut own = space(0);
    own.receive_naming_capability(Some(naming_cap(1, shareable_rw())));
    let current = Capability::full_access(own);
    let other = Capability::full_access(space(0));
    assert_eq!(sys_share_naming_cap(&current, Some(&other), 0), 0);
    assert_eq!(capos::sys_caps::sys_revoke_naming_rights(&current, 0, FLAG_WRITE as usize, Some(&other)), 0);
    {
        let guard = other.invoke().unwrap();
        assert_eq!(guard.get_naming_capability(0).unwrap().get_permissions().bits(), FLAG_READ | FLAG_SHARE);
    }
    // unknown bits take nothing away
    assert_eq!(capos::sys_caps::sys_revoke_naming_rights(&current, 0, 1 << 20, Some(&other)), 0);
    assert_eq!(other.invoke().unwrap().get_naming_capability(0).unwrap().get_permissions().bits(), FLAG_READ | FLAG_SHARE);
    assert_eq!(capos::sys_caps::sys_revoke_naming_rights(&current, 4, FLAG_WRITE as usize, Some(&other)), -5);
    assert_eq!(capos::sys_caps::sys_revoke_naming_rights(&current, 0, FLAG_WRITE as usize, None), -5);
    // the current thread keeps its rights
    assert_eq!(current.invoke().unwrap().get_naming_capability(0).unwrap().get_permissions().bits(), FLAG_READ | FLAG_WRITE | FLAG_SHARE);
}

#[test]
fn remove_permissions_keeps_the_object() {
    let mut cap = Capability::full_access(5u32);
    cap.remove_permissions(CapabilityFlags::write().union(CapabilityFlags::transfer()));
    assert_eq!(cap.get_permissions().bits(), FLAG_READ | FLAG_EXECUTE | FLAG_SHARE);
    assert_eq!(*cap.invoke().unwrap(), 5);
    assert_eq!(CapabilityFlags::all().difference(CapabilityFlags::read()).bits(), 0b11110);
}
