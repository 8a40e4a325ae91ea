use capos::capability::Capability;
use capos::cspace::CSpace;
use capos::errno::Errno;
use capos::naming_object::{create_naming_capability, NamedObject, NamingObject};
use capos::options::OpenOptions;
use capos::sys_naming::{sys_cd, sys_cwd, sys_mkdir, sys_mkfifo, sys_open, sys_read, sys_root, sys_seek, sys_touch, sys_write};

fn dir_cap() -> Capability<NamingObject> {
    create_naming_capability(
        NamedObject::directory(1),
        OpenOptions::readwrite().union(OpenOptions::create()),
        None,
        String::from("/"),
    )
}

fn space_with_dir() -> CSpace {
    let mut cs = CSpace::new(&vec![0; 4], None);
    cs.receive_naming_capability(Some(dir_cap()));
    cs.receive_naming_capability(Some(create_naming_capability(NamedObject::file(2), OpenOptions::readwrite(), None, String::from("/f"))));
    cs
}

#[test]
fn read_and_write_check_the_buffer_first() {
    let cs = space_with_dir();
    assert_eq!(sys_read(&cs, 1, true, 4, |_, _, _| Ok(1)), Errno::EINVAL.code());
    assert_eq!(sys_read(&cs, 1, false, 0, |_, _, _| Ok(1)), Errno::EINVAL.code());
    assert_eq!(sys_write(&cs, 1, false, 0, |_, _, _| Ok(1)), Errno::EINVAL.code());
    assert_eq!(sys_read(&cs, 9, false, 4, |_, _, _| Ok(1)), Errno::EACCES.code());
    assert_eq!(sys_read(&cs, 1, false, 4, |_, _, _| Ok(3)), 3);
    assert_eq!(sys_write(&cs, 1, false, 4, |_, _, _| Ok(4)), 4);
    assert_eq!(sys_write(&cs, 0, false, 4, |_, _, _| Ok(4)), Errno::ENOTSUP.code());
}

#[test]
fn seek_through_a_handle() {
    let cs = space_with_dir();
    assert_eq!(sys_seek(&cs, 1, 6, 0, |_| Ok(0)), 6);
    assert_eq!(sys_seek(&cs, 1, 1, 1, |_| Ok(0)), 7);
    assert_eq!(sys_seek(&cs, 5, 1, 1, |_| Ok(0)), Errno::EACCES.code());
}

#[test]
fn open_cannot_store_while_the_space_is_locked() {
    let cs = space_with_dir();
    let flags = OpenOptions::readwrite().bits();
    let path = String::from("/new");
    assert_eq!(sys_open(&cs, &path, flags, 0, Err(Errno::ENOENT), |_, _| Ok(NamedObject::file(3)), |_, _| Ok(NamedObject::file(3))), Errno::EACCES.code());
    assert_eq!(sys_open(&cs, &path, flags, 0, Ok(NamedObject::file(3)), |_, _| Ok(NamedObject::file(3)), |_, _| Ok(NamedObject::file(3))), Errno::EEXIST.code());
    assert_eq!(sys_open(&cs, &path, flags, 0, Err(Errno::ENOENT), |_, _| Err(Errno::ENOENT), |_, _| Ok(NamedObject::file(3))), Errno::ENOENT.code());
    assert_eq!(sys_open(&cs, &path, flags, 8, Err(Errno::ENOENT), |_, _| Ok(NamedObject::file(3)), |_, _| Ok(NamedObject::file(3))), Errno::EACCES.code());
}

#[test]
fn touch_cannot_store_while_the_space_is_locked() {
    let cs = space_with_dir();
    assert_eq!(sys_touch(&cs, "f2", 0, |_, _| Ok(NamedObject::file(3))), Errno::EACCES.code());
    assert_eq!(sys_touch(&cs, "/f2", 0, |_, _| Ok(NamedObject::file(3))), Errno::EINVAL.code());
    assert_eq!(sys_touch(&cs, "f2", 0, |_, _| Err(Errno::EEXIST)), Errno::EINVAL.code());
    assert_eq!(sys_touch(&cs, "f2", 7, |_, _| Ok(NamedObject::file(3))), Errno::EACCES.code());
}

#[test]
fn mkfifo_stores_the_new_pipe() {
    let mut cs = space_with_dir();
    let flags = OpenOptions::readwrite().bits();
    let r = sys_mkfifo(&mut cs, "/p", flags, 0, |_, _| Ok(NamedObject::pipe(4)), |_, _| Ok(NamedObject::pipe(4)), |_, _| Ok(NamedObject::pipe(4)));
    assert_eq!(r, 2);
    assert_eq!(cs.get_naming_capabilities_len(), 3);
    let r = sys_mkfifo(&mut cs, "/p", flags, 0, |_, _| Err(Errno::EEXIST), |_, _| Ok(NamedObject::pipe(4)), |_, _| Ok(NamedObject::pipe(4)));
    assert_eq!(r, Errno::ENOTDIR.code());
    let r = sys_mkfifo(&mut cs, "/p", flags, 9, |_, _| Ok(NamedObject::pipe(4)), |_, _| Ok(NamedObject::pipe(4)), |_, _| Ok(NamedObject::pipe(4)));
    assert_eq!(r, Errno::EACCES.code());
    assert_eq!(cs.get_naming_capabilities_len(), 3);
}

#[test]
fn mkdir_stores_in_the_current_space() {
    let current = Capability::full_access(space_with_dir());
    assert_eq!(sys_mkdir("d", dir_cap(), 0, &current, |_, _| Ok(NamedObject::directory(5))), 2);
    assert_eq!(sys_mkdir("d", dir_cap(), 0, &current, |_, _| Err(Errno::EEXIST)), Errno::EACCES.code());
}

#[test]
fn root_replaces_handle_zero() {
    let current = Capability::full_access(space_with_dir());
    let all = OpenOptions::all().bits();
    assert_eq!(sys_root(all, &current, Ok(NamedObject::directory(0))), 0);
    assert_eq!(sys_root(all, &current, Err(Errno::ENOENT)), Errno::ENOENT.code());
    let empty = Capability::full_access(CSpace::new(&vec![], None));
    assert_eq!(sys_root(all, &empty, Ok(NamedObject::directory(0))), Errno::EACCES.code());
}

#[test]
fn cwd_and_cd_system_calls() {
    let mut buf = [1u8; 4];
    assert_eq!(sys_cwd(false, &mut buf, "/ab"), 3);
    assert_eq!(buf, [b'/', b'a', b'b', 0]);
    assert_eq!(sys_cwd(true, &mut buf, "/ab"), Errno::EINVAL.code());
    let mut empty: [u8; 0] = [];
    assert_eq!(sys_cwd(false, &mut empty, "/ab"), Errno::EINVAL.code());
    let mut dir = String::from("/");
    assert_eq!(sys_cd(&String::from("/x"), Ok::<(), Errno>(()), &mut dir), 0);
    assert_eq!(dir, "/x");
    assert_eq!(sys_cd(&String::from("/y"), Err::<(), Errno>(Errno::ENOENT), &mut dir), Errno::ENOTDIR.code());
}

#[test]
fn close_and_readdir_system_calls() {
    let cs = space_with_dir();
    assert_eq!(capos::sys_naming::sys_close(&cs, 1, |_| Ok(3)), 0);
    assert_eq!(capos::sys_naming::sys_close(&cs, 1, |_| Err(Errno::ENOENT)), Errno::ENOENT.code());
    assert_eq!(capos::sys_naming::sys_close(&cs, 9, |_| Ok(0)), Errno::EACCES.code());
    let mut d = capos::naming_api::RawDirent::new();
    assert_eq!(capos::sys_naming::sys_readdir(true, 300, 264, Ok(None), Some(&mut d)), Errno::EINVAL.code());
    assert_eq!(capos::sys_naming::sys_readdir(false, 10, 264, Ok(None), Some(&mut d)), Errno::EINVAL.code());
    assert_eq!(capos::sys_naming::sys_readdir(false, 300, 264, Ok(Some((1, b"f".to_vec()))), Some(&mut d)), 1);
    assert_eq!(d.d_name[0], b'f');
    assert_eq!(capos::sys_naming::sys_readdir(false, 300, 264, Ok(None), Some(&mut d)), 0);
}

#[test]
fn mkfifo_system_call_answers_the_error_code() {
    let mut cs = space_with_dir();
    let flags = OpenOptions::readwrite().union(OpenOptions::create()).bits();
    let r = sys_mkfifo(&mut cs, "/q", flags, 0, |_, _| Ok(NamedObject::pipe(4)), |_, _| Err(Errno::EEXIST), |_, _| Ok(NamedObject::pipe(4)));
    assert_eq!(r, Errno::EEXIST.code());
    assert_eq!(cs.get_naming_capabilities_len(), 2);
}
