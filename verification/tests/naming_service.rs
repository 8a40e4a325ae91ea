use std::cell::Cell;
use std::sync::Arc;
use capos::naming_api::{seek_object, transfer_object};

use capos::capability::Capability;
use capos::errno::Errno;
use capos::flags::{FLAG_READ, FLAG_SHARE, FLAG_WRITE};
use capos::naming_api::{cd, close, cwd, init, mkdir, mkfifo, open, open_object, read, readdir, root, seek, touch, RawDirent};
use capos::naming_api;
use capos::naming_object::{create_naming_capability, NamedObject, NamingObject};
use capos::options::{OpenOptions, SeekOrigin};
use capos::path::{contains_slash, last_slash, split_parent};

fn cap_on(object: NamedObject, options: OpenOptions) -> Capability<NamingObject> {
    create_naming_capability(object, options, None, String::from("/x"))
}

fn rw() -> OpenOptions {
    OpenOptions::readwrite()
}

fn dir_with_create() -> Capability<NamingObject> {
    cap_on(NamedObject::directory(1), OpenOptions::readwrite().union(OpenOptions::create()))
}

#[test]
fn init_sets_root_as_working_directory() {
    let mut dir = String::from("/somewhere");
    let entries = vec![(String::from("a"), vec![1u8]), (String::from("b"), vec![2u8])];
    let failed = init(&mut dir, true, &entries, |name, _| if name == "b" { Err(Errno::EEXIST) } else { Ok(()) });
    assert_eq!(dir, "/");
    assert_eq!(failed, vec![false, true]);
}

#[test]
fn init_creates_boot_files_on_the_first_start_only() {
    let mut dir = String::from("/tmp");
    let entries = vec![(String::from("a"), vec![1u8])];
    let created = Cell::new(0);
    let failed = init(&mut dir, false, &entries, |_, _| {
        created.set(created.get() + 1);
        Ok(())
    });
    assert_eq!(created.get(), 0);
    assert!(failed.is_empty());
    assert_eq!(dir, "/");
}

#[test]
fn cwd_refuses_an_empty_buffer() {
    let mut empty: [u8; 0] = [];
    assert_eq!(cwd("/abc", &mut empty), Err(Errno::EINVAL));
}

#[test]
fn cwd_copies_and_terminates() {
    let mut buf = [9u8; 8];
    assert_eq!(cwd("/abc", &mut buf), Ok(4));
    assert_eq!(&buf, &[b'/', b'a', b'b', b'c', 0, 9, 9, 9]);
}

#[test]
fn cwd_truncates_to_fit_the_buffer() {
    let mut buf = [9u8; 3];
    assert_eq!(cwd("/abcdef", &mut buf), Ok(2));
    assert_eq!(&buf, &[b'/', b'a', 0]);
    let mut one = [7u8; 1];
    assert_eq!(cwd("/abc", &mut one), Ok(0));
    assert_eq!(one, [0]);
}

#[test]
fn cd_changes_only_to_a_directory() {
    let mut dir = String::from("/");
    assert_eq!(cd(&String::from("/tmp"), Ok::<(), Errno>(()), &mut dir), Ok(0));
    assert_eq!(dir, "/tmp");
    assert_eq!(cd(&String::from("/nope"), Err::<(), Errno>(Errno::ENOENT), &mut dir), Err(Errno::ENOTDIR));
    assert_eq!(dir, "/tmp");
}

#[test]
fn root_opens_with_every_option() {
    let cap = root(Ok(NamedObject::directory(0))).unwrap();
    assert_eq!(cap.get_permissions().bits(), FLAG_READ | FLAG_WRITE | FLAG_SHARE);
    assert_eq!(cap.invoke().unwrap().path, "/");
    assert_eq!(root(Err(Errno::ENOENT)).err(), Some(Errno::ENOENT));
}

#[test]
fn kernel_naming_rights_follow_options() {
    let ro = cap_on(NamedObject::file(1), OpenOptions::readonly());
    assert_eq!(ro.get_permissions().bits(), FLAG_READ);
    let wo = cap_on(NamedObject::file(1), OpenOptions::writeonly());
    assert_eq!(wo.get_permissions().bits(), FLAG_WRITE);
    let rws = cap_on(NamedObject::file(1), OpenOptions::readwrite().union(OpenOptions::share()));
    assert_eq!(rws.get_permissions().bits(), FLAG_READ | FLAG_WRITE | FLAG_SHARE);
    assert_eq!(cap_on(NamedObject::file(1), OpenOptions::empty()).get_permissions().bits(), 0);
}

#[test]
fn file_reads_and_writes_move_the_position() {
    let cap = cap_on(NamedObject::file(3), rw());
    let seen = Cell::new(usize::MAX);
    assert_eq!(naming_api::write(&cap, |_, pos, _| { seen.set(pos); Ok(5) }), Ok(5));
    assert_eq!(seen.get(), 0);
    assert_eq!(naming_api::write(&cap, |_, pos, _| { seen.set(pos); Ok(2) }), Ok(2));
    assert_eq!(seen.get(), 5);
    assert_eq!(read(&cap, |_, pos, _| { seen.set(pos); Ok(1) }), Ok(1));
    assert_eq!(seen.get(), 7);
    assert_eq!(cap.invoke().unwrap().position, 8);
    // an error leaves the position
    assert_eq!(read(&cap, |_, _, _| Err(Errno::EUNKN)), Err(Errno::EUNKN));
    assert_eq!(cap.invoke().unwrap().position, 8);
}

#[test]
fn pipes_are_used_from_position_zero() {
    let cap = cap_on(NamedObject::pipe(3), rw());
    let seen = Cell::new(usize::MAX);
    assert_eq!(naming_api::write(&cap, |o, pos, opts| { assert!(o.is_pipe()); assert_eq!(opts, OpenOptions::readwrite()); seen.set(pos); Ok(4) }), Ok(4));
    assert_eq!(seen.get(), 0);
    assert_eq!(read(&cap, |_, pos, _| { seen.set(pos); Ok(4) }), Ok(4));
    assert_eq!(seen.get(), 0);
    assert_eq!(cap.invoke().unwrap().position, 0);
}

#[test]
fn directories_cannot_be_read_or_written() {
    let cap = cap_on(NamedObject::directory(3), rw());
    assert_eq!(read(&cap, |_, _, _| Ok(1)), Err(Errno::ENOTSUP));
    assert_eq!(naming_api::write(&cap, |_, _, _| Ok(1)), Err(Errno::ENOTSUP));
}

#[test]
fn unreadable_capability_answers_eacces() {
    let cap = cap_on(NamedObject::file(3), OpenOptions::writeonly());
    assert_eq!(naming_api::write(&cap, |_, _, _| Ok(1)), Err(Errno::EACCES));
    assert_eq!(read(&cap, |_, _, _| Ok(1)), Err(Errno::EACCES));
    assert_eq!(seek(&cap, 0, SeekOrigin::Start, |_| Ok(0)), Err(Errno::EACCES));
}

#[test]
fn seek_counts_from_each_origin() {
    let cap = cap_on(NamedObject::file(3), rw());
    assert_eq!(seek(&cap, 10, SeekOrigin::Start, |_| Ok(100)), Ok(10));
    assert_eq!(seek(&cap, 5, SeekOrigin::Current, |_| Ok(100)), Ok(15));
    assert_eq!(seek(&cap, 1, SeekOrigin::End, |_| Ok(100)), Ok(101));
    assert_eq!(cap.invoke().unwrap().position, 101);
    assert_eq!(seek(&cap, 1, SeekOrigin::End, |_| Err(Errno::EUNKN)), Err(Errno::EUNKN));
    assert_eq!(cap.invoke().unwrap().position, 101);
    let pipe = cap_on(NamedObject::pipe(3), rw());
    assert_eq!(seek(&pipe, 1, SeekOrigin::Start, |_| Ok(0)), Err(Errno::ENOTSUP));
}

#[test]
fn seek_origin_from_number() {
    assert_eq!(SeekOrigin::from_primitive(0), SeekOrigin::Start);
    assert_eq!(SeekOrigin::from_primitive(1), SeekOrigin::Current);
    assert_eq!(SeekOrigin::from_primitive(2), SeekOrigin::End);
    assert_eq!(SeekOrigin::from_primitive(77), SeekOrigin::Start);
}

#[test]
fn touch_validates_the_name() {
    let dir = dir_with_create();
    assert_eq!(touch("", &dir, |_, _| Ok(NamedObject::file(2))).err(), Some(Errno::EINVAL));
    assert_eq!(touch("a/b", &dir, |_, _| Ok(NamedObject::file(2))).err(), Some(Errno::EINVAL));
}

#[test]
fn touch_creates_in_a_directory_with_create() {
    let dir = dir_with_create();
    let made = touch("file", &dir, |d, name| {
        assert_eq!(d.node, 1);
        assert_eq!(name, "file");
        Ok(NamedObject::file(2))
    })
    .unwrap();
    assert_eq!(made.get_permissions().bits(), 0);
    {
        let guard = made.invoke();
        assert!(guard.is_none());
    }
    assert_eq!(touch("file", &dir, |_, _| Err(Errno::EEXIST)).err(), Some(Errno::ENOTDIR));
    let no_create = cap_on(NamedObject::directory(1), rw());
    assert_eq!(touch("file", &no_create, |_, _| Ok(NamedObject::file(2))).err(), Some(Errno::EINVAL));
    let not_dir = cap_on(NamedObject::file(1), rw().union(OpenOptions::create()));
    assert_eq!(touch("file", &not_dir, |_, _| Ok(NamedObject::file(2))).err(), Some(Errno::EINVAL));
}

#[test]
fn mkdir_needs_create_on_a_directory() {
    let made = mkdir("sub", dir_with_create(), 7, |_, name| {
        assert_eq!(name, "sub");
        Ok(NamedObject::directory(4))
    })
    .unwrap();
    assert_eq!(made.get_permissions().bits(), FLAG_READ | FLAG_WRITE | FLAG_SHARE);
    {
        let guard = made.invoke().unwrap();
        assert_eq!(guard.parent_handle, Some(7));
        assert_eq!(*guard.named_object, NamedObject::directory(4));
        assert_eq!(guard.access_rights, OpenOptions::all());
        assert_eq!(guard.path, "sub");
        assert_eq!(guard.position, 0);
    }
    assert_eq!(mkdir("sub", dir_with_create(), 7, |_, _| Err(Errno::EEXIST)).err(), Some(Errno::EACCES));
    assert_eq!(mkdir("sub", cap_on(NamedObject::directory(1), rw()), 7, |_, _| Ok(NamedObject::directory(4))).err(), Some(Errno::EACCES));
    let file = cap_on(NamedObject::file(1), rw().union(OpenOptions::create()));
    assert_eq!(mkdir("sub", file, 7, |_, _| Ok(NamedObject::directory(4))).err(), Some(Errno::ENOTDIR));
}

#[test]
fn open_refuses_an_existing_name() {
    let dir = dir_with_create();
    let path = String::from("/a");
    let r = open(&path, rw(), &dir, Ok(NamedObject::file(1)), |_, _| Ok(NamedObject::file(1)), |_, _| Ok(NamedObject::file(1)));
    assert_eq!(r.err(), Some(Errno::EEXIST));
    let r = open(&path, rw(), &dir, Err(Errno::ENOENT), |_, _| Ok(NamedObject::file(5)), |_, _| Ok(NamedObject::file(1)));
    let cap = r.unwrap();
    assert_eq!(cap.get_permissions().bits(), FLAG_READ | FLAG_WRITE);
    let guard = cap.invoke().unwrap();
    assert_eq!(*guard.named_object, NamedObject::file(5));
    assert_eq!(guard.access_rights, rw());
    assert_eq!(guard.path, "/a");
    assert_eq!(guard.position, 0);
}

#[test]
fn open_object_without_create_answers_the_error() {
    let dir = dir_with_create();
    let r = open_object(&String::from("x"), rw(), &dir, |_, _| Err(Errno::ENOENT), |_, _| Ok(NamedObject::file(1)));
    assert_eq!(r.err(), Some(Errno::ENOENT));
}

#[test]
fn open_object_creates_then_opens_again() {
    let dir = dir_with_create();
    let calls = Cell::new(0);
    let flags = rw().union(OpenOptions::create());
    let r = open_object(
        &String::from("x"),
        flags,
        &dir,
        |_, _| {
            calls.set(calls.get() + 1);
            if calls.get() == 1 { Err(Errno::ENOENT) } else { Ok(NamedObject::file(8)) }
        },
        |_, name| {
            assert_eq!(name, "x");
            Ok(NamedObject::file(8))
        },
    );
    assert_eq!(calls.get(), 2);
    assert_eq!(r.unwrap().invoke().unwrap().named_object.node, 8);
    // an existing object is not created again
    let r = open_object(&String::from("x"), flags, &dir, |_, _| Err(Errno::EEXIST), |_, _| Ok(NamedObject::file(8)));
    assert_eq!(r.err(), Some(Errno::EEXIST));
    // a path with a slash is refused by the creation step
    let r = open_object(&String::from("/x"), flags, &dir, |_, _| Err(Errno::ENOENT), |_, _| Ok(NamedObject::file(8)));
    assert_eq!(r.err(), Some(Errno::EINVAL));
}

#[test]
fn mkfifo_creates_in_the_parent_directory() {
    let dir = dir_with_create();
    let r = mkfifo(
        "/pipes/p1",
        rw(),
        &dir,
        |parent, name| {
            assert_eq!(parent, "/pipes");
            assert_eq!(name, "p1");
            Ok(NamedObject::pipe(3))
        },
        |path, _| {
            assert_eq!(path, "/pipes/p1");
            Ok(NamedObject::pipe(3))
        },
        |_, _| Ok(NamedObject::pipe(3)),
    );
    assert_eq!(r.unwrap().get_permissions().bits(), FLAG_READ | FLAG_WRITE);
    let r = mkfifo("/p2", rw(), &dir, |parent, name| { assert_eq!(parent, "/"); assert_eq!(name, "p2"); Err(Errno::ENOENT) },
        |_, _| Ok(NamedObject::pipe(3)), |_, _| Ok(NamedObject::pipe(3)));
    assert_eq!(r.err(), Some(Errno::ENOTDIR));
}

#[test]
fn paths_split_at_the_last_slash() {
    assert_eq!(split_parent("/client1"), (String::from("/"), String::from("client1")));
    assert_eq!(split_parent("/a/b/c"), (String::from("/a/b"), String::from("c")));
    assert_eq!(split_parent("plain"), (String::new(), String::from("plain")));
    assert_eq!(split_parent("a/b"), (String::from("/"), String::from("b")));
    assert_eq!(split_parent("/a/"), (String::from("/a"), String::new()));
    assert_eq!(split_parent(""), (String::new(), String::new()));
    assert_eq!(split_parent("/ä/ö"), (String::from("/ä"), String::from("ö")));
    assert_eq!(last_slash("/a/b"), Some(2));
    assert_eq!(last_slash("ab"), None);
    assert!(contains_slash("x/"));
    assert!(!contains_slash("xy"));
}

#[test]
fn transfer_and_seek_decide_by_object_kind() {
    let mut file = NamingObject {
        named_object: Arc::new(NamedObject::file(1)),
        access_rights: rw(),
        position: 10,
        path: String::from("/f"),
        parent_handle: None,
    };
    let seen = Cell::new(0);
    assert_eq!(transfer_object(&mut file, |_, pos, _| { seen.set(pos); Ok(3) }), Ok(3));
    assert_eq!(seen.get(), 10);
    assert_eq!(file.position, 13);
    assert_eq!(seek_object(&mut file, 2, SeekOrigin::Current, |_| Ok(0)), Ok(15));
    assert_eq!(seek_object(&mut file, usize::MAX, SeekOrigin::End, |_| Ok(2)), Ok(1));
    let mut dir = NamingObject {
        named_object: Arc::new(NamedObject::directory(1)),
        access_rights: rw(),
        position: 0,
        path: String::from("/d"),
        parent_handle: None,
    };
    assert_eq!(transfer_object(&mut dir, |_, _, _| Ok(3)), Err(Errno::ENOTSUP));
    assert_eq!(seek_object(&mut dir, 0, SeekOrigin::Start, |_| Ok(0)), Err(Errno::ENOTSUP));
}

#[test]
fn split_path_rejoins() {
    let (parent, name) = split_parent("/a/b/c");
    assert_eq!(format!("{}/{}", parent, name), "/a/b/c");
    assert!(!name.contains('/'));
}

#[test]
fn seek_from_current_counts_from_the_position() {
    let cap = cap_on(NamedObject::file(3), rw());
    assert_eq!(naming_api::write(&cap, |_, _, _| Ok(7)), Ok(7));
    assert_eq!(seek(&cap, 3, SeekOrigin::Current, |_| Ok(0)), Ok(10));
    let seen = Cell::new(0);
    assert_eq!(read(&cap, |_, pos, _| { seen.set(pos); Ok(0) }), Ok(0));
    assert_eq!(seen.get(), 10);
}

#[test]
fn close_answers_zero_or_eacces() {
    let closed = Cell::new(0);
    let r = close(&cap_on(NamedObject::file(1), rw()), |o| {
        closed.set(o.node);
        Ok(5)
    });
    assert_eq!(r, Ok(0));
    assert_eq!(closed.get(), 1);
    assert_eq!(close(&cap_on(NamedObject::file(2), rw()), |_| Err(Errno::ENOENT)), Err(Errno::ENOENT));
    assert_eq!(close(&cap_on(NamedObject::file(1), OpenOptions::writeonly()), |_| Ok(0)), Err(Errno::EACCES));
}

#[test]
fn readdir_fills_the_entry() {
    let mut d = RawDirent::new();
    d.d_name[10] = 9;
    assert_eq!(readdir(Ok(Some((2, b"name".to_vec()))), Some(&mut d)), Ok(1));
    assert_eq!(d.d_type, 2);
    assert_eq!(&d.d_name[..4], b"name");
    assert!(d.d_name[4..].iter().all(|b| *b == 0));
    let long = vec![b'x'; 300];
    assert_eq!(readdir(Ok(Some((1, long))), Some(&mut d)), Ok(1));
    assert!(d.d_name[..255].iter().all(|b| *b == b'x'));
    assert_eq!(d.d_name[255], 0);
    assert_eq!(readdir(Ok(None), Some(&mut d)), Ok(0));
    assert_eq!(readdir(Ok(Some((1, vec![]))), None), Err(Errno::EUNKN));
    assert_eq!(readdir(Err(Errno::ENOTDIR), None), Err(Errno::ENOTDIR));
}
