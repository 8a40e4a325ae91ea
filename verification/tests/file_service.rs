use capos::errno::{convert_ret_code_to_syscall_result, convert_syscall_result_to_ret_code, Errno};
use capos::file_protocol::{
    decode_file_size, decode_handle, decode_request, read_command, u64_from_le_bytes, u64_to_le_bytes, write_command,
    FileServer, Request,
};
use capos::sys_naming::bytes_to_string;
use capos::user_capability::{get_naming_len, revoke, share_naming_object, share_syscall, Capability};

#[test]
fn numbers_travel_little_endian() {
    assert_eq!(u64_to_le_bytes(0x0102030405060708), [8, 7, 6, 5, 4, 3, 2, 1]);
    for v in [0u64, 1, 255, 256, 0xdead_beef, u64::MAX] {
        assert_eq!(u64_from_le_bytes(&u64_to_le_bytes(v), 0), v);
        assert_eq!(u64_to_le_bytes(v), v.to_le_bytes());
    }
}

#[test]
fn commands_decode_to_what_they_ask() {
    assert_eq!(write_command(19), [1, 19, 0, 0, 0, 0, 0, 0, 0]);
    assert_eq!(read_command(2), [2, 2, 0, 0, 0, 0, 0, 0, 0]);
    assert_eq!(decode_request(&write_command(300)), Request::Write { size: 300 });
    assert_eq!(decode_request(&read_command(7)), Request::Read { handle: 7 });
    assert_eq!(decode_request(&[9, 0, 0, 0, 0, 0, 0, 0, 0]), Request::Unknown);
}

#[test]
fn replies_decode() {
    assert_eq!(decode_handle(&[2, 0, 0, 0, 0, 0, 0, 0]), 2);
    assert_eq!(decode_file_size(&[0; 8]), Err(Errno::ENOENT));
    assert_eq!(decode_file_size(&[5, 0, 0, 0, 0, 0, 0, 0]), Ok(5));
}

#[test]
fn stored_file_is_served_back() {
    let mut server = FileServer::new(4);
    assert_eq!(server.command_pipe(), 4);
    let handle_bytes = server.store(b"Hello, File Server!".to_vec());
    let handle = decode_handle(&handle_bytes);
    assert_eq!(handle, 2);
    let (size, content) = server.lookup(handle);
    assert_eq!(decode_file_size(&size), Ok(19));
    assert_eq!(content.unwrap().as_slice(), b"Hello, File Server!");
    let (size, content) = server.lookup(3);
    assert_eq!(size, [0; 8]);
    assert!(content.is_none());
}

#[test]
fn every_file_goes_under_the_same_handle() {
    let mut server = FileServer::new(4);
    let first = server.store(vec![1]);
    let second = server.store(vec![2, 3]);
    assert_eq!(first, second);
    assert_eq!(server.lookup(decode_handle(&first)).1.unwrap(), &vec![2, 3]);
}

#[test]
fn return_codes_round_trip() {
    assert_eq!(convert_syscall_result_to_ret_code(Ok(12)), 12);
    assert_eq!(convert_syscall_result_to_ret_code(Err(Errno::EACCES)), Errno::EACCES.code());
    assert_eq!(convert_ret_code_to_syscall_result(12), Ok(12));
    assert_eq!(convert_ret_code_to_syscall_result(Errno::ENOTDIR.code()), Err(Errno::ENOTDIR));
}

#[test]
fn string_arguments_must_be_utf8() {
    assert_eq!(bytes_to_string(b"/dir/file"), Ok(String::from("/dir/file")));
    assert_eq!(bytes_to_string(&[0xff, 0xfe]), Err(Errno::EBADSTR));
    assert_eq!(bytes_to_string(b""), Ok(String::new()));
}

#[test]
fn user_capability_library_reads_answers() {
    let cap = Capability::new(3);
    assert_eq!(cap.handle(), 3);
    assert!(share_syscall(Ok(0)));
    assert!(!share_syscall(Ok(4)));
    assert_eq!(revoke(Ok(13)), 13);
    assert_eq!(revoke(Err(Errno::EACCES)), Errno::EACCES.code());
    assert_eq!(share_naming_object(Ok(2)), 2);
    assert_eq!(share_naming_object(Err(Errno::EINVAL)), Errno::EINVAL.code());
    assert_eq!(get_naming_len(Ok(5)), 5);
    assert_eq!(get_naming_len(Err(Errno::EUNKN)), 0);
}
