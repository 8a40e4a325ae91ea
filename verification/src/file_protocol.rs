//! The protocol between the file server and its clients, spoken over a pipe:
//! a command of 9 bytes (a command byte and a little-endian number), and the
//! file server's store of files by handle.
use vstd::prelude::*;
use std::collections::BTreeMap;
use crate::errno::Errno;

verus! {

/// The command byte that asks the server to store a file.
pub const COMMAND_WRITE: u8 = 1;
/// The command byte that asks the server for a file.
pub const COMMAND_READ: u8 = 2;

/// The 8 little-endian bytes of `v`.
pub open spec fn le_bytes(v: u64) -> Seq<u8> {
    seq![
        (v & 0xff) as u8,
        ((v >> 8u64) & 0xff) as u8,
        ((v >> 16u64) & 0xff) as u8,
        ((v >> 24u64) & 0xff) as u8,
        ((v >> 32u64) & 0xff) as u8,
        ((v >> 40u64) & 0xff) as u8,
        ((v >> 48u64) & 0xff) as u8,
        ((v >> 56u64) & 0xff) as u8,
    ]
}

/// The number that 8 little-endian bytes hold.
pub open spec fn le_value(b0: u8, b1: u8, b2: u8, b3: u8, b4: u8, b5: u8, b6: u8, b7: u8) -> u64 {
    (b0 as u64) | ((b1 as u64) << 8u64) | ((b2 as u64) << 16u64) | ((b3 as u64) << 24u64)
        | ((b4 as u64) << 32u64) | ((b5 as u64) << 40u64) | ((b6 as u64) << 48u64) | ((b7 as u64) << 56u64)
}

/// The number that the first 8 bytes of `b` hold, little-endian.
pub open spec fn le_seq_value(b: Seq<u8>) -> u64
    recommends b.len() >= 8,
{
    le_value(b[0], b[1], b[2], b[3], b[4], b[5], b[6], b[7])
}

/// Reading back the bytes of a number gives the number.
pub proof fn lemma_le_round_trip(v: u64)
    ensures le_seq_value(le_bytes(v)) == v,
{
    let b = le_bytes(v);
    assert(le_value(
        (v & 0xff) as u8,
        ((v >> 8u64) & 0xff) as u8,
        ((v >> 16u64) & 0xff) as u8,
        ((v >> 24u64) & 0xff) as u8,
        ((v >> 32u64) & 0xff) as u8,
        ((v >> 40u64) & 0xff) as u8,
        ((v >> 48u64) & 0xff) as u8,
        ((v >> 56u64) & 0xff) as u8,
    ) == v) by (bit_vector);
}

/// The bytes of the number that 8 bytes hold are those bytes.
pub proof fn lemma_le_bytes_of_value(b0: u8, b1: u8, b2: u8, b3: u8, b4: u8, b5: u8, b6: u8, b7: u8)
    ensures le_bytes(le_value(b0, b1, b2, b3, b4, b5, b6, b7)) == seq![b0, b1, b2, b3, b4, b5, b6, b7],
{
    let v = le_value(b0, b1, b2, b3, b4, b5, b6, b7);
    assert((v & 0xff) as u8 == b0) by (bit_vector)
        requires v == le_value(b0, b1, b2, b3, b4, b5, b6, b7);
    assert(((v >> 8u64) & 0xff) as u8 == b1) by (bit_vector)
        requires v == le_value(b0, b1, b2, b3, b4, b5, b6, b7);
    assert(((v >> 16u64) & 0xff) as u8 == b2) by (bit_vector)
        requires v == le_value(b0, b1, b2, b3, b4, b5, b6, b7);
    assert(((v >> 24u64) & 0xff) as u8 == b3) by (bit_vector)
        requires v == le_value(b0, b1, b2, b3, b4, b5, b6, b7);
    assert(((v >> 32u64) & 0xff) as u8 == b4) by (bit_vector)
        requires v == le_value(b0, b1, b2, b3, b4, b5, b6, b7);
    assert(((v >> 40u64) & 0xff) as u8 == b5) by (bit_vector)
        requires v == le_value(b0, b1, b2, b3, b4, b5, b6, b7);
    assert(((v >> 48u64) & 0xff) as u8 == b6) by (bit_vector)
        requires v == le_value(b0, b1, b2, b3, b4, b5, b6, b7);
    assert(((v >> 56u64) & 0xff) as u8 == b7) by (bit_vector)
        requires v == le_value(b0, b1, b2, b3, b4, b5, b6, b7);
    assert(le_bytes(v) =~= seq![b0, b1, b2, b3, b4, b5, b6, b7]);
}

/// The 8 little-endian bytes of `v`.
pub fn u64_to_le_bytes(v: u64) -> (r: [u8; 8])
    ensures r@ == le_bytes(v),
{
    let r = [
        (v & 0xff) as u8,
        ((v >> 8u64) & 0xff) as u8,
        ((v >> 16u64) & 0xff) as u8,
        ((v >> 24u64) & 0xff) as u8,
        ((v >> 32u64) & 0xff) as u8,
        ((v >> 40u64) & 0xff) as u8,
        ((v >> 48u64) & 0xff) as u8,
        ((v >> 56u64) & 0xff) as u8,
    ];
    assert(r@ =~= le_bytes(v));
    r
}

/// The number that the 8 bytes of `b` starting at `start` hold, little-endian.
pub fn u64_from_le_bytes(b: &[u8], start: usize) -> (r: u64)
    requires start + 8 <= b@.len(),
    ensures r == le_seq_value(b@.subrange(start as int, start + 8)),
{
    let r = (b[start] as u64) | ((b[start + 1] as u64) << 8u64) | ((b[start + 2] as u64) << 16u64)
        | ((b[start + 3] as u64) << 24u64) | ((b[start + 4] as u64) << 32u64) | ((b[start + 5] as u64) << 40u64)
        | ((b[start + 6] as u64) << 48u64) | ((b[start + 7] as u64) << 56u64);
    r
}

/// The command that asks the server to store a file of `len` bytes: the
/// command byte, then the length.
pub open spec fn spec_write_command(len: u64) -> Seq<u8> {
    seq![COMMAND_WRITE] + le_bytes(len)
}

/// The command that asks the server for the file with the given handle: the
/// command byte, then the handle.
pub open spec fn spec_read_command(handle: u64) -> Seq<u8> {
    seq![COMMAND_READ] + le_bytes(handle)
}

fn command(code: u8, v: u64) -> (r: [u8; 9])
    ensures r@ == seq![code] + le_bytes(v),
{
    let b = u64_to_le_bytes(v);
    let r = [code, b[0], b[1], b[2], b[3], b[4], b[5], b[6], b[7]];
    assert(r@ =~= seq![code] + le_bytes(v));
    r
}

/// The command that asks the server to store a file of `len` bytes.
pub fn write_command(len: u64) -> (r: [u8; 9])
    ensures r@ == spec_write_command(len),
{
    command(COMMAND_WRITE, len)
}

/// The command that asks the server for the file with the given handle.
pub fn read_command(handle: u64) -> (r: [u8; 9])
    ensures r@ == spec_read_command(handle),
{
    command(COMMAND_READ, handle)
}

/// What a command asks of the server.
#[derive(Clone, Copy, Debug, PartialEq, Eq, Structural)]
pub enum Request {
    /// Store a file of `size` bytes, which follow the command.
    Write { size: u64 },
    /// Send back the file with the given handle.
    Read { handle: u64 },
    /// A command the server does not know, which it ignores.
    Unknown,
}

/// What the command `cmd` asks: its first byte names the request, the next
/// 8 bytes hold its number.
pub open spec fn spec_request(cmd: Seq<u8>) -> Request
    recommends cmd.len() == 9,
{
    if cmd[0] == COMMAND_WRITE {
        Request::Write { size: le_seq_value(cmd.subrange(1, 9)) }
    } else if cmd[0] == COMMAND_READ {
        Request::Read { handle: le_seq_value(cmd.subrange(1, 9)) }
    } else {
        Request::Unknown
    }
}

/// What the command `cmd` asks of the server.
pub fn decode_request(cmd: &[u8; 9]) -> (r: Request)
    ensures r == spec_request(cmd@),
{
    let v = u64_from_le_bytes(cmd.as_slice(), 1);
    if cmd[0] == COMMAND_WRITE {
        Request::Write { size: v }
    } else if cmd[0] == COMMAND_READ {
        Request::Read { handle: v }
    } else {
        Request::Unknown
    }
}

/// A command read back asks for what it was written to ask.
pub proof fn lemma_command_round_trip(v: u64)
    ensures
        spec_request(spec_write_command(v)) == (Request::Write { size: v }),
        spec_request(spec_read_command(v)) == (Request::Read { handle: v }),
{
    lemma_le_round_trip(v);
    assert(spec_write_command(v).subrange(1, 9) =~= le_bytes(v));
    assert(spec_read_command(v).subrange(1, 9) =~= le_bytes(v));
}

/// The handle the server sends back after storing a file.
pub fn decode_handle(reply: &[u8; 8]) -> (r: u64)
    ensures r == le_seq_value(reply@),
{
    let r = u64_from_le_bytes(reply.as_slice(), 0);
    assert(reply@.subrange(0, 8) =~= reply@);
    r
}

/// The size of the file the server sends back: `ENOENT` where it sent 0,
/// which it does for an unknown handle.
pub fn decode_file_size(reply: &[u8; 8]) -> (r: Result<u64, Errno>)
    ensures
        le_seq_value(reply@) == 0 ==> r == Err::<u64, Errno>(Errno::ENOENT),
        le_seq_value(reply@) != 0 ==> r == Ok::<u64, Errno>(le_seq_value(reply@)),
{
    let size = decode_handle(reply);
    if size == 0 {
        return Err(Errno::ENOENT);
    }
    Ok(size)
}

/// The file server: the files it stores, by handle.
pub struct FileServer {
    files: BTreeMap<u64, Vec<u8>>,
    next_handle: u64,
    command_pipe_handle: usize,
}

/// The handle under which the server stores a new file: one past the next
/// handle it keeps. The next handle never moves, so every file is stored
/// under the same handle and replaces the one before.
pub open spec fn store_handle(next_handle: u64) -> u64 {
    next_handle.wrapping_add(1)
}

impl FileServer {
    /// The files, by handle.
    pub closed spec fn files(self) -> Map<u64, Seq<u8>> {
        Map::new(|h: u64| self.files@.contains_key(h), |h: u64| self.files@[h]@)
    }

    /// The handle the next file is stored under.
    pub closed spec fn spec_store_handle(self) -> u64 {
        store_handle(self.next_handle)
    }

    /// The pipe on which the server takes commands.
    pub closed spec fn spec_command_pipe(self) -> usize {
        self.command_pipe_handle
    }

    /// A server with no files, taking commands on `pipe_handle`.
    pub fn new(pipe_handle: usize) -> (r: Self)
        ensures
            r.files() == Map::<u64, Seq<u8>>::empty(),
            r.spec_store_handle() == 2,
            r.spec_command_pipe() == pipe_handle,
    {
        let r = FileServer { files: BTreeMap::new(), next_handle: 1, command_pipe_handle: pipe_handle };
        assert(r.files() =~= Map::<u64, Seq<u8>>::empty());
        r
    }

    /// The pipe on which the server takes commands.
    pub fn command_pipe(&self) -> (r: usize)
        ensures r == self.spec_command_pipe(),
    {
        self.command_pipe_handle
    }

    /// Stores `content` and answers the bytes of its handle, which the server
    /// sends back.
    pub fn store(&mut self, content: Vec<u8>) -> (r: [u8; 8])
        ensures
            r@ == le_bytes(old(self).spec_store_handle()),
            final(self).files() == old(self).files().insert(old(self).spec_store_handle(), content@),
            final(self).spec_store_handle() == old(self).spec_store_handle(),
            final(self).spec_command_pipe() == old(self).spec_command_pipe(),
    {
        let handle = self.next_handle.wrapping_add(1);
        self.files.insert(handle, content);
        assert(self.files() =~= old(self).files().insert(handle, content@));
        u64_to_le_bytes(handle)
    }

    /// What the server sends back for a request of the file `handle`: the
    /// bytes of the file's size and the file, or the bytes of 0 and nothing
    /// where it has no such file.
    pub fn lookup(&self, handle: u64) -> (r: ([u8; 8], Option<&Vec<u8>>))
        ensures
            self.files().contains_key(handle) ==> r.0@ == le_bytes(self.files()[handle].len() as u64),
            self.files().contains_key(handle) ==> (r.1 matches Some(c) && c@ == self.files()[handle]),
            !self.files().contains_key(handle) ==> r.0@ == le_bytes(0) && r.1 is None,
    {
        match self.files.get(&handle) {
            Some(content) => (u64_to_le_bytes(content.len() as u64), Some(content)),
            None => (u64_to_le_bytes(0), None),
        }
    }
}

/// A file the server stores is what a request of its handle sends back.
pub proof fn lemma_stored_file_is_served(files: Map<u64, Seq<u8>>, handle: u64, content: Seq<u8>)
    ensures
        files.insert(handle, content).contains_key(handle),
        files.insert(handle, content)[handle] == content,
{
}

} // verus!
