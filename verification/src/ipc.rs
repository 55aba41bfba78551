//! Local connections of one operating-system user. No bearer secrets, DNS,
//! proxy, or TCP fallback.
//!
//! This authenticates an account, not the applications that run under it.
use crate::digest::{
    hex, hex_text, law_hex_is_exact, push_bytes, sha256, sha256_digest, sha256_hex, sha256_text,
};
use crate::native_credentials::{byte_weight, lemma_same_high_bytes};
use crate::text::{decimal, decimal_text, same_text};
use vstd::prelude::*;
use vstd::string::*;

verus! {

/// Where the daemon of a database listens.
#[derive(Clone, Debug, PartialEq, Eq)]
pub struct Endpoint {
    path: String,
}

impl View for Endpoint {
    type V = Seq<char>;

    closed spec fn view(&self) -> Seq<char> {
        self.path@
    }
}

/// The directory of a user's sockets. A short, fixed base keeps the paths within
/// what a socket address can hold.
pub open spec fn socket_directory(uid: u32) -> Seq<char> {
    "/tmp/bastet-workstation-"@ + decimal(uid as nat)
}

/// The socket of a user's daemon for a database: the database's canonical path
/// goes into it by the first half of its digest.
pub open spec fn socket_path(identity: Seq<u8>, uid: u32) -> Seq<char> {
    socket_directory(uid) + "/"@ + hex(sha256(identity).take(16)) + ".sock"@
}

/// Two databases of a user have the same socket exactly if the first halves of
/// the digests of their canonical paths are the same.
pub proof fn law_sockets_are_told_apart(identity: Seq<u8>, other: Seq<u8>, uid: u32)
    ensures
        socket_path(identity, uid) == socket_path(other, uid) <==> sha256(identity).take(16)
            == sha256(other).take(16),
{
    if socket_path(identity, uid) == socket_path(other, uid) {
        let a = hex(sha256(identity).take(16));
        let b = hex(sha256(other).take(16));
        let head = socket_directory(uid) + "/"@;
        let path = socket_path(identity, uid);
        let end = path.len() - ".sock"@.len();
        assert(path.subrange(head.len() as int, end) =~= a);
        assert(path.subrange(head.len() as int, end) =~= b);
        law_hex_is_exact(sha256(identity).take(16), sha256(other).take(16));
    }
}

pub const PIPE_PREFIX: &'static str = "\\\\.\\pipe\\bastet-workstation-";

/// A number in eight bytes, the lowest first.
pub open spec fn little_endian(n: u64) -> Seq<u8> {
    Seq::new(
        8,
        |i: int| ((n as nat / byte_weight(i as nat)) % 256) as u8,
    )
}

/// Sixteen-bit units, each in two bytes, the lower first.
pub open spec fn unit_bytes(units: Seq<u16>) -> Seq<u8>
    decreases units.len(),
{
    if units.len() == 0 {
        Seq::empty()
    } else {
        unit_bytes(units.drop_last()).push((units.last() % 256) as u8).push(
            (units.last() / 256) as u8,
        )
    }
}

/// What the name of a user's pipe for a database is the digest of.
pub open spec fn pipe_bytes(sid: Seq<u8>, identity: Seq<u16>) -> Seq<u8> {
    "bastet-workstation-local-ipc-v1\0"@.map_values(|c: char| c as u8) + little_endian(
        sid.len() as u64,
    ) + sid + little_endian(identity.len() as u64) + unit_bytes(identity)
}

proof fn lemma_little_endian_is_exact(n: u64, m: u64)
    requires
        little_endian(n) == little_endian(m),
    ensures
        n == m,
{
    assert forall|j: nat| 0 <= j < 8 implies (n as nat / #[trigger] byte_weight(j)) % 256 == (
    m as nat / byte_weight(j)) % 256 by {
        assert(little_endian(n)[j as int] == little_endian(m)[j as int]);
        assert(little_endian(n)[j as int] == ((n as nat / byte_weight(j)) % 256) as u8);
    }
    lemma_same_high_bytes(n, m, 0);
    assert(byte_weight(0) == 1);
    assert(n as nat / 1 == n);
    assert(m as nat / 1 == m);
}

proof fn lemma_units_are_exact(a: Seq<u16>, b: Seq<u16>)
    requires
        unit_bytes(a) == unit_bytes(b),
    ensures
        a == b,
    decreases a.len(),
{
    lemma_unit_bytes_len(a);
    lemma_unit_bytes_len(b);
    if a.len() > 0 {
        let x = unit_bytes(a);
        let n = x.len() as int;
        assert(x[n - 1] == (a.last() / 256) as u8);
        assert(x[n - 2] == (a.last() % 256) as u8);
        assert(unit_bytes(b)[n - 1] == (b.last() / 256) as u8);
        assert(unit_bytes(b)[n - 2] == (b.last() % 256) as u8);
        assert(a.last() == b.last());
        assert(unit_bytes(a.drop_last()) =~= x.take(n - 2));
        assert(unit_bytes(b.drop_last()) =~= x.take(n - 2));
        lemma_units_are_exact(a.drop_last(), b.drop_last());
        assert(a =~= a.drop_last().push(a.last()));
        assert(b =~= b.drop_last().push(b.last()));
    } else {
        assert(a =~= b);
    }
}

proof fn lemma_unit_bytes_len(units: Seq<u16>)
    ensures
        unit_bytes(units).len() == 2 * units.len(),
    decreases units.len(),
{
    if units.len() > 0 {
        lemma_unit_bytes_len(units.drop_last());
    }
}

/// Two pipes that are named by the digest of the same bytes belong to the same
/// user and the same database.
pub proof fn law_pipes_are_told_apart(
    sid: Seq<u8>,
    identity: Seq<u16>,
    other_sid: Seq<u8>,
    other_identity: Seq<u16>,
)
    requires
        sid.len() <= u64::MAX,
        identity.len() <= u64::MAX,
        other_sid.len() <= u64::MAX,
        other_identity.len() <= u64::MAX,
        pipe_bytes(sid, identity) == pipe_bytes(other_sid, other_identity),
    ensures
        sid == other_sid,
        identity == other_identity,
{
    let tag = "bastet-workstation-local-ipc-v1\0"@.map_values(|c: char| c as u8);
    let h = tag.len() as int;
    let a = pipe_bytes(sid, identity);
    let b = pipe_bytes(other_sid, other_identity);
    assert(a.subrange(h, h + 8) =~= little_endian(sid.len() as u64));
    assert(b.subrange(h, h + 8) =~= little_endian(other_sid.len() as u64));
    lemma_little_endian_is_exact(sid.len() as u64, other_sid.len() as u64);
    let n = h + 8 + sid.len();
    assert(a.subrange(h + 8, n) =~= sid);
    assert(b.subrange(h + 8, n) =~= other_sid);
    assert(a.subrange(n + 8, a.len() as int) =~= unit_bytes(identity));
    assert(b.subrange(n + 8, a.len() as int) =~= unit_bytes(other_identity));
    lemma_units_are_exact(identity, other_identity);
}

/// The pipe of a user's daemon for a database.
pub open spec fn pipe_path(sid: Seq<u8>, identity: Seq<u16>) -> Seq<char> {
    PIPE_PREFIX@ + sha256_hex(pipe_bytes(sid, identity))
}

/// Two pipes have the same name exactly if what they are named by has the same
/// digest.
pub proof fn law_pipe_names_are_digests(
    sid: Seq<u8>,
    identity: Seq<u16>,
    other_sid: Seq<u8>,
    other_identity: Seq<u16>,
)
    ensures
        pipe_path(sid, identity) == pipe_path(other_sid, other_identity) <==> sha256(
            pipe_bytes(sid, identity),
        ) == sha256(pipe_bytes(other_sid, other_identity)),
{
    let path = pipe_path(sid, identity);
    if path == pipe_path(other_sid, other_identity) {
        let a = pipe_bytes(sid, identity);
        let b = pipe_bytes(other_sid, other_identity);
        assert(path.skip(PIPE_PREFIX@.len() as int) =~= sha256_hex(a));
        assert(path.skip(PIPE_PREFIX@.len() as int) =~= sha256_hex(b));
        law_hex_is_exact(sha256(a), sha256(b));
    }
}

/// A lower-case hexadecimal digit.
pub open spec fn is_hex_char(c: char) -> bool {
    '0' <= c <= '9' || 'a' <= c <= 'f'
}

/// The name of a pipe of this workstation on this machine.
pub open spec fn pipe_name_sound(path: Seq<char>) -> bool {
    let prefix = PIPE_PREFIX@;
    &&& path.len() == prefix.len() + 64
    &&& path.take(prefix.len() as int) == prefix
    &&& forall|i: int| prefix.len() <= i < path.len() ==> is_hex_char(#[trigger] path[i])
}

/// Whether a path begins as the pipes of this workstation do.
pub open spec fn has_pipe_prefix(path: Seq<char>) -> bool {
    let prefix = PIPE_PREFIX@;
    path.len() >= prefix.len() && path.take(prefix.len() as int) == prefix
}

/// Why an endpoint is not one of this workstation's pipes.
#[derive(Clone, Copy, Debug, PartialEq, Eq, Structural)]
pub enum EndpointError {
    NotLocal,
    InvalidName,
}

impl EndpointError {
    pub fn message(&self) -> (r: &'static str)
        ensures
            r@ == (match self {
                EndpointError::NotLocal => {
                    "only local Bastet named-pipe endpoints are accepted"@
                },
                EndpointError::InvalidName => "invalid Bastet named-pipe endpoint"@,
            }),
    {
        match self {
            EndpointError::NotLocal => "only local Bastet named-pipe endpoints are accepted",
            EndpointError::InvalidName => "invalid Bastet named-pipe endpoint",
        }
    }
}

fn push_little_endian(out: &mut Vec<u8>, n: u64)
    ensures
        final(out)@ == old(out)@ + little_endian(n),
{
    proof {
        lemma_byte_weights();
    }
    out.push((n % 256) as u8);
    out.push((n / 0x100 % 256) as u8);
    out.push((n / 0x1_0000 % 256) as u8);
    out.push((n / 0x100_0000 % 256) as u8);
    out.push((n / 0x1_0000_0000 % 256) as u8);
    out.push((n / 0x100_0000_0000 % 256) as u8);
    out.push((n / 0x1_0000_0000_0000 % 256) as u8);
    out.push((n / 0x100_0000_0000_0000) as u8);
    proof {
        let bytes = little_endian(n);
        assert(bytes[0] == (n % 256) as u8);
        assert(bytes[7] == (n / 0x100_0000_0000_0000) as u8);
        assert(out@ =~= old(out)@ + bytes);
    }
}

proof fn lemma_byte_weights()
    ensures
        byte_weight(0) == 1,
        byte_weight(1) == 0x100,
        byte_weight(2) == 0x1_0000,
        byte_weight(3) == 0x100_0000,
        byte_weight(4) == 0x1_0000_0000,
        byte_weight(5) == 0x100_0000_0000,
        byte_weight(6) == 0x1_0000_0000_0000,
        byte_weight(7) == 0x100_0000_0000_0000,
{
    reveal_with_fuel(byte_weight, 9);
}

impl Endpoint {
    /// An endpoint at a path.
    pub fn at(path: String) -> (r: Self)
        ensures
            r@ == path@,
    {
        Endpoint { path }
    }

    /// The socket of a user's daemon for a database, from the bytes of the
    /// database's canonical path.
    pub fn for_database(identity: &[u8], uid: u32) -> (r: Self)
        ensures
            r@ == socket_path(identity@, uid),
    {
        let digest = sha256_digest(identity);
        let mut path = socket_directory_text(uid);
        path.append("/");
        path.append(hex_text(&digest, 16).as_str());
        path.append(".sock");
        Endpoint { path }
    }

    /// The pipe of a user's daemon for a database, from the user's security
    /// identifier and the units of the database's canonical path.
    pub fn for_database_pipe(sid: &[u8], identity: &[u16]) -> (r: Self)
        ensures
            r@ == pipe_path(sid@, identity@),
    {
        let tag = "bastet-workstation-local-ipc-v1\0";
        let tag_bytes = tag.as_bytes();
        proof {
            reveal_strlit("bastet-workstation-local-ipc-v1\0");
            vstd::string::is_ascii_spec_bytes(tag);
            assert(tag_bytes@ =~= tag@.map_values(|c: char| c as u8));
        }
        let mut input: Vec<u8> = Vec::new();
        push_bytes(&mut input, tag_bytes);
        push_little_endian(&mut input, sid.len() as u64);
        push_bytes(&mut input, sid);
        push_little_endian(&mut input, identity.len() as u64);
        let ghost head = input@;
        let mut i: usize = 0;
        assert(identity@.take(0) =~= Seq::empty());
        while i < identity.len()
            invariant
                i <= identity@.len(),
                input@ =~= head + unit_bytes(identity@.take(i as int)),
            decreases identity@.len() - i,
        {
            let unit: u16 = identity[i];
            input.push((unit % 256) as u8);
            input.push((unit / 256) as u8);
            proof {
                let next = identity@.take(i as int + 1);
                assert(next.drop_last() =~= identity@.take(i as int));
                assert(next.last() == unit);
            }
            i += 1;
        }
        proof {
            assert(identity@.take(identity@.len() as int) =~= identity@);
            assert(input@ =~= pipe_bytes(sid@, identity@));
        }
        let digest = sha256_text(input.as_slice());
        let mut path = PIPE_PREFIX.to_owned();
        path.append(digest.as_str());
        Endpoint { path }
    }

    pub fn path(&self) -> (r: &str)
        ensures
            r@ == self@,
    {
        self.path.as_str()
    }
}

/// The directory of a user's sockets.
pub fn socket_directory_text(uid: u32) -> (r: String)
    ensures
        r@ == socket_directory(uid),
{
    let mut path = "/tmp/bastet-workstation-".to_owned();
    path.append(decimal_text(uid as u64).as_str());
    path
}

/// Whether an endpoint is one of this workstation's pipes on this machine.
pub fn validate_endpoint(endpoint: &Endpoint) -> (r: Result<(), EndpointError>)
    ensures
        r == (if !has_pipe_prefix(endpoint@) {
            Err(EndpointError::NotLocal)
        } else if !pipe_name_sound(endpoint@) {
            Err(EndpointError::InvalidName)
        } else {
            Ok::<(), EndpointError>(())
        }),
{
    let path = endpoint.path.as_str();
    let length: usize = path.unicode_len();
    let prefix_length: usize = PIPE_PREFIX.unicode_len();
    if length < prefix_length {
        return Err(EndpointError::NotLocal);
    }
    let head = path.substring_char(0, prefix_length);
    assert(head@ =~= path@.take(prefix_length as int));
    if !same_text(head, PIPE_PREFIX) {
        return Err(EndpointError::NotLocal);
    }
    if length - prefix_length != 64 {
        return Err(EndpointError::InvalidName);
    }
    let mut i: usize = prefix_length;
    while i < length
        invariant
            prefix_length <= i <= length,
            length == path@.len(),
            prefix_length == PIPE_PREFIX@.len(),
            path@ == endpoint@,
            length == prefix_length + 64,
            has_pipe_prefix(path@),
            forall|j: int| prefix_length <= j < i ==> is_hex_char(#[trigger] path@[j]),
        decreases length - i,
    {
        let c = path.get_char(i);
        if !(('0' <= c && c <= '9') || ('a' <= c && c <= 'f')) {
            assert(!is_hex_char(path@[i as int]));
            return Err(EndpointError::InvalidName);
        }
        i += 1;
    }
    Ok(())
}

/// What the file system says of a path.
#[derive(Clone, Copy, Debug, PartialEq, Eq, Structural)]
pub struct PathFacts {
    pub is_directory: bool,
    pub is_socket: bool,
    pub is_file: bool,
    pub owner: u32,
    pub mode: u32,
    pub links: u64,
    pub device: u64,
    pub inode: u64,
}

/// Owned by the user, and closed to everyone else.
pub open spec fn is_private(facts: PathFacts, uid: u32) -> bool {
    facts.owner == uid && facts.mode & 0o077 == 0
}

/// Whether a directory may hold a user's sockets.
pub fn validate_directory(facts: &PathFacts, uid: u32) -> (r: bool)
    ensures
        r == (facts.is_directory && is_private(*facts, uid)),
{
    facts.is_directory && facts.owner == uid && facts.mode & 0o077 == 0
}

/// Whether a socket may be connected to or replaced.
pub fn validate_socket(facts: &PathFacts, uid: u32) -> (r: bool)
    ensures
        r == (facts.is_socket && is_private(*facts, uid)),
{
    facts.is_socket && facts.owner == uid && facts.mode & 0o077 == 0
}

/// Whether a file may serve as the lock of an endpoint.
pub fn validate_lock(facts: &PathFacts, uid: u32) -> (r: bool)
    ensures
        r == (facts.is_file && is_private(*facts, uid) && facts.links == 1),
{
    facts.is_file && facts.owner == uid && facts.mode & 0o077 == 0 && facts.links == 1
}

/// Whether a socket that is found at the end is the one that was bound, and so
/// is to be removed. Anything that took its place is left alone.
pub fn owns_socket(found: &PathFacts, device: u64, inode: u64) -> (r: bool)
    ensures
        r == (found.is_socket && found.device == device && found.inode == inode),
{
    found.is_socket && found.device == device && found.inode == inode
}

/// What is found where an endpoint is to be bound.
#[derive(Clone, Copy, Debug, PartialEq, Eq, Structural)]
pub enum Occupant {
    Absent,
    Present { sound: bool, answers: Answer },
    Unknown,
}

/// How a socket answers a connection.
#[derive(Clone, Copy, Debug, PartialEq, Eq, Structural)]
pub enum Answer {
    Connected,
    Refused,
    Failed,
}

#[derive(Clone, Copy, Debug, PartialEq, Eq, Structural)]
pub enum BindStep {
    Bind,
    RemoveThenBind,
    InUse,
    Denied,
    Fail,
}

/// What is done where an endpoint is to be bound: only a sound socket that
/// nobody answers on is taken for stale and removed.
pub fn bind_step(occupant: Occupant) -> (r: BindStep)
    ensures
        r == (match occupant {
            Occupant::Absent => BindStep::Bind,
            Occupant::Unknown => BindStep::Fail,
            Occupant::Present { sound, answers } => if !sound {
                BindStep::Denied
            } else {
                match answers {
                    Answer::Connected => BindStep::InUse,
                    Answer::Refused => BindStep::RemoveThenBind,
                    Answer::Failed => BindStep::Fail,
                }
            },
        }),
{
    match occupant {
        Occupant::Absent => BindStep::Bind,
        Occupant::Unknown => BindStep::Fail,
        Occupant::Present { sound, answers } => if !sound {
            BindStep::Denied
        } else {
            match answers {
                Answer::Connected => BindStep::InUse,
                Answer::Refused => BindStep::RemoveThenBind,
                Answer::Failed => BindStep::Fail,
            }
        },
    }
}

/// The security descriptor of a user's pipe: the user owns it, and it grants
/// access to the user alone.
pub fn pipe_descriptor(sid: &str) -> (r: String)
    ensures
        r@ == "O:"@ + sid@ + "D:P(A;;GA;;;"@ + sid@ + ")"@,
{
    let mut text = "O:".to_owned();
    text.append(sid);
    text.append("D:P(A;;GA;;;");
    text.append(sid);
    text.append(")");
    text
}

/// How many times a busy pipe is tried again.
pub const CONNECT_BUSY_RETRIES: usize = 100;

/// Whether a connection is tried again.
pub fn retries_connect(attempt: usize, busy: bool) -> (r: bool)
    ensures
        r == (busy && attempt < CONNECT_BUSY_RETRIES),
{
    busy && attempt < CONNECT_BUSY_RETRIES
}

/// Whether the account that a query returned is whole: the buffer was sized for
/// it, and what was written fits and is no shorter than the record.
pub fn identity_complete(required: usize, written: usize, record: usize) -> (r: bool)
    ensures
        r == (record <= written <= required),
{
    record <= written && written <= required
}

/// What is known of the path of a database before it is opened.
#[derive(Clone, Copy, Debug, PartialEq, Eq, Structural)]
pub enum DatabasePath {
    /// It exists; is it a file once links are resolved?
    Exists { is_file: bool },
    /// It does not exist; does it name a file, and has it a parent?
    Missing { names_file: bool, has_parent: bool },
}

#[derive(Clone, Copy, Debug, PartialEq, Eq, Structural)]
pub enum IdentityStep {
    /// The canonical path of the database is its identity.
    Canonical,
    /// The canonical path of the parent, with the name, is.
    ParentAndName,
    NotAFile,
    NoName,
    NoParent,
}

/// How the identity of a database is found. Links that exist are resolved; a
/// database that is still to be created is known by its parent and its name.
pub fn database_identity(path: DatabasePath) -> (r: IdentityStep)
    ensures
        r == (match path {
            DatabasePath::Exists { is_file } => if is_file {
                IdentityStep::Canonical
            } else {
                IdentityStep::NotAFile
            },
            DatabasePath::Missing { names_file, has_parent } => if !names_file {
                IdentityStep::NoName
            } else if !has_parent {
                IdentityStep::NoParent
            } else {
                IdentityStep::ParentAndName
            },
        }),
{
    match path {
        DatabasePath::Exists { is_file } => if is_file {
            IdentityStep::Canonical
        } else {
            IdentityStep::NotAFile
        },
        DatabasePath::Missing { names_file, has_parent } => if !names_file {
            IdentityStep::NoName
        } else if !has_parent {
            IdentityStep::NoParent
        } else {
            IdentityStep::ParentAndName
        },
    }
}

/// Whether the daemon may start: it never listens on a network address, so a
/// setting that asks for one is refused.
pub fn check_listen_setting(set: bool) -> (r: Result<(), &'static str>)
    ensures
        if set {
            r is Err && r->Err_0@
                == "BASTET_LISTEN is not supported: the daemon requires local IPC"@
        } else {
            r is Ok
        },
{
    if set {
        return Err("BASTET_LISTEN is not supported: the daemon requires local IPC");
    }
    Ok(())
}

} // verus!
