//! The local endpoint: where it is, who may use it, and what is in its way.
use crate::digest::{hex, sha256};
use crate::ipc::{
    bind_step, check_listen_setting, database_identity, identity_complete, owns_socket,
    pipe_descriptor, retries_connect, socket_directory_text, validate_directory, validate_endpoint,
    validate_lock, validate_socket, Answer, BindStep, DatabasePath, Endpoint, EndpointError,
    IdentityStep, Occupant, PathFacts,
};
use crate::text::decimal;
use vstd::prelude::*;

verus! {

/// A socket lies in its user's own directory, under the first half of the digest
/// of its database's path.
pub proof fn law_sockets_lie_in_the_users_directory(
    identity: &[u8],
    uid: u32,
    r: Endpoint,
    directory: String,
)
    requires
        call_ensures(Endpoint::for_database, (identity, uid), r),
        call_ensures(socket_directory_text, (uid,), directory),
    ensures
        directory@ == "/tmp/bastet-workstation-"@ + decimal(uid as nat),
        r@ == directory@ + "/"@ + hex(sha256(identity@).take(16)) + ".sock"@,
{
}

/// An endpoint is at the path that it was given.
pub proof fn law_endpoints_keep_their_path(path: String, r: Endpoint, endpoint: &Endpoint, shown: &str)
    requires
        call_ensures(Endpoint::at, (path,), r),
        *endpoint == r,
        call_ensures(Endpoint::path, (endpoint,), shown),
    ensures
        shown@ == path@,
{
}

/// Only a named pipe of the daemon's own, on this machine, is an endpoint: its
/// prefix, and 64 hexadecimal digits.
pub proof fn law_only_own_pipes_are_endpoints(endpoint: &Endpoint, r: Result<(), EndpointError>)
    requires
        call_ensures(validate_endpoint, (endpoint,), r),
    ensures
        r is Ok ==> "\\\\.\\pipe\\bastet-workstation-"@.is_prefix_of(endpoint@),
        r is Ok ==> endpoint@.len() == "\\\\.\\pipe\\bastet-workstation-"@.len() + 64,
        r is Ok ==> forall|i: int|
            "\\\\.\\pipe\\bastet-workstation-"@.len() <= i < endpoint@.len() ==> '0' <= (
            #[trigger] endpoint@[i]) <= '9' || 'a' <= endpoint@[i] <= 'f',
        r is Err && "\\\\.\\pipe\\bastet-workstation-"@.is_prefix_of(endpoint@) ==> r->Err_0
            == EndpointError::InvalidName,
        !"\\\\.\\pipe\\bastet-workstation-"@.is_prefix_of(endpoint@) ==> r is Err && r->Err_0
            == EndpointError::NotLocal,
{
    let prefix = "\\\\.\\pipe\\bastet-workstation-"@;
    if endpoint@.len() >= prefix.len() && endpoint@.take(prefix.len() as int) == prefix {
        assert(prefix.is_prefix_of(endpoint@));
    }
    if prefix.is_prefix_of(endpoint@) {
        assert(endpoint@.take(prefix.len() as int) == prefix);
    }
    if r is Ok {
        assert forall|i: int| prefix.len() <= i < endpoint@.len() implies '0' <= (
        #[trigger] endpoint@[i]) <= '9' || 'a' <= endpoint@[i] <= 'f' by {
            assert(crate::ipc::is_hex_char(endpoint@[i]));
        }
    }
}

/// Nobody but the user has any right to this.
pub open spec fn private_to(facts: PathFacts, uid: u32) -> bool {
    facts.owner == uid && facts.mode & 0o077 == 0
}

/// The directory, the socket and the lock are each what they should be and the
/// user's alone; and nothing else is linked to the lock.
pub proof fn law_paths_are_the_users_alone(
    facts: &PathFacts,
    uid: u32,
    directory: bool,
    socket: bool,
    lock: bool,
)
    requires
        call_ensures(validate_directory, (facts, uid), directory),
        call_ensures(validate_socket, (facts, uid), socket),
        call_ensures(validate_lock, (facts, uid), lock),
    ensures
        directory <==> facts.is_directory && private_to(*facts, uid),
        socket <==> facts.is_socket && private_to(*facts, uid),
        lock <==> facts.is_file && private_to(*facts, uid) && facts.links == 1,
{
}

/// A socket is removed at the end only if it is the very one that was bound.
pub proof fn law_only_the_bound_socket_is_removed(
    found: &PathFacts,
    device: u64,
    inode: u64,
    r: bool,
)
    requires
        call_ensures(owns_socket, (found, device, inode), r),
    ensures
        r <==> found.is_socket && found.device == device && found.inode == inode,
{
}

/// A socket is removed to make room only if it is sound and nobody answers it;
/// one that answers is in use, and an unsound one is never touched.
pub proof fn law_only_dead_sockets_make_room(occupant: Occupant, r: BindStep)
    requires
        call_ensures(bind_step, (occupant,), r),
    ensures
        r == BindStep::Bind <==> occupant == Occupant::Absent,
        r == BindStep::RemoveThenBind <==> occupant == (Occupant::Present {
            sound: true,
            answers: Answer::Refused,
        }),
        r == BindStep::InUse <==> occupant == (Occupant::Present {
            sound: true,
            answers: Answer::Connected,
        }),
        r == BindStep::Denied <==> occupant is Present && !occupant->sound,
{
}

/// A pipe belongs to its user and lets in nobody else.
pub proof fn law_pipes_let_in_their_owner_alone(sid: &str, r: String)
    requires
        call_ensures(pipe_descriptor, (sid,), r),
    ensures
        r@ == "O:"@ + sid@ + "D:P(A;;GA;;;"@ + sid@ + ")"@,
{
}

/// A busy pipe is tried again, a hundred times at most.
pub proof fn law_busy_pipes_are_tried_again(attempt: usize, busy: bool, r: bool)
    requires
        call_ensures(retries_connect, (attempt, busy), r),
    ensures
        r <==> busy && attempt < 100,
{
}

/// An identity is complete if a whole record was written and no more than was
/// asked for.
pub proof fn law_identities_are_whole(required: usize, written: usize, record: usize, r: bool)
    requires
        call_ensures(identity_complete, (required, written, record), r),
    ensures
        r <==> record <= written && written <= required,
{
}

/// A database that exists is known by its own path, and has to be a file; one
/// that does not is known by its directory and its name.
pub proof fn law_databases_are_known_by_their_paths(path: DatabasePath, r: IdentityStep)
    requires
        call_ensures(database_identity, (path,), r),
    ensures
        r == IdentityStep::Canonical <==> path == (DatabasePath::Exists { is_file: true }),
        r == IdentityStep::NotAFile <==> path == (DatabasePath::Exists { is_file: false }),
        r == IdentityStep::NoName <==> path is Missing && !path->names_file,
        r == IdentityStep::NoParent <==> path is Missing && path->names_file && !path->has_parent,
        r == IdentityStep::ParentAndName <==> path is Missing && path->names_file
            && path->has_parent,
{
}

/// The daemon cannot be made to listen elsewhere.
pub proof fn law_no_other_listening(set: bool, r: Result<(), &'static str>)
    requires
        call_ensures(check_listen_setting, (set,), r),
    ensures
        r is Ok <==> !set,
        r is Err ==> r->Err_0@
            == "BASTET_LISTEN is not supported: the daemon requires local IPC"@,
{
}

} // verus!
