use vstd::prelude::*;

verus! {

/// Bits of `st_mode` that hold the file type.
pub const FILE_TYPE_MASK: u32 = 0o170000;

/// File type of a socket.
pub const SOCKET_FILE_TYPE: u32 = 0o140000;

/// The file type recorded in a `st_mode` value.
pub open spec fn file_type(st_mode: u32) -> u32 {
    st_mode & FILE_TYPE_MASK
}

/// Whether a file with mode `st_mode` is a socket.
pub fn is_socket_mode(st_mode: u32) -> (socket: bool)
    ensures
        socket == (file_type(st_mode) == SOCKET_FILE_TYPE),
{
    st_mode & FILE_TYPE_MASK == SOCKET_FILE_TYPE
}

/// Whether the file found at the socket path (its mode, `None` when there is no
/// file) is a stale socket to remove before binding.
pub fn remove_before_bind(existing_mode: Option<u32>) -> (remove: bool)
    ensures
        remove == (existing_mode matches Some(m) && file_type(m) == SOCKET_FILE_TYPE),
{
    match existing_mode {
        Some(m) => is_socket_mode(m),
        None => false,
    }
}

/// How the driver obtains its socket and reports its status.
#[derive(Debug, Clone, Copy, PartialEq, Eq, Structural)]
pub enum UnitSetup {
    /// Take the socket systemd passed, report to systemd, log to the journal.
    Systemd,
    /// Bind the socket file given on the command line, report and log to stderr.
    SocketFile,
    /// Neither is available: the driver exits with status 1.
    NoSocket,
}

/// Chooses the setup: systemd when it was requested and both its notification
/// socket and the journal answer, else the given socket file, else none.
pub fn plan_unit_setup(systemd_detected: bool, socket_file_given: bool) -> (setup: UnitSetup)
    ensures
        setup == (if systemd_detected {
            UnitSetup::Systemd
        } else if socket_file_given {
            UnitSetup::SocketFile
        } else {
            UnitSetup::NoSocket
        }),
{
    if systemd_detected {
        UnitSetup::Systemd
    } else if socket_file_given {
        UnitSetup::SocketFile
    } else {
        UnitSetup::NoSocket
    }
}

/// Only the file type decides: permission, set-id and sticky bits do not change
/// whether a mode is a socket's.
pub proof fn lemma_socket_ignores_permissions(file_kind: u32, permissions: u32)
    requires
        permissions < 0o10000,
    ensures
        file_type(file_kind & FILE_TYPE_MASK | permissions) == file_type(file_kind),
{
    assert(permissions < 0o10000 ==> (file_kind & 0o170000 | permissions) & 0o170000
        == file_kind & 0o170000) by (bit_vector);
}

} // verus!
