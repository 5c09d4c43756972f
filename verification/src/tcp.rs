//! The verdict on a non-blocking connect. A socket that was told not to
//! block answers a connect with an error that says the connection is under
//! way; that is no failure.

use vstd::prelude::*;

verus! {

/// The number of "operation in progress" on Linux.
pub const EINPROGRESS_LINUX: i32 = 115;

/// The number of "operation already in progress" on Linux.
pub const EALREADY_LINUX: i32 = 114;

/// The number of "operation in progress" on the BSD family.
pub const EINPROGRESS_BSD: i32 = 36;

/// The number of "operation already in progress" on the BSD family.
pub const EALREADY_BSD: i32 = 37;

/// The numbers of the two errors with which the platform at hand says that
/// a connection is under way.
#[derive(Clone, Copy, Debug, PartialEq, Eq, Structural)]
pub struct InProgressCodes {
    /// The number of "operation in progress".
    pub in_progress: i32,
    /// The number of "operation already in progress".
    pub already: i32,
}

/// How the connect call came back.
#[derive(Clone, Copy, Debug, PartialEq, Eq, Structural)]
pub enum ConnectAttempt {
    /// It succeeded at once.
    Connected,
    /// It gave an error, with this number where the system gave one.
    Failed { raw_os_error: Option<i32> },
}

/// What to do with the socket after the connect call.
#[derive(Clone, Copy, Debug, PartialEq, Eq, Structural)]
pub enum ConnectAction {
    /// Use the stream that the call returned.
    UseStream,
    /// The connection is under way: hand out the socket as it is.
    AdoptSocket,
    /// Give the error to the caller.
    Fail,
}

/// Whether an error number is one of the platform's two for a connection
/// under way.
pub open spec fn in_progress(raw_os_error: Option<i32>, codes: InProgressCodes) -> bool {
    raw_os_error == Some(codes.in_progress) || raw_os_error == Some(codes.already)
}

/// What follows from the connect call on a platform with the numbers
/// `codes`: a connection under way counts as made.
pub open spec fn action_after(attempt: ConnectAttempt, codes: InProgressCodes) -> ConnectAction {
    match attempt {
        ConnectAttempt::Connected => ConnectAction::UseStream,
        ConnectAttempt::Failed { raw_os_error } => if in_progress(raw_os_error, codes) {
            ConnectAction::AdoptSocket
        } else {
            ConnectAction::Fail
        },
    }
}

/// Whether an error number is one of the platform's two for a connection
/// under way.
pub fn is_in_progress(raw_os_error: Option<i32>, codes: InProgressCodes) -> (r: bool)
    ensures
        r == in_progress(raw_os_error, codes),
{
    match raw_os_error {
        Some(code) => code == codes.in_progress || code == codes.already,
        None => false,
    }
}

/// Decides what to do with the socket after the connect call. A connection
/// under way counts as made: the socket is handed out, never an error.
pub fn after_connect(attempt: ConnectAttempt, codes: InProgressCodes) -> (r: ConnectAction)
    ensures
        r == action_after(attempt, codes),
{
    match attempt {
        ConnectAttempt::Connected => ConnectAction::UseStream,
        ConnectAttempt::Failed { raw_os_error } => {
            if is_in_progress(raw_os_error, codes) {
                ConnectAction::AdoptSocket
            } else {
                ConnectAction::Fail
            }
        },
    }
}

/// On either platform both of its errors for a connection under way lead to
/// the socket, and the connect call's success to the stream.
pub proof fn law_in_progress_is_no_failure(codes: InProgressCodes)
    ensures
        action_after(ConnectAttempt::Failed { raw_os_error: Some(codes.in_progress) }, codes)
            == ConnectAction::AdoptSocket,
        action_after(ConnectAttempt::Failed { raw_os_error: Some(codes.already) }, codes)
            == ConnectAction::AdoptSocket,
        action_after(ConnectAttempt::Connected, codes) == ConnectAction::UseStream,
{
}

/// Reads the status that a system call returned: -1 is a failure, anything
/// else is the call's value.
pub fn cvt(t: i32) -> (r: Option<i32>)
    ensures
        r == if t == -1 {
            None::<i32>
        } else {
            Some(t)
        },
{
    if t == -1 {
        None
    } else {
        Some(t)
    }
}

} // verus!
