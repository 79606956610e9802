use vstd::prelude::*;

verus! {

/// Why an operation against the remote platform failed.
///
/// Every failure is fatal to the workflow that raised it, with one
/// exception: a `Lookup` miss against the local answer bank only skips the
/// question it concerns.
#[derive(Debug)]
pub enum ApiError {
    /// The HTTP exchange returned a status other than 200.
    Transport { status: u16 },
    /// The response body did not have the expected shape.
    Protocol,
    /// Login was rejected: either the HTTP status was not 200, or the
    /// application envelope carried a code other than the success sentinel.
    /// `msg` holds the server-provided message when one was available.
    Auth { status: u16, msg: String },
    /// A lookup found no match for `key`, in the school directory or in the
    /// local answer bank.
    Lookup { key: String },
}

impl ApiError {
    /// A value-equal copy of this error.
    pub fn dup(&self) -> (r: ApiError)
        ensures
            r == *self,
    {
        match self {
            ApiError::Transport { status } => ApiError::Transport { status: *status },
            ApiError::Protocol => ApiError::Protocol,
            ApiError::Auth { status, msg } => ApiError::Auth {
                status: *status,
                msg: msg.clone(),
            },
            ApiError::Lookup { key } => ApiError::Lookup { key: key.clone() },
        }
    }
}

/// Uniform transport check applied to every session-client response:
/// anything but HTTP 200 is a fatal `Transport` error carrying the status.
pub fn check_status(status: u16) -> (r: Result<(), ApiError>)
    ensures
        r is Ok <==> status == 200,
        status != 200 ==> r == Err::<(), ApiError>(ApiError::Transport { status }),
{
    if status == 200 {
        Ok(())
    } else {
        Err(ApiError::Transport { status })
    }
}

} // verus!
