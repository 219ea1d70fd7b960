//! The errors of the bridge, and the native calls they name.
use vstd::prelude::*;
use crate::net_err::{describe_net_err, net_err_text};

verus! {

/// A native entry point of the host's API table.
#[derive(Clone, Copy, Debug, PartialEq, Eq, Structural)]
pub enum Call {
    GetStatus,
    SetEnabled,
    RequestAccess,
    NewConnection,
    SetUserdata,
    GetUserdata,
    SetConnectTimeout,
    SetKeepAlive,
    SetByteRange,
    Get,
    Post,
    Query,
    GetError,
    GetProgress,
    GetResponseStatus,
    GetBytesAvailable,
    SetReadTimeout,
    SetReadBufferSize,
    Read,
    Discard,
    Close,
    Release,
    SetHeaderReceivedCallback,
    SetHeadersReadCallback,
    SetResponseCallback,
    SetRequestCompleteCallback,
    SetConnectionClosedCallback,
}

/// Why an argument was refused before any native call was made.
#[derive(Clone, Copy, Debug, PartialEq, Eq, Structural)]
pub enum ArgumentError {
    /// A connection needs a server name.
    EmptyServer,
    /// A text or header buffer holds a terminating zero byte at this position.
    EmbeddedNul { position: usize },
    /// A value does not fit the native integer type.
    TooLarge { value: u64 },
    /// A completion callback is only accepted when enabling the network.
    CallbackWhileDisabling,
    /// An earlier enable request still waits for its completion callback.
    EnablePending,
}

/// The failures of the bridge.
#[derive(Clone, Copy, Debug, PartialEq, Eq, Structural)]
pub enum HttpError {
    /// The host's table lacks the entry point that the operation needs.
    Configuration { entry: Call },
    /// An argument was refused before any native call was made.
    Argument(ArgumentError),
    /// The native call returned a failure code.
    Native { call: Call, code: i32 },
    /// A native constructor returned null where it must not.
    ProtocolViolation { call: Call },
}

impl HttpError {
    /// The diagnostic tag of a native failure.
    pub open spec fn spec_tag(self) -> Option<Seq<char>> {
        match self {
            HttpError::Native { code, .. } => Some(net_err_text(code)),
            _ => None,
        }
    }

    /// The diagnostic tag of a native failure; `None` for the other kinds of error.
    pub fn tag(&self) -> (r: Option<String>)
        ensures
            match r {
                Some(t) => self.spec_tag() == Some(t@),
                None => self.spec_tag() is None,
            },
    {
        match self {
            HttpError::Native { code, .. } => Some(describe_net_err(*code)),
            _ => None,
        }
    }
}

/// What a native call that reports a status returned: the status, or `None`
/// where the host's table lacks the entry point.
pub open spec fn status_outcome(call: Call, reply: Option<i32>) -> Result<(), HttpError> {
    match reply {
        None => Err(HttpError::Configuration { entry: call }),
        Some(code) => if code < 0 {
            Err(HttpError::Native { call, code })
        } else {
            Ok(())
        },
    }
}

/// Reads the reply of a native call that reports a status: a negative code is
/// a failure of the closed set, any other value is success.
pub fn ensure_net_ok(call: Call, reply: Option<i32>) -> (r: Result<(), HttpError>)
    ensures
        r == status_outcome(call, reply),
{
    match reply {
        None => Err(HttpError::Configuration { entry: call }),
        Some(code) => if code < 0 {
            Err(HttpError::Native { call, code })
        } else {
            Ok(())
        },
    }
}

/// What a native call that reports a byte count returned.
pub open spec fn count_outcome(call: Call, reply: Option<i32>) -> Result<usize, HttpError> {
    match reply {
        None => Err(HttpError::Configuration { entry: call }),
        Some(code) => if code < 0 {
            Err(HttpError::Native { call, code })
        } else {
            Ok(code as usize)
        },
    }
}

/// Reads the reply of a native call that reports a byte count: a negative
/// code is a failure, any other value the number of bytes.
pub fn count_result(call: Call, reply: Option<i32>) -> (r: Result<usize, HttpError>)
    ensures
        r == count_outcome(call, reply),
{
    match reply {
        None => Err(HttpError::Configuration { entry: call }),
        Some(code) => if code < 0 {
            Err(HttpError::Native { call, code })
        } else {
            Ok(code as usize)
        },
    }
}

/// Reads the reply of a native call that returns a value: `None` where the
/// host's table lacks the entry point.
pub fn require_entry<T>(call: Call, reply: Option<T>) -> (r: Result<T, HttpError>)
    ensures
        match reply {
            Some(v) => r == Ok::<T, HttpError>(v),
            None => r == Err::<T, HttpError>(HttpError::Configuration { entry: call }),
        },
{
    match reply {
        Some(v) => Ok(v),
        None => Err(HttpError::Configuration { entry: call }),
    }
}

} // verus!
