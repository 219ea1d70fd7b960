//! The closed set of failure codes that the host's network calls return.
use vstd::prelude::*;
use vstd::string::StringExecFns;
use crate::text::{render_signed, signed_decimal};

verus! {

/// A network status code of the host. `Success` is the only success; every other
/// member is a failure with a negative code.
#[derive(Clone, Copy, Debug, PartialEq, Eq, Structural)]
pub enum NetErr {
    Success,
    NoDevice,
    Busy,
    WriteError,
    WriteBusy,
    WriteTimeout,
    ReadError,
    ReadBusy,
    ReadTimeout,
    ReadOverflow,
    FrameError,
    BadResponse,
    ErrorResponse,
    ResetTimeout,
    BufferTooSmall,
    UnexpectedResponse,
    NotConnectedToAp,
    NotImplemented,
    ConnectionClosed,
}

impl NetErr {
    /// The integer by which the host reports this status.
    pub open spec fn spec_code(self) -> i32 {
        match self {
            NetErr::Success => 0i32,
            NetErr::NoDevice => -1i32,
            NetErr::Busy => -2i32,
            NetErr::WriteError => -3i32,
            NetErr::WriteBusy => -4i32,
            NetErr::WriteTimeout => -5i32,
            NetErr::ReadError => -6i32,
            NetErr::ReadBusy => -7i32,
            NetErr::ReadTimeout => -8i32,
            NetErr::ReadOverflow => -9i32,
            NetErr::FrameError => -10i32,
            NetErr::BadResponse => -11i32,
            NetErr::ErrorResponse => -12i32,
            NetErr::ResetTimeout => -13i32,
            NetErr::BufferTooSmall => -14i32,
            NetErr::UnexpectedResponse => -15i32,
            NetErr::NotConnectedToAp => -16i32,
            NetErr::NotImplemented => -17i32,
            NetErr::ConnectionClosed => -18i32,
        }
    }

    /// The status that the host reports by `code`, if `code` is in the closed set.
    pub open spec fn spec_from_code(code: i32) -> Option<NetErr> {
        if code == 0i32 {
            Some(NetErr::Success)
        } else if code == -1i32 {
            Some(NetErr::NoDevice)
        } else if code == -2i32 {
            Some(NetErr::Busy)
        } else if code == -3i32 {
            Some(NetErr::WriteError)
        } else if code == -4i32 {
            Some(NetErr::WriteBusy)
        } else if code == -5i32 {
            Some(NetErr::WriteTimeout)
        } else if code == -6i32 {
            Some(NetErr::ReadError)
        } else if code == -7i32 {
            Some(NetErr::ReadBusy)
        } else if code == -8i32 {
            Some(NetErr::ReadTimeout)
        } else if code == -9i32 {
            Some(NetErr::ReadOverflow)
        } else if code == -10i32 {
            Some(NetErr::FrameError)
        } else if code == -11i32 {
            Some(NetErr::BadResponse)
        } else if code == -12i32 {
            Some(NetErr::ErrorResponse)
        } else if code == -13i32 {
            Some(NetErr::ResetTimeout)
        } else if code == -14i32 {
            Some(NetErr::BufferTooSmall)
        } else if code == -15i32 {
            Some(NetErr::UnexpectedResponse)
        } else if code == -16i32 {
            Some(NetErr::NotConnectedToAp)
        } else if code == -17i32 {
            Some(NetErr::NotImplemented)
        } else if code == -18i32 {
            Some(NetErr::ConnectionClosed)
        } else {
            None
        }
    }

    /// The stable diagnostic tag of this status.
    pub open spec fn spec_tag(self) -> Seq<char> {
        match self {
            NetErr::Success => "NET_OK"@,
            NetErr::NoDevice => "NET_NO_DEVICE"@,
            NetErr::Busy => "NET_BUSY"@,
            NetErr::WriteError => "NET_WRITE_ERROR"@,
            NetErr::WriteBusy => "NET_WRITE_BUSY"@,
            NetErr::WriteTimeout => "NET_WRITE_TIMEOUT"@,
            NetErr::ReadError => "NET_READ_ERROR"@,
            NetErr::ReadBusy => "NET_READ_BUSY"@,
            NetErr::ReadTimeout => "NET_READ_TIMEOUT"@,
            NetErr::ReadOverflow => "NET_READ_OVERFLOW"@,
            NetErr::FrameError => "NET_FRAME_ERROR"@,
            NetErr::BadResponse => "NET_BAD_RESPONSE"@,
            NetErr::ErrorResponse => "NET_ERROR_RESPONSE"@,
            NetErr::ResetTimeout => "NET_RESET_TIMEOUT"@,
            NetErr::BufferTooSmall => "NET_BUFFER_TOO_SMALL"@,
            NetErr::UnexpectedResponse => "NET_UNEXPECTED_RESPONSE"@,
            NetErr::NotConnectedToAp => "NET_NOT_CONNECTED_TO_AP"@,
            NetErr::NotImplemented => "NET_NOT_IMPLEMENTED"@,
            NetErr::ConnectionClosed => "NET_CONNECTION_CLOSED"@,
        }
    }

    /// The integer by which the host reports this status.
    pub fn code(&self) -> (r: i32)
        ensures
            r == self.spec_code(),
    {
        match self {
            NetErr::Success => 0i32,
            NetErr::NoDevice => -1i32,
            NetErr::Busy => -2i32,
            NetErr::WriteError => -3i32,
            NetErr::WriteBusy => -4i32,
            NetErr::WriteTimeout => -5i32,
            NetErr::ReadError => -6i32,
            NetErr::ReadBusy => -7i32,
            NetErr::ReadTimeout => -8i32,
            NetErr::ReadOverflow => -9i32,
            NetErr::FrameError => -10i32,
            NetErr::BadResponse => -11i32,
            NetErr::ErrorResponse => -12i32,
            NetErr::ResetTimeout => -13i32,
            NetErr::BufferTooSmall => -14i32,
            NetErr::UnexpectedResponse => -15i32,
            NetErr::NotConnectedToAp => -16i32,
            NetErr::NotImplemented => -17i32,
            NetErr::ConnectionClosed => -18i32,
        }
    }

    /// The status that the host reports by `code`; `None` for a code outside the closed set.
    pub fn from_code(code: i32) -> (r: Option<NetErr>)
        ensures
            r == Self::spec_from_code(code),
    {
        if code == 0i32 {
            Some(NetErr::Success)
        } else if code == -1i32 {
            Some(NetErr::NoDevice)
        } else if code == -2i32 {
            Some(NetErr::Busy)
        } else if code == -3i32 {
            Some(NetErr::WriteError)
        } else if code == -4i32 {
            Some(NetErr::WriteBusy)
        } else if code == -5i32 {
            Some(NetErr::WriteTimeout)
        } else if code == -6i32 {
            Some(NetErr::ReadError)
        } else if code == -7i32 {
            Some(NetErr::ReadBusy)
        } else if code == -8i32 {
            Some(NetErr::ReadTimeout)
        } else if code == -9i32 {
            Some(NetErr::ReadOverflow)
        } else if code == -10i32 {
            Some(NetErr::FrameError)
        } else if code == -11i32 {
            Some(NetErr::BadResponse)
        } else if code == -12i32 {
            Some(NetErr::ErrorResponse)
        } else if code == -13i32 {
            Some(NetErr::ResetTimeout)
        } else if code == -14i32 {
            Some(NetErr::BufferTooSmall)
        } else if code == -15i32 {
            Some(NetErr::UnexpectedResponse)
        } else if code == -16i32 {
            Some(NetErr::NotConnectedToAp)
        } else if code == -17i32 {
            Some(NetErr::NotImplemented)
        } else if code == -18i32 {
            Some(NetErr::ConnectionClosed)
        } else {
            None
        }
    }

    /// The stable diagnostic tag of this status.
    pub fn tag(&self) -> (r: &'static str)
        ensures
            r@ == self.spec_tag(),
    {
        match self {
            NetErr::Success => "NET_OK",
            NetErr::NoDevice => "NET_NO_DEVICE",
            NetErr::Busy => "NET_BUSY",
            NetErr::WriteError => "NET_WRITE_ERROR",
            NetErr::WriteBusy => "NET_WRITE_BUSY",
            NetErr::WriteTimeout => "NET_WRITE_TIMEOUT",
            NetErr::ReadError => "NET_READ_ERROR",
            NetErr::ReadBusy => "NET_READ_BUSY",
            NetErr::ReadTimeout => "NET_READ_TIMEOUT",
            NetErr::ReadOverflow => "NET_READ_OVERFLOW",
            NetErr::FrameError => "NET_FRAME_ERROR",
            NetErr::BadResponse => "NET_BAD_RESPONSE",
            NetErr::ErrorResponse => "NET_ERROR_RESPONSE",
            NetErr::ResetTimeout => "NET_RESET_TIMEOUT",
            NetErr::BufferTooSmall => "NET_BUFFER_TOO_SMALL",
            NetErr::UnexpectedResponse => "NET_UNEXPECTED_RESPONSE",
            NetErr::NotConnectedToAp => "NET_NOT_CONNECTED_TO_AP",
            NetErr::NotImplemented => "NET_NOT_IMPLEMENTED",
            NetErr::ConnectionClosed => "NET_CONNECTION_CLOSED",
        }
    }
}

/// Each status code names exactly one member of the closed set.
pub proof fn lemma_code_round_trip(e: NetErr)
    ensures
        NetErr::spec_from_code(e.spec_code()) == Some(e),
{
}

/// Only the members of the closed set are recognised, and each by its own code.
pub proof fn lemma_from_code_inverse(code: i32)
    ensures
        NetErr::spec_from_code(code) matches Some(e) ==> e.spec_code() == code,
        NetErr::spec_from_code(code) is None ==> (code > 0 || code < -18),
{
}

/// The text that describes a status code: the tag of a known code, and
/// `unknown code N` for any other, so that codes added by later firmware
/// still render.
pub open spec fn net_err_text(code: i32) -> Seq<char> {
    match NetErr::spec_from_code(code) {
        Some(e) => e.spec_tag(),
        None => "unknown code "@ + signed_decimal(code as int),
    }
}

/// Describes a status code returned by the host.
pub fn describe_net_err(code: i32) -> (r: String)
    ensures
        r@ == net_err_text(code),
{
    match NetErr::from_code(code) {
        Some(e) => String::from_str(e.tag()),
        None => {
            let digits = render_signed(code as i64);
            String::from_str("unknown code ").concat(digits.as_str())
        },
    }
}

} // verus!
