//! The network facade: the link status, and switching the network on and
//! off with an optional one-shot callback for the end of the switch.
use vstd::prelude::*;
use crate::error::{ArgumentError, Call, HttpError};

verus! {

/// The state of the wireless link as the host reports it.
#[derive(Clone, Copy, Debug, PartialEq, Eq, Structural)]
pub enum WifiStatus {
    NotConnected,
    Connected,
    NotAvailable,
}

/// The link status that the host reports by `code`, if any.
pub open spec fn wifi_status_of(code: i32) -> Option<WifiStatus> {
    if code == 0 {
        Some(WifiStatus::NotConnected)
    } else if code == 1 {
        Some(WifiStatus::Connected)
    } else if code == 2 {
        Some(WifiStatus::NotAvailable)
    } else {
        None
    }
}

/// Reads the host's link status: `None` where its table lacks the entry point.
pub fn wifi_status_result(reply: Option<i32>) -> (r: Result<WifiStatus, HttpError>)
    ensures
        match reply {
            None => r == Err::<WifiStatus, HttpError>(
                HttpError::Configuration { entry: Call::GetStatus },
            ),
            Some(code) => match wifi_status_of(code) {
                Some(s) => r == Ok::<WifiStatus, HttpError>(s),
                None => r == Err::<WifiStatus, HttpError>(
                    HttpError::ProtocolViolation { call: Call::GetStatus },
                ),
            },
        },
{
    match reply {
        None => Err(HttpError::Configuration { entry: Call::GetStatus }),
        Some(code) => if code == 0 {
            Ok(WifiStatus::NotConnected)
        } else if code == 1 {
            Ok(WifiStatus::Connected)
        } else if code == 2 {
            Ok(WifiStatus::NotAvailable)
        } else {
            Err(HttpError::ProtocolViolation { call: Call::GetStatus })
        },
    }
}

/// A call into the host's network API.
#[derive(Clone, Copy, Debug, PartialEq, Eq, Structural)]
pub enum NetworkCall {
    GetStatus,
    /// Switches the network on or off; `with_callback` hands the host the
    /// entry point that reports the end of the switch.
    SetEnabled { flag: bool, with_callback: bool },
}

/// The application's side of the host's network API: at most one callback,
/// of type `E`, waiting for the end of a switch.
pub struct Network<E> {
    enable_callback: Option<E>,
}

impl<E> Network<E> {
    /// The callback that waits for the end of a switch, if any.
    pub closed spec fn pending(&self) -> Option<E> {
        self.enable_callback
    }

    /// A facade with no callback waiting.
    pub fn new() -> (r: Self)
        ensures
            r.pending() is None,
    {
        Network { enable_callback: None }
    }

    /// The call that asks for the link status.
    pub fn status(&self) -> (call: NetworkCall)
        ensures
            call == NetworkCall::GetStatus,
    {
        NetworkCall::GetStatus
    }

    /// The call that switches the network on or off, with no callback.
    pub fn set_enabled(&self, flag: bool) -> (call: NetworkCall)
        ensures
            call == (NetworkCall::SetEnabled { flag, with_callback: false }),
    {
        NetworkCall::SetEnabled { flag, with_callback: false }
    }

    /// Prepares switching the network on with `callback` for the end of the
    /// switch. Refused when switching off, and while an earlier callback
    /// still waits; then nothing changes and `callback` is dropped.
    pub fn set_enabled_with_callback(&mut self, flag: bool, callback: E) -> (r: Result<
        NetworkCall,
        HttpError,
    >)
        ensures
            !flag ==> r == Err::<NetworkCall, HttpError>(
                HttpError::Argument(ArgumentError::CallbackWhileDisabling),
            ) && *final(self) == *old(self),
            flag && old(self).pending() is Some ==> r == Err::<NetworkCall, HttpError>(
                HttpError::Argument(ArgumentError::EnablePending),
            ) && *final(self) == *old(self),
            flag && old(self).pending() is None ==> r == Ok::<NetworkCall, HttpError>(
                NetworkCall::SetEnabled { flag: true, with_callback: true },
            ) && final(self).pending() == Some(callback),
    {
        if !flag {
            return Err(HttpError::Argument(ArgumentError::CallbackWhileDisabling));
        }
        if self.enable_callback.is_some() {
            return Err(HttpError::Argument(ArgumentError::EnablePending));
        }
        self.enable_callback = Some(callback);
        Ok(NetworkCall::SetEnabled { flag: true, with_callback: true })
    }

    /// Takes in whether the host's table had the entry point for a switch
    /// prepared with a callback. Without it the host never calls back, so the
    /// callback is dropped.
    pub fn set_enabled_result(&mut self, entry_present: bool) -> (r: Result<(), HttpError>)
        ensures
            entry_present ==> r is Ok && *final(self) == *old(self),
            !entry_present ==> r == Err::<(), HttpError>(
                HttpError::Configuration { entry: Call::SetEnabled },
            ) && final(self).pending() is None,
    {
        if entry_present {
            Ok(())
        } else {
            self.enable_callback = None;
            Err(HttpError::Configuration { entry: Call::SetEnabled })
        }
    }

    /// Hands out, once, the callback that waits for the end of a switch, for
    /// the host's report of it.
    pub fn enable_finished(&mut self) -> (r: Option<E>)
        ensures
            r == old(self).pending(),
            final(self).pending() is None,
    {
        self.enable_callback.take()
    }
}

} // verus!
