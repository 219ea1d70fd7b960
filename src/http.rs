//! Connections to the host's HTTP API, the tokens by which the host reaches
//! them, and the dispatch of the host's events to their callbacks.
//!
//! The host never holds application state: it holds a `Token`, an index and
//! a generation into the table of `Http`, and hands it back with each event.
//! A token stops resolving when its connection is disposed of, so an event
//! that arrives late is a no-op.
use vstd::prelude::*;
use vstd::string::StringSliceAdditionalSpecFns;
use crate::c_str::{
    body_bytes, buffer_bytes, c_string_outcome, checked_headers, has_nul, len_to_c_uint,
    optional_cstring, refused_at_nul, to_c_int, to_c_string,
};
use crate::error::{ArgumentError, Call, HttpError};
use crate::slots::{CallbackSlots, EventKind, Slot, slot_of};

verus! {

/// What the host stores as the userdata of a connection, and hands back
/// with each of its events.
#[derive(Clone, Copy, Debug, PartialEq, Eq, Structural)]
pub struct Token {
    pub index: usize,
    pub generation: u64,
}

/// What the host hands back with its answer to an access request.
#[derive(Clone, Copy, Debug, PartialEq, Eq, Structural)]
pub struct AccessToken {
    pub index: usize,
    pub generation: u64,
}

/// The host's answer to an access request.
#[derive(Clone, Copy, Debug, PartialEq, Eq, Structural)]
pub enum AccessReply {
    /// The user is being asked; the answer comes later, through the callback.
    Ask,
    Deny,
    Allow,
}

/// A call into the host's HTTP API, with the arguments to hand it.
/// Text arguments are nul-terminated.
#[derive(Clone, Debug, PartialEq, Eq)]
pub enum NativeCall {
    RequestAccess {
        server: Option<Vec<u8>>,
        port: i32,
        use_ssl: bool,
        purpose: Option<Vec<u8>>,
        request: Option<AccessToken>,
    },
    NewConnection { server: Vec<u8>, port: i32, use_ssl: bool },
    /// Sets the userdata of a connection; `None` clears it.
    SetUserdata { conn: usize, token: Option<Token> },
    /// Registers (or unregisters) the host's entry point for one kind of event.
    SetCallback { conn: usize, kind: EventKind, registered: bool },
    SetConnectTimeout { conn: usize, timeout_ms: i32 },
    SetKeepAlive { conn: usize, keep_alive: bool },
    SetByteRange { conn: usize, start: i32, end: i32 },
    SetReadTimeout { conn: usize, timeout_ms: i32 },
    SetReadBufferSize { conn: usize, bytes: i32 },
    Get { conn: usize, path: Vec<u8>, headers: Vec<u8> },
    Post { conn: usize, path: Vec<u8>, headers: Vec<u8>, body: Vec<u8> },
    Query { conn: usize, method: Vec<u8>, path: Vec<u8>, headers: Vec<u8>, body: Vec<u8> },
    GetError { conn: usize },
    GetProgress { conn: usize },
    GetResponseStatus { conn: usize },
    GetBytesAvailable { conn: usize },
    /// Reads at most `len` bytes into the caller's buffer.
    Read { conn: usize, len: u32 },
    /// Reads at most `len` bytes and throws them away.
    Discard { conn: usize, len: u32 },
    Close { conn: usize },
    Release { conn: usize },
}

/// A live connection as the table holds it.
pub struct ConnectionState<C> {
    /// The host's opaque handle.
    pub raw: usize,
    pub slots: CallbackSlots<C>,
}

struct ConnectionEntry<C> {
    generation: u64,
    live: Option<ConnectionState<C>>,
}

struct AccessEntry<A> {
    generation: u64,
    pending: Option<A>,
}

/// The application's side of the host's HTTP API: the connections that the
/// application owns, with their callbacks of type `C`, and the access
/// requests whose one-shot callbacks of type `A` wait for the host's answer.
pub struct Http<C, A> {
    connections: Vec<ConnectionEntry<C>>,
    requests: Vec<AccessEntry<A>>,
}

/// The exclusive handle of one connection of the host. It cannot be copied;
/// `dispose` consumes it.
#[derive(Debug)]
pub struct HttpConnection {
    token: Token,
    raw: usize,
}

/// The calls that tear a connection down: clear its userdata, close it,
/// release it.
pub open spec fn teardown_calls(raw: usize) -> Seq<NativeCall> {
    seq![
        NativeCall::SetUserdata { conn: raw, token: None },
        NativeCall::Close { conn: raw },
        NativeCall::Release { conn: raw },
    ]
}

impl HttpConnection {
    /// The token of this connection.
    pub closed spec fn spec_token(&self) -> Token {
        self.token
    }

    /// The host's handle of this connection.
    pub closed spec fn spec_raw(&self) -> usize {
        self.raw
    }

    /// The token that the host holds for this connection.
    pub fn token(&self) -> (r: Token)
        ensures
            r == self.spec_token(),
    {
        self.token
    }

    /// The host's opaque handle of this connection.
    pub fn raw_connection(&self) -> (r: usize)
        ensures
            r == self.spec_raw(),
    {
        self.raw
    }
}

impl HttpConnection {
    fn set_callback<C, A>(&self, http: &mut Http<C, A>, kind: EventKind, callback: Option<C>) -> (call:
        NativeCall)
        requires
            old(http).holds(self),
        ensures
            callback_set(
                *old(http),
                *final(http),
                self.spec_token(),
                self.spec_raw(),
                kind,
                callback,
                call,
            ),
            final(http).holds(self),
    {
        let entry = &mut http.connections[self.token.index];
        let registered = match &mut entry.live {
            Some(state) => state.slots.set(kind, callback),
            None => false,
        };
        NativeCall::SetCallback { conn: self.raw, kind, registered }
    }

    /// Sets or clears the callback for each header that the host receives.
    /// The call returned registers the host's entry point exactly when a
    /// callback is given, and unregisters it otherwise.
    pub fn on_header_received<C, A>(&self, http: &mut Http<C, A>, callback: Option<C>) -> (call:
        NativeCall)
        requires
            old(http).holds(self),
        ensures
            callback_set(
                *old(http),
                *final(http),
                self.spec_token(),
                self.spec_raw(),
                EventKind::HeaderReceived,
                callback,
                call,
            ),
            final(http).holds(self),
    {
        self.set_callback(http, EventKind::HeaderReceived, callback)
    }

    /// Sets or clears the callback for the end of the response headers.
    pub fn on_headers_read<C, A>(&self, http: &mut Http<C, A>, callback: Option<C>) -> (call:
        NativeCall)
        requires
            old(http).holds(self),
        ensures
            callback_set(
                *old(http),
                *final(http),
                self.spec_token(),
                self.spec_raw(),
                EventKind::HeadersRead,
                callback,
                call,
            ),
            final(http).holds(self),
    {
        self.set_callback(http, EventKind::HeadersRead, callback)
    }

    /// Sets or clears the callback for the arrival of response data.
    pub fn on_response<C, A>(&self, http: &mut Http<C, A>, callback: Option<C>) -> (call:
        NativeCall)
        requires
            old(http).holds(self),
        ensures
            callback_set(
                *old(http),
                *final(http),
                self.spec_token(),
                self.spec_raw(),
                EventKind::Response,
                callback,
                call,
            ),
            final(http).holds(self),
    {
        self.set_callback(http, EventKind::Response, callback)
    }

    /// Sets or clears the callback for the completion of a request.
    pub fn on_request_complete<C, A>(&self, http: &mut Http<C, A>, callback: Option<C>) -> (call:
        NativeCall)
        requires
            old(http).holds(self),
        ensures
            callback_set(
                *old(http),
                *final(http),
                self.spec_token(),
                self.spec_raw(),
                EventKind::RequestComplete,
                callback,
                call,
            ),
            final(http).holds(self),
    {
        self.set_callback(http, EventKind::RequestComplete, callback)
    }

    /// Sets or clears the callback for the closing of the connection by the host.
    pub fn on_connection_closed<C, A>(&self, http: &mut Http<C, A>, callback: Option<C>) -> (call:
        NativeCall)
        requires
            old(http).holds(self),
        ensures
            callback_set(
                *old(http),
                *final(http),
                self.spec_token(),
                self.spec_raw(),
                EventKind::ConnectionClosed,
                callback,
                call,
            ),
            final(http).holds(self),
    {
        self.set_callback(http, EventKind::ConnectionClosed, callback)
    }

    /// Tears the connection down. Its token stops resolving at once, so that
    /// the host's late events are no-ops; the calls returned clear the host's
    /// userdata, then close and release the connection, each exactly once.
    pub fn dispose<C, A>(self, http: &mut Http<C, A>) -> (calls: Vec<NativeCall>)
        requires
            old(http).holds(&self),
        ensures
            disposed(*old(http), *final(http), self.spec_token(), self.spec_raw(), calls@),
    {
        let entry = &mut http.connections[self.token.index];
        entry.live = None;
        let mut calls: Vec<NativeCall> = Vec::new();
        calls.push(NativeCall::SetUserdata { conn: self.raw, token: None });
        calls.push(NativeCall::Close { conn: self.raw });
        calls.push(NativeCall::Release { conn: self.raw });
        assert(calls@ == teardown_calls(self.spec_raw()));
        calls
    }
}

/// The nul-terminated form of an optional text, as `optional_cstring` gives it.
pub open spec fn optional_outcome(text: Option<&str>, converted: Option<Vec<u8>>) -> bool {
    match text {
        None => converted is None,
        Some(s) => converted matches Some(v) && c_string_outcome(s.spec_bytes(), Ok(v)),
    }
}

/// `r` refuses `b` for the zero byte that it holds.
pub open spec fn refused_for(r: Result<NativeCall, HttpError>, b: Seq<u8>) -> bool {
    match r {
        Err(e) => refused_at_nul(b, e),
        Ok(_) => false,
    }
}

/// An optional text that holds a zero byte.
pub open spec fn optional_has_nul(text: Option<&str>) -> bool {
    text matches Some(s) && has_nul(s.spec_bytes())
}

impl HttpConnection {
    /// Prepares a GET of `path`, with `headers` as raw header lines. A path
    /// or header buffer that holds a zero byte is refused, and then no call
    /// is made.
    pub fn get(&self, path: &str, headers: Option<&[u8]>) -> (r: Result<NativeCall, HttpError>)
        ensures
            has_nul(path.spec_bytes()) ==> refused_for(r, path.spec_bytes()),
            !has_nul(path.spec_bytes()) && has_nul(buffer_bytes(headers)) ==> refused_for(r, buffer_bytes(headers)),
            !has_nul(path.spec_bytes()) && !has_nul(buffer_bytes(headers)) ==> match r {
                Ok(NativeCall::Get { conn, path: p, headers: h }) => conn == self.spec_raw() && p@
                    == path.spec_bytes().push(0u8) && h@ == buffer_bytes(headers),
                _ => false,
            },
    {
        let path_c = match to_c_string(path) {
            Ok(p) => p,
            Err(e) => {
                return Err(e);
            },
        };
        let header_bytes = match checked_headers(headers) {
            Ok(h) => h,
            Err(e) => {
                return Err(e);
            },
        };
        Ok(NativeCall::Get { conn: self.raw, path: path_c, headers: header_bytes })
    }

    /// Prepares a POST of `body` to `path`; path and headers are checked as
    /// for `get`, and the body may hold any byte.
    pub fn post(&self, path: &str, headers: Option<&[u8]>, body: Option<&[u8]>) -> (r: Result<
        NativeCall,
        HttpError,
    >)
        ensures
            has_nul(path.spec_bytes()) ==> refused_for(r, path.spec_bytes()),
            !has_nul(path.spec_bytes()) && has_nul(buffer_bytes(headers)) ==> refused_for(r, buffer_bytes(headers)),
            !has_nul(path.spec_bytes()) && !has_nul(buffer_bytes(headers)) ==> match r {
                Ok(NativeCall::Post { conn, path: p, headers: h, body: b }) => conn == self.spec_raw()
                    && p@ == path.spec_bytes().push(0u8) && h@ == buffer_bytes(headers) && b@
                    == buffer_bytes(body),
                _ => false,
            },
    {
        let path_c = match to_c_string(path) {
            Ok(p) => p,
            Err(e) => {
                return Err(e);
            },
        };
        let header_bytes = match checked_headers(headers) {
            Ok(h) => h,
            Err(e) => {
                return Err(e);
            },
        };
        let body_c = body_bytes(body);
        Ok(NativeCall::Post { conn: self.raw, path: path_c, headers: header_bytes, body: body_c })
    }

    /// Prepares a request with the HTTP method `method`; the method is
    /// checked first, then path and headers as for `get`.
    pub fn query(&self, method: &str, path: &str, headers: Option<&[u8]>, body: Option<&[u8]>) -> (r:
        Result<NativeCall, HttpError>)
        ensures
            has_nul(method.spec_bytes()) ==> refused_for(r, method.spec_bytes()),
            !has_nul(method.spec_bytes()) && has_nul(path.spec_bytes()) ==> refused_for(r, path.spec_bytes()),
            !has_nul(method.spec_bytes()) && !has_nul(path.spec_bytes()) && has_nul(
                buffer_bytes(headers),
            ) ==> refused_for(r, buffer_bytes(headers)),
            !has_nul(method.spec_bytes()) && !has_nul(path.spec_bytes()) && !has_nul(
                buffer_bytes(headers),
            ) ==> match r {
                Ok(NativeCall::Query { conn, method: m, path: p, headers: h, body: b }) => conn
                    == self.spec_raw() && m@ == method.spec_bytes().push(0u8) && p@
                    == path.spec_bytes().push(0u8) && h@ == buffer_bytes(headers) && b@
                    == buffer_bytes(body),
                _ => false,
            },
    {
        let method_c = match to_c_string(method) {
            Ok(m) => m,
            Err(e) => {
                return Err(e);
            },
        };
        let path_c = match to_c_string(path) {
            Ok(p) => p,
            Err(e) => {
                return Err(e);
            },
        };
        let header_bytes = match checked_headers(headers) {
            Ok(h) => h,
            Err(e) => {
                return Err(e);
            },
        };
        let body_c = body_bytes(body);
        Ok(
            NativeCall::Query {
                conn: self.raw,
                method: method_c,
                path: path_c,
                headers: header_bytes,
                body: body_c,
            },
        )
    }

    /// Prepares a read into a buffer of `len` bytes. The buffer must not be
    /// empty, so that reading nothing is told apart from the end of the
    /// stream; the host's reply is read by `count_result` with `Call::Read`.
    pub fn read(&self, len: usize) -> (r: Result<NativeCall, HttpError>)
        requires
            len > 0,
        ensures
            len <= u32::MAX ==> r == Ok::<NativeCall, HttpError>(
                NativeCall::Read { conn: self.spec_raw(), len: len as u32 },
            ),
            len > u32::MAX ==> r == Err::<NativeCall, HttpError>(
                HttpError::Argument(ArgumentError::TooLarge { value: len as u64 }),
            ),
    {
        match len_to_c_uint(len) {
            Ok(n) => Ok(NativeCall::Read { conn: self.raw, len: n }),
            Err(e) => Err(e),
        }
    }

    /// Prepares skipping `len` bytes of the response. Skipping nothing needs
    /// no call: `Ok(None)`, and zero bytes were skipped.
    pub fn discard(&self, len: usize) -> (r: Result<Option<NativeCall>, HttpError>)
        ensures
            len == 0 ==> r == Ok::<Option<NativeCall>, HttpError>(None),
            0 < len <= u32::MAX ==> r == Ok::<Option<NativeCall>, HttpError>(
                Some(NativeCall::Discard { conn: self.spec_raw(), len: len as u32 }),
            ),
            len > u32::MAX ==> r == Err::<Option<NativeCall>, HttpError>(
                HttpError::Argument(ArgumentError::TooLarge { value: len as u64 }),
            ),
    {
        if len == 0 {
            return Ok(None);
        }
        match len_to_c_uint(len) {
            Ok(n) => Ok(Some(NativeCall::Discard { conn: self.raw, len: n })),
            Err(e) => Err(e),
        }
    }

    /// The call that closes the connection; the host accepts it more than
    /// once, and it may come before `dispose`.
    pub fn close(&self) -> (call: NativeCall)
        ensures
            call == (NativeCall::Close { conn: self.spec_raw() }),
    {
        NativeCall::Close { conn: self.raw }
    }

    /// Prepares setting the connect timeout, which the host takes as a signed integer.
    pub fn set_connect_timeout(&self, timeout_ms: u32) -> (r: Result<NativeCall, HttpError>)
        ensures
            timeout_ms <= i32::MAX ==> r == Ok::<NativeCall, HttpError>(
                NativeCall::SetConnectTimeout { conn: self.spec_raw(), timeout_ms: timeout_ms as i32 },
            ),
            timeout_ms > i32::MAX ==> r == Err::<NativeCall, HttpError>(
                HttpError::Argument(ArgumentError::TooLarge { value: timeout_ms as u64 }),
            ),
    {
        match to_c_int(timeout_ms) {
            Ok(t) => Ok(NativeCall::SetConnectTimeout { conn: self.raw, timeout_ms: t }),
            Err(e) => Err(e),
        }
    }

    /// The call that sets whether the connection is kept alive.
    pub fn set_keep_alive(&self, keep_alive: bool) -> (call: NativeCall)
        ensures
            call == (NativeCall::SetKeepAlive { conn: self.spec_raw(), keep_alive }),
    {
        NativeCall::SetKeepAlive { conn: self.raw, keep_alive }
    }

    /// Prepares requesting only the bytes from `start` to `end`; each bound
    /// must fit the host's signed integer.
    pub fn set_byte_range(&self, start: u32, end: u32) -> (r: Result<NativeCall, HttpError>)
        ensures
            start > i32::MAX ==> r == Err::<NativeCall, HttpError>(
                HttpError::Argument(ArgumentError::TooLarge { value: start as u64 }),
            ),
            start <= i32::MAX && end > i32::MAX ==> r == Err::<NativeCall, HttpError>(
                HttpError::Argument(ArgumentError::TooLarge { value: end as u64 }),
            ),
            start <= i32::MAX && end <= i32::MAX ==> r == Ok::<NativeCall, HttpError>(
                NativeCall::SetByteRange {
                    conn: self.spec_raw(),
                    start: start as i32,
                    end: end as i32,
                },
            ),
    {
        let s = match to_c_int(start) {
            Ok(s) => s,
            Err(e) => {
                return Err(e);
            },
        };
        match to_c_int(end) {
            Ok(e) => Ok(NativeCall::SetByteRange { conn: self.raw, start: s, end: e }),
            Err(e) => Err(e),
        }
    }

    /// Prepares setting the read timeout, which the host takes as a signed integer.
    pub fn set_read_timeout(&self, timeout_ms: u32) -> (r: Result<NativeCall, HttpError>)
        ensures
            timeout_ms <= i32::MAX ==> r == Ok::<NativeCall, HttpError>(
                NativeCall::SetReadTimeout { conn: self.spec_raw(), timeout_ms: timeout_ms as i32 },
            ),
            timeout_ms > i32::MAX ==> r == Err::<NativeCall, HttpError>(
                HttpError::Argument(ArgumentError::TooLarge { value: timeout_ms as u64 }),
            ),
    {
        match to_c_int(timeout_ms) {
            Ok(t) => Ok(NativeCall::SetReadTimeout { conn: self.raw, timeout_ms: t }),
            Err(e) => Err(e),
        }
    }

    /// Prepares setting the size of the host's read buffer, a signed integer there.
    pub fn set_read_buffer_size(&self, bytes: u32) -> (r: Result<NativeCall, HttpError>)
        ensures
            bytes <= i32::MAX ==> r == Ok::<NativeCall, HttpError>(
                NativeCall::SetReadBufferSize { conn: self.spec_raw(), bytes: bytes as i32 },
            ),
            bytes > i32::MAX ==> r == Err::<NativeCall, HttpError>(
                HttpError::Argument(ArgumentError::TooLarge { value: bytes as u64 }),
            ),
    {
        match to_c_int(bytes) {
            Ok(b) => Ok(NativeCall::SetReadBufferSize { conn: self.raw, bytes: b }),
            Err(e) => Err(e),
        }
    }

    /// The call that asks for the connection's last network status.
    pub fn error(&self) -> (call: NativeCall)
        ensures
            call == (NativeCall::GetError { conn: self.spec_raw() }),
    {
        NativeCall::GetError { conn: self.raw }
    }

    /// The call that asks how many bytes of how many have been read.
    pub fn progress(&self) -> (call: NativeCall)
        ensures
            call == (NativeCall::GetProgress { conn: self.spec_raw() }),
    {
        NativeCall::GetProgress { conn: self.raw }
    }

    /// The call that asks for the HTTP status of the response.
    pub fn response_status(&self) -> (call: NativeCall)
        ensures
            call == (NativeCall::GetResponseStatus { conn: self.spec_raw() }),
    {
        NativeCall::GetResponseStatus { conn: self.raw }
    }

    /// The call that asks how many response bytes wait to be read.
    pub fn bytes_available(&self) -> (call: NativeCall)
        ensures
            call == (NativeCall::GetBytesAvailable { conn: self.spec_raw() }),
    {
        NativeCall::GetBytesAvailable { conn: self.raw }
    }
}

/// What a callback setter leaves behind: the slot of `kind` of the
/// connection of `t` holds exactly the callback given, nothing else changes,
/// and the call returned registers the host for `kind` exactly when a
/// callback was given.
pub open spec fn callback_set<C, A>(
    before: Http<C, A>,
    after: Http<C, A>,
    t: Token,
    raw: usize,
    kind: EventKind,
    callback: Option<C>,
    call: NativeCall,
) -> bool {
    &&& after.slot(t, kind) == Some(slot_of(callback))
    &&& after.same_but_slot(&before, t, kind)
    &&& after.connections_same_except(&before, t)
    &&& after.requests_unchanged(&before)
    &&& after.keeps_ended(&before)
    &&& call == (NativeCall::SetCallback { conn: raw, kind, registered: callback is Some })
}

/// What `dispose` leaves behind: the token has ended, nothing else changes,
/// and the calls are those of `teardown_calls`.
pub open spec fn disposed<C, A>(
    before: Http<C, A>,
    after: Http<C, A>,
    t: Token,
    raw: usize,
    calls: Seq<NativeCall>,
) -> bool {
    &&& calls == teardown_calls(raw)
    &&& after.state(t) is None
    &&& after.ended(t)
    &&& after.connections_same_except(&before, t)
    &&& after.requests_unchanged(&before)
    &&& after.keeps_ended(&before)
}

/// What `begin_callback` does with an event of `kind` reported with
/// `userdata`: it lends out the callback that waits in the slot, marking
/// the slot as running, and otherwise changes nothing and gives `None`.
pub open spec fn callback_begun<C, A>(
    before: Http<C, A>,
    after: Http<C, A>,
    userdata: Option<Token>,
    kind: EventKind,
    r: Option<C>,
) -> bool {
    match userdata {
        Some(t) => match before.slot(t, kind) {
            Some(Slot::Ready(c)) => {
                &&& r == Some(c)
                &&& after.slot(t, kind) == Some(Slot::<C>::Running)
                &&& after.same_but_slot(&before, t, kind)
                &&& after.connections_same_except(&before, t)
                &&& after.requests_unchanged(&before)
                &&& after.keeps_ended(&before)
            },
            _ => r is None && after == before,
        },
        None => r is None && after == before,
    }
}

/// What `request_access` leaves behind: the callback, where one was given,
/// is held under a fresh token that goes to the host with the request;
/// nothing else changes.
pub open spec fn access_requested<C, A>(
    before: Http<C, A>,
    after: Http<C, A>,
    callback: Option<A>,
    request: Option<AccessToken>,
) -> bool {
    match callback {
        None => request is None && after == before,
        Some(c) => match request {
            Some(t) => {
                &&& before.pending(t) is None
                &&& after.pending(t) == Some(c)
                &&& after.requests_same_except(&before, t)
                &&& after.connections_unchanged(&before)
                &&& after.keeps_ended(&before)
            },
            None => false,
        },
    }
}

/// What the host's reply to an access request leaves behind. A reply that
/// is already the answer (or no reply, where the host lacks the entry point)
/// means that the host will never call back: the held callback is dropped.
/// A pending reply leaves it to the host's one later call.
pub open spec fn access_settled<C, A>(
    before: Http<C, A>,
    after: Http<C, A>,
    request: Option<AccessToken>,
    reply: Option<AccessReply>,
) -> bool {
    match request {
        Some(t) => if reply == Some(AccessReply::Ask) {
            after == before
        } else {
            &&& after.pending(t) is None
            &&& after.requests_same_except(&before, t)
            &&& after.connections_unchanged(&before)
            &&& after.keeps_ended(&before)
        },
        None => after == before,
    }
}

/// A token that has ended resolves to nothing.
pub proof fn lemma_ended_resolves_to_nothing<C, A>(h: Http<C, A>, t: Token)
    requires
        h.ended(t),
    ensures
        h.state(t) is None,
{
}

impl<C, A> Http<C, A> {
    /// Prepares asking the user for network access to `server` (any server
    /// where `None`) for `purpose`. Both texts are checked before anything is
    /// held; the callback, where given, is held until the answer is known.
    pub fn request_access(
        &mut self,
        server: Option<&str>,
        port: i32,
        use_ssl: bool,
        purpose: Option<&str>,
        callback: Option<A>,
    ) -> (r: Result<NativeCall, HttpError>)
        ensures
            optional_has_nul(server) ==> refused_for(r, server.unwrap().spec_bytes())
                && *final(self) == *old(self),
            !optional_has_nul(server) && optional_has_nul(purpose) ==> refused_for(
                r,
                purpose.unwrap().spec_bytes(),
            ) && *final(self) == *old(self),
            !optional_has_nul(server) && !optional_has_nul(purpose) ==> match r {
                Ok(NativeCall::RequestAccess { server: s, port: p, use_ssl: u, purpose: q, request }) => {
                    &&& optional_outcome(server, s)
                    &&& optional_outcome(purpose, q)
                    &&& p == port
                    &&& u == use_ssl
                    &&& access_requested(*old(self), *final(self), callback, request)
                },
                _ => false,
            },
    {
        let server_c = match optional_cstring(server) {
            Ok(v) => v,
            Err(e) => {
                return Err(e);
            },
        };
        let purpose_c = match optional_cstring(purpose) {
            Ok(v) => v,
            Err(e) => {
                return Err(e);
            },
        };
        let request = match callback {
            None => None,
            Some(c) => Some(self.hold_request(c)),
        };
        Ok(
            NativeCall::RequestAccess {
                server: server_c,
                port,
                use_ssl,
                purpose: purpose_c,
                request,
            },
        )
    }

    /// Takes in the host's reply to an access request made with `request`:
    /// `None` where its table lacks the entry point. Unless the reply is
    /// `Ask`, the host will not call back, and the held callback is dropped here.
    pub fn access_replied(&mut self, request: Option<AccessToken>, reply: Option<AccessReply>) -> (r:
        Result<AccessReply, HttpError>)
        ensures
            match reply {
                None => r == Err::<AccessReply, HttpError>(
                    HttpError::Configuration { entry: Call::RequestAccess },
                ),
                Some(x) => r == Ok::<AccessReply, HttpError>(x),
            },
            access_settled(*old(self), *final(self), request, reply),
    {
        match request {
            Some(t) => {
                if reply != Some(AccessReply::Ask) {
                    self.drop_request(t);
                }
            },
            None => {},
        }
        match reply {
            None => Err(HttpError::Configuration { entry: Call::RequestAccess }),
            Some(x) => Ok(x),
        }
    }

    /// Hands out, once, the callback held under `t`, for the host's answer
    /// to a pending access request. A token that holds nothing (it was
    /// answered already, or settled at once) gives `None` and changes nothing.
    pub fn access_answered(&mut self, t: AccessToken) -> (r: Option<A>)
        ensures
            r == old(self).pending(t),
            final(self).pending(t) is None,
            final(self).requests_same_except(old(self), t),
            final(self).connections_unchanged(old(self)),
            final(self).keeps_ended(old(self)),
            r is None ==> *final(self) == *old(self),
    {
        if !self.is_pending(t) {
            return None;
        }
        let entry = &mut self.requests[t.index];
        entry.pending.take()
    }

    fn drop_request(&mut self, t: AccessToken)
        ensures
            final(self).pending(t) is None,
            final(self).requests_same_except(old(self), t),
            final(self).connections_unchanged(old(self)),
            final(self).keeps_ended(old(self)),
    {
        if self.is_pending(t) {
            let entry = &mut self.requests[t.index];
            entry.pending = None;
        }
    }

    fn hold_request(&mut self, callback: A) -> (t: AccessToken)
        ensures
            old(self).pending(t) is None,
            final(self).pending(t) == Some(callback),
            final(self).requests_same_except(old(self), t),
            final(self).connections_unchanged(old(self)),
            final(self).keeps_ended(old(self)),
    {
        let mut i: usize = 0;
        while i < self.requests.len()
            invariant
                i <= self.requests@.len(),
                *self == *old(self),
            decreases self.requests@.len() - i,
        {
            if self.requests[i].pending.is_none() && self.requests[i].generation < u64::MAX {
                let generation = self.requests[i].generation + 1;
                self.requests[i] = AccessEntry { generation, pending: Some(callback) };
                let t = AccessToken { index: i, generation };
                assert(final(self).requests_same_except(old(self), t));
                return t;
            }
            i = i + 1;
        }
        let t = AccessToken { index: self.requests.len(), generation: 0 };
        self.requests.push(AccessEntry { generation: 0, pending: Some(callback) });
        assert(final(self).requests_same_except(old(self), t));
        t
    }

    /// The connection that `t` resolves to, if it is still live.
    pub closed spec fn state(&self, t: Token) -> Option<ConnectionState<C>> {
        if t.index < self.connections@.len() && self.connections@[t.index as int].generation
            == t.generation {
            self.connections@[t.index as int].live
        } else {
            None
        }
    }

    /// The callback that waits for the host's answer under `t`, if any.
    pub closed spec fn pending(&self, t: AccessToken) -> Option<A> {
        if t.index < self.requests@.len() && self.requests@[t.index as int].generation
            == t.generation {
            self.requests@[t.index as int].pending
        } else {
            None
        }
    }

    /// `t` was issued once and its connection has been disposed of since: it
    /// names an entry whose generation has moved past it, or the entry of
    /// its own generation, now empty.
    pub closed spec fn ended(&self, t: Token) -> bool {
        &&& t.index < self.connections@.len()
        &&& t.generation <= self.connections@[t.index as int].generation
        &&& (t.generation == self.connections@[t.index as int].generation
            ==> self.connections@[t.index as int].live is None)
    }

    /// Every token that had ended in `other` has ended in `self` too.
    pub open spec fn keeps_ended(&self, other: &Self) -> bool {
        forall|t: Token| #[trigger] other.ended(t) ==> self.ended(t)
    }

    /// `conn` is a connection of this table.
    pub open spec fn holds(&self, conn: &HttpConnection) -> bool {
        self.state(conn.spec_token()) matches Some(s) && s.raw == conn.spec_raw()
    }

    /// The slot of `kind` of the connection that `t` resolves to.
    pub open spec fn slot(&self, t: Token, kind: EventKind) -> Option<Slot<C>> {
        match self.state(t) {
            Some(s) => Some(s.slots.slot(kind)),
            None => None,
        }
    }

    /// Every connection but the one of `t` is as in `other`.
    pub open spec fn connections_same_except(&self, other: &Self, t: Token) -> bool {
        forall|u: Token| u != t ==> #[trigger] self.state(u) == other.state(u)
    }

    /// Every access request but the one of `t` is as in `other`.
    pub open spec fn requests_same_except(&self, other: &Self, t: AccessToken) -> bool {
        forall|u: AccessToken| u != t ==> #[trigger] self.pending(u) == other.pending(u)
    }

    /// No connection differs from `other`.
    pub open spec fn connections_unchanged(&self, other: &Self) -> bool {
        forall|u: Token| #[trigger] self.state(u) == other.state(u)
    }

    /// No access request differs from `other`.
    pub open spec fn requests_unchanged(&self, other: &Self) -> bool {
        forall|u: AccessToken| #[trigger] self.pending(u) == other.pending(u)
    }

    /// The connection of `t` has the same handle and slots as in `other`,
    /// except the slot of `kind`.
    pub open spec fn same_but_slot(&self, other: &Self, t: Token, kind: EventKind) -> bool {
        &&& self.state(t) is Some
        &&& other.state(t) is Some
        &&& self.state(t).unwrap().raw == other.state(t).unwrap().raw
        &&& self.state(t).unwrap().slots.same_except(&other.state(t).unwrap().slots, kind)
    }

    /// A table without connections or access requests.
    pub fn new() -> (r: Self)
        ensures
            forall|t: Token| #[trigger] r.state(t) is None,
            forall|t: AccessToken| #[trigger] r.pending(t) is None,
    {
        Http { connections: Vec::new(), requests: Vec::new() }
    }

    /// Whether `t` still resolves to a live connection.
    pub fn is_live(&self, t: Token) -> (r: bool)
        ensures
            r == self.state(t) is Some,
    {
        t.index < self.connections.len() && self.connections[t.index].generation == t.generation
            && self.connections[t.index].live.is_some()
    }

    /// Whether a callback still waits for the host's answer under `t`.
    pub fn is_pending(&self, t: AccessToken) -> (r: bool)
        ensures
            r == self.pending(t) is Some,
    {
        t.index < self.requests.len() && self.requests[t.index].generation == t.generation
            && self.requests[t.index].pending.is_some()
    }

    /// Lends out the callback for an event of `kind` that the host reports
    /// with `userdata`. Where the userdata is null, or the token no longer
    /// resolves, or no callback waits in the slot (none is set, or it is
    /// running already), nothing changes and `None` comes back. Otherwise the
    /// slot is marked running until `end_callback`, so that the callback may
    /// itself set or clear any slot, its own included, while it runs.
    pub fn begin_callback(&mut self, userdata: Option<Token>, kind: EventKind) -> (r: Option<C>)
        ensures
            callback_begun(*old(self), *final(self), userdata, kind, r),
    {
        let t = match userdata {
            Some(t) => t,
            None => {
                return None;
            },
        };
        if !self.is_live(t) {
            return None;
        }
        let ready = match &self.connections[t.index].live {
            Some(state) => state.slots.is_ready(kind),
            None => false,
        };
        if !ready {
            return None;
        }
        let entry = &mut self.connections[t.index];
        match &mut entry.live {
            Some(state) => state.slots.begin(kind),
            None => None,
        }
    }

    /// `begin_callback` for a header event, which the host reports with a
    /// key and a value; where either is missing the event is a no-op.
    pub fn begin_header_callback(
        &mut self,
        userdata: Option<Token>,
        key: Option<&[u8]>,
        value: Option<&[u8]>,
    ) -> (r: Option<C>)
        ensures
            (key is None || value is None) ==> r is None && *final(self) == *old(self),
            (key is Some && value is Some) ==> callback_begun(
                *old(self),
                *final(self),
                userdata,
                EventKind::HeaderReceived,
                r,
            ),
    {
        if key.is_none() || value.is_none() {
            return None;
        }
        self.begin_callback(userdata, EventKind::HeaderReceived)
    }

    /// Takes back a callback lent out by `begin_callback`. Where its slot was
    /// set or cleared while it ran, or its connection was disposed of, that
    /// stands and the callback is dropped.
    pub fn end_callback(&mut self, t: Token, kind: EventKind, callback: C)
        ensures
            match old(self).slot(t, kind) {
                Some(Slot::Running) => {
                    &&& final(self).slot(t, kind) == Some(Slot::Ready(callback))
                    &&& final(self).same_but_slot(old(self), t, kind)
                    &&& final(self).connections_same_except(old(self), t)
                    &&& final(self).requests_unchanged(old(self))
                    &&& final(self).keeps_ended(old(self))
                },
                _ => *final(self) == *old(self),
            },
    {
        if !self.is_live(t) {
            return;
        }
        let running = match &self.connections[t.index].live {
            Some(state) => state.slots.is_running(kind),
            None => false,
        };
        if !running {
            return;
        }
        let entry = &mut self.connections[t.index];
        match &mut entry.live {
            Some(state) => state.slots.finish(kind, callback),
            None => {},
        }
    }

    fn free_connection_entry(&self) -> (r: Option<usize>)
        ensures
            r matches Some(i) ==> i < self.connections@.len()
                && self.connections@[i as int].live is None
                && self.connections@[i as int].generation < u64::MAX,
    {
        let mut i: usize = 0;
        while i < self.connections.len()
            invariant
                i <= self.connections@.len(),
            decreases self.connections@.len() - i,
        {
            if self.connections[i].live.is_none() && self.connections[i].generation < u64::MAX {
                return Some(i);
            }
            i = i + 1;
        }
        None
    }

    /// Prepares the native call that opens a connection to `server`.
    pub fn new_connection(&self, server: &str, port: i32, use_ssl: bool) -> (r: Result<
        NativeCall,
        HttpError,
    >)
        ensures
            server@.len() == 0 ==> r == Err::<NativeCall, HttpError>(
                HttpError::Argument(ArgumentError::EmptyServer),
            ),
            server@.len() > 0 ==> match r {
                Ok(call) => call matches NativeCall::NewConnection { server: s, port: p, use_ssl: u }
                    && c_string_outcome(server.spec_bytes(), Ok(s)) && p == port && u == use_ssl,
                Err(e) => c_string_outcome(server.spec_bytes(), Err(e)),
            },
    {
        if server.is_empty() {
            return Err(HttpError::Argument(ArgumentError::EmptyServer));
        }
        match to_c_string(server) {
            Ok(s) => Ok(NativeCall::NewConnection { server: s, port, use_ssl }),
            Err(e) => Err(e),
        }
    }

    /// Takes in what the host's connection constructor returned: `None`
    /// where its table lacks the constructor, zero for a null handle.
    /// A new connection enters the table with every slot empty; the call
    /// returned beside it installs its token as the connection's userdata.
    pub fn connection_created(&mut self, reply: Option<usize>) -> (r: Result<
        (HttpConnection, NativeCall),
        HttpError,
    >)
        ensures
            reply is None ==> r == Err::<(HttpConnection, NativeCall), HttpError>(
                HttpError::Configuration { entry: Call::NewConnection },
            ),
            reply == Some(0usize) ==> r == Err::<(HttpConnection, NativeCall), HttpError>(
                HttpError::ProtocolViolation { call: Call::NewConnection },
            ),
            r is Err ==> *final(self) == *old(self),
            final(self).keeps_ended(old(self)),
            match reply {
                Some(raw) => raw != 0 ==> match r {
                    Ok((conn, call)) => {
                        &&& conn.spec_raw() == raw
                        &&& old(self).state(conn.spec_token()) is None
                        &&& final(self).holds(&conn)
                        &&& forall|k: EventKind| #[trigger] final(self).slot(conn.spec_token(), k)
                            == Some(Slot::<C>::Empty)
                        &&& final(self).connections_same_except(old(self), conn.spec_token())
                        &&& call == NativeCall::SetUserdata {
                            conn: raw,
                            token: Some(conn.spec_token()),
                        }
                    },
                    Err(_) => false,
                },
                None => true,
            },
            final(self).requests_unchanged(old(self)),
    {
        let raw = match reply {
            None => {
                return Err(HttpError::Configuration { entry: Call::NewConnection });
            },
            Some(raw) => raw,
        };
        if raw == 0 {
            return Err(HttpError::ProtocolViolation { call: Call::NewConnection });
        }
        let state = ConnectionState { raw, slots: CallbackSlots::new() };
        let token = match self.free_connection_entry() {
            Some(i) => {
                let generation = self.connections[i].generation + 1;
                self.connections[i] = ConnectionEntry { generation, live: Some(state) };
                Token { index: i, generation }
            },
            None => {
                let i = self.connections.len();
                self.connections.push(ConnectionEntry { generation: 0, live: Some(state) });
                Token { index: i, generation: 0 }
            },
        };
        let conn = HttpConnection { token, raw };
        assert(final(self).connections_same_except(old(self), token));
        Ok((conn, NativeCall::SetUserdata { conn: raw, token: Some(token) }))
    }
}

} // verus!
