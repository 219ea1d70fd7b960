use std::cell::Cell;
use std::collections::HashMap;
use std::rc::Rc;

use crankstart::error::{count_result, ensure_net_ok, require_entry, ArgumentError, Call, HttpError};
use crankstart::http::{AccessReply, Http, HttpConnection, NativeCall, Token};
use crankstart::slots::EventKind;

/// A callback of a connection; it may reach back into the table.
struct Cb(Box<dyn FnMut(&mut Table, Token)>);

type Table = Http<Cb, Box<dyn FnMut(bool)>>;

fn kind_index(kind: EventKind) -> usize {
    match kind {
        EventKind::HeaderReceived => 0,
        EventKind::HeadersRead => 1,
        EventKind::Response => 2,
        EventKind::RequestComplete => 3,
        EventKind::ConnectionClosed => 4,
    }
}

#[derive(Default)]
struct FakeConnection {
    userdata: Option<Token>,
    registered: [bool; 5],
    closes: u32,
    releases: u32,
    requests: Vec<NativeCall>,
}

/// A stand-in for the host: it performs the calls that the bridge hands out.
struct FakeHost {
    connections: HashMap<usize, FakeConnection>,
    next_raw: usize,
    response_status: i32,
    available: i32,
    access_reply: AccessReply,
}

impl FakeHost {
    fn new() -> Self {
        FakeHost {
            connections: HashMap::new(),
            next_raw: 0x1000,
            response_status: 200,
            available: 0,
            access_reply: AccessReply::Allow,
        }
    }

    fn conn(&mut self, raw: usize) -> &mut FakeConnection {
        self.connections.get_mut(&raw).expect("known connection")
    }

    /// Performs `call`, returning the integer reply of the host.
    fn perform(&mut self, call: &NativeCall) -> i32 {
        match call {
            NativeCall::NewConnection { server, .. } => {
                assert_eq!(server.last(), Some(&0));
                let raw = self.next_raw;
                self.next_raw += 0x10;
                self.connections.insert(raw, FakeConnection::default());
                raw as i32
            }
            NativeCall::SetUserdata { conn, token } => {
                self.conn(*conn).userdata = *token;
                0
            }
            NativeCall::SetCallback { conn, kind, registered } => {
                self.conn(*conn).registered[kind_index(*kind)] = *registered;
                0
            }
            NativeCall::Get { conn, .. }
            | NativeCall::Post { conn, .. }
            | NativeCall::Query { conn, .. } => {
                let c = call.clone();
                self.conn(*conn).requests.push(c);
                0
            }
            NativeCall::GetResponseStatus { .. } => self.response_status,
            NativeCall::Read { len, .. } | NativeCall::Discard { len, .. } => {
                if self.available < 0 {
                    self.available
                } else {
                    let n = std::cmp::min(self.available, *len as i32);
                    self.available -= n;
                    n
                }
            }
            NativeCall::Close { conn } => {
                self.conn(*conn).closes += 1;
                0
            }
            NativeCall::Release { conn } => {
                self.conn(*conn).releases += 1;
                0
            }
            _ => 0,
        }
    }

    /// The host firing an event of `kind` on connection `raw`, as a
    /// trampoline would: it hands back the userdata it holds.
    fn fire(&mut self, http: &mut Table, raw: usize, kind: EventKind) -> bool {
        let userdata = self.conn(raw).userdata;
        match http.begin_callback(userdata, kind) {
            Some(mut cb) => {
                let t = userdata.expect("a callback needs a token");
                (cb.0)(http, t);
                http.end_callback(t, kind, cb);
                true
            }
            None => false,
        }
    }
}

fn open(host: &mut FakeHost, http: &mut Table, server: &str, port: i32) -> HttpConnection {
    let call = http.new_connection(server, port, false).expect("valid server");
    let raw = host.perform(&call) as usize;
    let (conn, install) = http.connection_created(Some(raw)).expect("non-null handle");
    host.perform(&install);
    conn
}

fn counter() -> (Rc<Cell<u32>>, Cb) {
    let count = Rc::new(Cell::new(0));
    let c = count.clone();
    (count, Cb(Box::new(move |_http: &mut Table, _t: Token| c.set(c.get() + 1))))
}

#[test]
fn end_to_end_get_with_response_callback() {
    let mut host = FakeHost::new();
    let mut http: Table = Http::new();
    let call = http.new_connection("example.com", 80, false).unwrap();
    assert_eq!(
        call,
        NativeCall::NewConnection { server: b"example.com\0".to_vec(), port: 80, use_ssl: false }
    );
    let raw = host.perform(&call) as usize;
    let (conn, install) = http.connection_created(Some(raw)).unwrap();
    assert_eq!(install, NativeCall::SetUserdata { conn: raw, token: Some(conn.token()) });
    host.perform(&install);

    let (responses, cb) = counter();
    let set = conn.on_response(&mut http, Some(cb));
    assert_eq!(host.perform(&set), 0);
    assert!(host.conn(raw).registered[kind_index(EventKind::Response)]);

    let get = conn.get("/ping", None).unwrap();
    assert_eq!(
        get,
        NativeCall::Get { conn: raw, path: b"/ping\0".to_vec(), headers: Vec::new() }
    );
    assert_eq!(ensure_net_ok(Call::Get, Some(host.perform(&get))), Ok(()));

    assert!(host.fire(&mut http, raw, EventKind::Response));
    assert!(!host.fire(&mut http, raw, EventKind::RequestComplete));
    assert_eq!(responses.get(), 1);

    let status = host.perform(&conn.response_status());
    assert_eq!(require_entry(Call::GetResponseStatus, Some(status)), Ok(200));
}

#[test]
fn registration_follows_the_last_setting() {
    let mut host = FakeHost::new();
    let mut http: Table = Http::new();
    let conn = open(&mut host, &mut http, "example.com", 80);
    let raw = conn.raw_connection();
    let kinds = [
        EventKind::HeaderReceived,
        EventKind::HeadersRead,
        EventKind::Response,
        EventKind::RequestComplete,
        EventKind::ConnectionClosed,
    ];
    let plan: [(usize, bool); 9] = [
        (2, true),
        (3, true),
        (2, false),
        (0, true),
        (3, true),
        (4, false),
        (0, false),
        (2, true),
        (1, true),
    ];
    let mut expected = [false; 5];
    for (k, present) in plan {
        let callback = if present { Some(counter().1) } else { None };
        let call = match kinds[k] {
            EventKind::HeaderReceived => conn.on_header_received(&mut http, callback),
            EventKind::HeadersRead => conn.on_headers_read(&mut http, callback),
            EventKind::Response => conn.on_response(&mut http, callback),
            EventKind::RequestComplete => conn.on_request_complete(&mut http, callback),
            EventKind::ConnectionClosed => conn.on_connection_closed(&mut http, callback),
        };
        assert_eq!(call, NativeCall::SetCallback { conn: raw, kind: kinds[k], registered: present });
        host.perform(&call);
        expected[k] = present;
        assert_eq!(host.conn(raw).registered, expected);
    }
    assert_eq!(expected, [false, true, true, true, false]);
}

#[test]
fn dispose_closes_and_releases_once() {
    let mut host = FakeHost::new();
    let mut http: Table = Http::new();
    let conn = open(&mut host, &mut http, "example.com", 80);
    let raw = conn.raw_connection();
    let token = conn.token();
    assert!(http.is_live(token));
    let calls = conn.dispose(&mut http);
    assert_eq!(
        calls,
        vec![
            NativeCall::SetUserdata { conn: raw, token: None },
            NativeCall::Close { conn: raw },
            NativeCall::Release { conn: raw },
        ]
    );
    for call in &calls {
        host.perform(call);
    }
    assert!(!http.is_live(token));
    let c = host.conn(raw);
    assert_eq!((c.closes, c.releases, c.userdata), (1, 1, None));
}

#[test]
fn late_event_after_dispose_is_a_noop() {
    let mut host = FakeHost::new();
    let mut http: Table = Http::new();
    let conn = open(&mut host, &mut http, "example.com", 80);
    let raw = conn.raw_connection();
    let token = conn.token();
    let (count, cb) = counter();
    host.perform(&conn.on_response(&mut http, Some(cb)));
    for call in conn.dispose(&mut http) {
        host.perform(&call);
    }
    // A host that still holds the old token fires the event anyway.
    assert!(http.begin_callback(Some(token), EventKind::Response).is_none());
    host.conn(raw).userdata = Some(token);
    assert!(!host.fire(&mut http, raw, EventKind::Response));
    assert_eq!(count.get(), 0);
    assert!(http.begin_callback(None, EventKind::Response).is_none());
}

#[test]
fn reused_entry_does_not_revive_old_tokens() {
    let mut host = FakeHost::new();
    let mut http: Table = Http::new();
    let first = open(&mut host, &mut http, "a.example", 80);
    let old_token = first.token();
    first.dispose(&mut http);
    let second = open(&mut host, &mut http, "b.example", 80);
    assert_eq!(second.token().index, old_token.index);
    assert_ne!(second.token(), old_token);
    assert!(!http.is_live(old_token));
    assert!(http.is_live(second.token()));
}

#[test]
fn callback_may_clear_its_own_slot() {
    let mut host = FakeHost::new();
    let mut http: Table = Http::new();
    let conn = open(&mut host, &mut http, "example.com", 80);
    let raw = conn.raw_connection();
    let runs = Rc::new(Cell::new(0));
    let r = runs.clone();
    let cb = Cb(Box::new(move |http: &mut Table, t: Token| {
        r.set(r.get() + 1);
        // The callback cancels itself while it runs; the slot is its own.
        assert!(http.begin_callback(Some(t), EventKind::Response).is_none());
    }));
    host.perform(&conn.on_response(&mut http, Some(cb)));
    assert!(host.fire(&mut http, raw, EventKind::Response));
    assert_eq!(runs.get(), 1);
    // Clearing the slot after the run drops the callback and unregisters.
    host.perform(&conn.on_response(&mut http, None));
    assert!(!host.conn(raw).registered[kind_index(EventKind::Response)]);
    assert!(!host.fire(&mut http, raw, EventKind::Response));
    assert_eq!(runs.get(), 1);
}

#[test]
fn setting_during_the_run_stands() {
    let mut http: Table = Http::new();
    let mut host = FakeHost::new();
    let conn = open(&mut host, &mut http, "example.com", 80);
    let t = conn.token();
    let (first, cb) = counter();
    conn.on_response(&mut http, Some(cb));
    let lent = http.begin_callback(Some(t), EventKind::Response).expect("waiting callback");
    // While it runs, the application clears the slot.
    let call = conn.on_response(&mut http, None);
    assert_eq!(call, NativeCall::SetCallback { conn: conn.raw_connection(), kind: EventKind::Response, registered: false });
    http.end_callback(t, EventKind::Response, lent);
    assert!(http.begin_callback(Some(t), EventKind::Response).is_none());
    // And a new one set while another runs replaces it.
    let (second, cb2) = counter();
    let (_, cb3) = counter();
    conn.on_response(&mut http, Some(cb2));
    let mut lent = http.begin_callback(Some(t), EventKind::Response).unwrap();
    conn.on_response(&mut http, Some(cb3));
    (lent.0)(&mut http, t);
    http.end_callback(t, EventKind::Response, lent);
    let mut now = http.begin_callback(Some(t), EventKind::Response).unwrap();
    (now.0)(&mut http, t);
    http.end_callback(t, EventKind::Response, now);
    assert_eq!((first.get(), second.get()), (0, 1));
}

#[test]
fn header_event_needs_key_and_value() {
    let mut host = FakeHost::new();
    let mut http: Table = Http::new();
    let conn = open(&mut host, &mut http, "example.com", 80);
    let t = conn.token();
    let (count, cb) = counter();
    conn.on_header_received(&mut http, Some(cb));
    assert!(http.begin_header_callback(Some(t), None, Some(b"v")).is_none());
    assert!(http.begin_header_callback(Some(t), Some(b"k"), None).is_none());
    let mut lent = http.begin_header_callback(Some(t), Some(b"k"), Some(b"v")).unwrap();
    (lent.0)(&mut http, t);
    http.end_callback(t, EventKind::HeaderReceived, lent);
    assert_eq!(count.get(), 1);
}

#[test]
fn requests_refuse_embedded_terminators() {
    let mut host = FakeHost::new();
    let mut http: Table = Http::new();
    let conn = open(&mut host, &mut http, "example.com", 80);
    let nul_at = |p: usize| Err(HttpError::Argument(ArgumentError::EmbeddedNul { position: p }));
    assert_eq!(conn.get("/pi\0ng", None), nul_at(3));
    assert_eq!(conn.get("/ping", Some(b"X-A: 1\0\r\n")), nul_at(6));
    assert_eq!(conn.post("\0", Some(b"ok"), Some(b"body")), nul_at(0));
    assert_eq!(conn.post("/p", Some(b"a\0"), Some(b"body")), nul_at(1));
    assert_eq!(conn.query("GE\0T", "/p", None, None), nul_at(2));
    assert_eq!(conn.query("GET", "/p\0", None, None), nul_at(2));
    assert_eq!(conn.query("GET", "/p", Some(b"\0"), None), nul_at(0));
    assert!(host.conn(conn.raw_connection()).requests.is_empty());
}

#[test]
fn requests_carry_their_arguments() {
    let mut host = FakeHost::new();
    let mut http: Table = Http::new();
    let conn = open(&mut host, &mut http, "example.com", 80);
    let raw = conn.raw_connection();
    assert_eq!(
        conn.post("/submit", Some(b"A: b\r\n"), Some(b"x\0y")),
        Ok(NativeCall::Post {
            conn: raw,
            path: b"/submit\0".to_vec(),
            headers: b"A: b\r\n".to_vec(),
            body: b"x\0y".to_vec(),
        })
    );
    assert_eq!(
        conn.query("PUT", "/q", None, Some(b"z")),
        Ok(NativeCall::Query {
            conn: raw,
            method: b"PUT\0".to_vec(),
            path: b"/q\0".to_vec(),
            headers: Vec::new(),
            body: b"z".to_vec(),
        })
    );
}

#[test]
fn read_and_discard() {
    let mut host = FakeHost::new();
    let mut http: Table = Http::new();
    let conn = open(&mut host, &mut http, "example.com", 80);
    let raw = conn.raw_connection();
    let call = conn.read(64).unwrap();
    assert_eq!(call, NativeCall::Read { conn: raw, len: 64 });
    assert_eq!(count_result(Call::Read, Some(host.perform(&call))), Ok(0));
    host.available = 100;
    assert_eq!(count_result(Call::Read, Some(host.perform(&call))), Ok(64));
    assert_eq!(conn.discard(0), Ok(None));
    let skip = conn.discard(50).unwrap().unwrap();
    assert_eq!(skip, NativeCall::Discard { conn: raw, len: 50 });
    assert_eq!(count_result(Call::Discard, Some(host.perform(&skip))), Ok(36));
    host.available = -6;
    let r = count_result(Call::Read, Some(host.perform(&call)));
    assert_eq!(r, Err(HttpError::Native { call: Call::Read, code: -6 }));
    assert_eq!(r.unwrap_err().tag().unwrap(), "NET_READ_ERROR");
}

#[test]
fn narrow_setters() {
    let mut host = FakeHost::new();
    let mut http: Table = Http::new();
    let conn = open(&mut host, &mut http, "example.com", 80);
    let raw = conn.raw_connection();
    let too_large = |v: u64| Err(HttpError::Argument(ArgumentError::TooLarge { value: v }));
    assert_eq!(
        conn.set_connect_timeout(5000),
        Ok(NativeCall::SetConnectTimeout { conn: raw, timeout_ms: 5000 })
    );
    assert_eq!(conn.set_connect_timeout(u32::MAX), too_large(u32::MAX as u64));
    assert_eq!(conn.set_read_timeout(3_000_000_000), too_large(3_000_000_000));
    assert_eq!(
        conn.set_read_buffer_size(4096),
        Ok(NativeCall::SetReadBufferSize { conn: raw, bytes: 4096 })
    );
    assert_eq!(
        conn.set_byte_range(10, 20),
        Ok(NativeCall::SetByteRange { conn: raw, start: 10, end: 20 })
    );
    assert_eq!(conn.set_byte_range(10, u32::MAX), too_large(u32::MAX as u64));
    assert_eq!(conn.set_keep_alive(true), NativeCall::SetKeepAlive { conn: raw, keep_alive: true });
    assert_eq!(conn.close(), NativeCall::Close { conn: raw });
    assert_eq!(conn.error(), NativeCall::GetError { conn: raw });
    assert_eq!(conn.progress(), NativeCall::GetProgress { conn: raw });
    assert_eq!(conn.bytes_available(), NativeCall::GetBytesAvailable { conn: raw });
}

#[test]
fn connection_errors() {
    let mut http: Table = Http::new();
    assert_eq!(
        http.new_connection("", 80, false),
        Err(HttpError::Argument(ArgumentError::EmptyServer))
    );
    assert_eq!(
        http.new_connection("exa\0mple.com", 80, true),
        Err(HttpError::Argument(ArgumentError::EmbeddedNul { position: 3 }))
    );
    assert_eq!(
        http.connection_created(None).err(),
        Some(HttpError::Configuration { entry: Call::NewConnection })
    );
    assert_eq!(
        http.connection_created(Some(0)).err(),
        Some(HttpError::ProtocolViolation { call: Call::NewConnection })
    );
}

#[test]
fn known_access_reply_holds_nothing() {
    let mut host = FakeHost::new();
    let mut http: Table = Http::new();
    let answered = Rc::new(Cell::new(false));
    let a = answered.clone();
    let call = http
        .request_access(Some("example.com"), 443, true, Some("sync"), Some(Box::new(move |ok| a.set(ok))))
        .unwrap();
    let request = match &call {
        NativeCall::RequestAccess { server, port, use_ssl, purpose, request } => {
            assert_eq!(server.as_deref(), Some(&b"example.com\0"[..]));
            assert_eq!(purpose.as_deref(), Some(&b"sync\0"[..]));
            assert_eq!((*port, *use_ssl), (443, true));
            request.expect("a callback was given")
        }
        other => panic!("unexpected call {:?}", other),
    };
    assert!(http.is_pending(request));
    assert_eq!(http.access_replied(Some(request), Some(host.access_reply)), Ok(AccessReply::Allow));
    assert!(!http.is_pending(request));
    assert!(http.access_answered(request).is_none());
    assert!(!answered.get());
    host.access_reply = AccessReply::Deny;
    let call = http.request_access(None, 80, false, None, Some(Box::new(|_| {}))).unwrap();
    if let NativeCall::RequestAccess { request: Some(t), server: None, purpose: None, .. } = call {
        assert_eq!(http.access_replied(Some(t), Some(host.access_reply)), Ok(AccessReply::Deny));
        assert!(!http.is_pending(t));
    } else {
        panic!("unexpected call");
    }
}

#[test]
fn known_access_reply_frees_the_callback() {
    let mut http: Table = Http::new();
    let captured = Rc::new(Cell::new(false));
    let c = captured.clone();
    let call = http
        .request_access(None, 80, false, None, Some(Box::new(move |ok| c.set(ok))))
        .unwrap();
    assert_eq!(Rc::strong_count(&captured), 2);
    let t = match call {
        NativeCall::RequestAccess { request: Some(t), .. } => t,
        _ => panic!("unexpected call"),
    };
    assert_eq!(http.access_replied(Some(t), Some(AccessReply::Allow)), Ok(AccessReply::Allow));
    assert_eq!(Rc::strong_count(&captured), 1);
    assert!(!captured.get());
}

#[test]
fn pending_access_reply_calls_back_once() {
    let mut http: Table = Http::new();
    let answered = Rc::new(Cell::new(0));
    let a = answered.clone();
    let call = http
        .request_access(None, 80, false, None, Some(Box::new(move |ok| if ok { a.set(a.get() + 1) })))
        .unwrap();
    let t = match call {
        NativeCall::RequestAccess { request: Some(t), .. } => t,
        _ => panic!("unexpected call"),
    };
    assert_eq!(http.access_replied(Some(t), Some(AccessReply::Ask)), Ok(AccessReply::Ask));
    assert!(http.is_pending(t));
    let mut cb = http.access_answered(t).expect("held until the answer");
    cb(true);
    assert!(http.access_answered(t).is_none());
    assert_eq!(answered.get(), 1);
}

#[test]
fn access_request_checks_and_missing_entry() {
    let mut http: Table = Http::new();
    assert_eq!(
        http.request_access(Some("a\0"), 80, false, None, Some(Box::new(|_| {}))),
        Err(HttpError::Argument(ArgumentError::EmbeddedNul { position: 1 }))
    );
    assert_eq!(
        http.request_access(None, 80, false, Some("\0why"), None),
        Err(HttpError::Argument(ArgumentError::EmbeddedNul { position: 0 }))
    );
    let call = http.request_access(None, 80, false, None, None).unwrap();
    assert_eq!(
        call,
        NativeCall::RequestAccess { server: None, port: 80, use_ssl: false, purpose: None, request: None }
    );
    let call = http.request_access(None, 80, false, None, Some(Box::new(|_| {}))).unwrap();
    if let NativeCall::RequestAccess { request: Some(t), .. } = call {
        assert_eq!(
            http.access_replied(Some(t), None),
            Err(HttpError::Configuration { entry: Call::RequestAccess })
        );
        assert!(!http.is_pending(t));
    } else {
        panic!("unexpected call");
    }
}
