//! Calls to the daemon: retries, replies, and what the results mean.

use gssproxy::client::{
    begin_call, is_retryable, make_call, reply_length, seed_progress, socket_path, Action,
    ClientConn, Drawn, Event, GpmError, Identity, IoFailure, IoKind, Transaction, GP_SOCKET_NAME,
    MAX_TIMEOUT_RETRY,
};
use gssproxy::codec;
use gssproxy::consts::{
    EINVAL, GSSX_C_ACCEPT, GSSX_C_BOTH, GSSX_C_INITIATE, GSS_C_ACCEPT, GSS_C_BOTH,
    GSS_C_GSS_CODE, GSS_C_INDEFINITE, GSS_C_INITIATE, GSS_C_MECH_CODE, GSS_S_BAD_NAME,
    GSS_S_BAD_STATUS, GSS_S_COMPLETE, GSS_S_CONTINUE_NEEDED, GSS_S_FAILURE, GSS_S_UNAVAILABLE,
};
use gssproxy::frame::{frame, parse_header, FrameError};
use gssproxy::gpm;
use gssproxy::gssx::{
    GssxCred, GssxCredElement, GssxCtx, GssxHandle, GssxName, GssxOption, GssxStatus, Opaque,
};
use gssproxy::proc::{
    ArgIndicateMechs, ArgInitSecContext, GssxProc, ResAcceptSecContext, ResAcquireCred, ResGetMic,
    ResImportAndCanonName, ResIndicateMechs, ResInitSecContext, ResReleaseHandle, ResUnwrap,
    ResVerifyMic, ResWrap, ResWrapSizeLimit,
};
use gssproxy::rpc::{
    encode_reply, encode_request, Message, ReplyBody, FRAGMENT_BIT, GSSPROXY, GSSPROXYVERS,
    MAX_RPC_SIZE, RPC_VERS,
};
use gssproxy::xdr::{Xdr, XdrDecoder, XdrEncoder, XdrError};

const PARENT: Identity = Identity { pid: 100, uid: 1000, gid: 1000 };
const CHILD: Identity = Identity { pid: 101, uid: 1000, gid: 1000 };
const SEED: u32 = 0x1234_5678;

fn io_failure(kind: IoKind, errno: Option<i32>) -> GpmError {
    GpmError::Io(IoFailure { kind, errno, text: "socket trouble".to_string() })
}

/// What a daemon made of the connections that were opened to it.
struct Daemon<F: FnMut(usize, &[u8]) -> Option<Vec<u8>>> {
    connections: usize,
    recorded: Vec<(u32, Vec<u8>)>,
    script: F,
}

impl<F: FnMut(usize, &[u8]) -> Option<Vec<u8>>> Daemon<F> {
    /// The script is given the number of the connection and the request, and gives
    /// the bytes to write back, or `None` to close without a reply.
    fn new(script: F) -> Self {
        Daemon { connections: 0, recorded: vec![], script }
    }

    fn exchange(&mut self, framed: &[u8]) -> Event {
        let word = u32::from_be_bytes([framed[0], framed[1], framed[2], framed[3]]);
        let len = parse_header(word).expect("the fragment bit must be set");
        let body = framed[4..4 + len].to_vec();
        self.recorded.push((word, body.clone()));
        let raw = match (self.script)(self.connections - 1, &body) {
            Some(raw) => raw,
            None => return Event::Failed(io_failure(IoKind::UnexpectedEof, None)),
        };
        if raw.len() < 4 {
            return Event::Failed(io_failure(IoKind::UnexpectedEof, None));
        }
        match reply_length([raw[0], raw[1], raw[2], raw[3]]) {
            Err(e) => Event::Failed(e),
            Ok(n) if raw.len() < 4 + n => {
                Event::Failed(io_failure(IoKind::UnexpectedEof, None))
            }
            Ok(n) => Event::Replied(raw[4..4 + n].to_vec()),
        }
    }

    fn call<A: Xdr, R: Xdr>(
        &mut self,
        conn: &mut ClientConn,
        now: Identity,
        procedure: GssxProc,
        arg: &A,
    ) -> Result<R, GpmError> {
        let (xid, body) = begin_call(conn, SEED, now, procedure, arg);
        let (mut t, mut action) = Transaction::begin(conn, &body);
        loop {
            let event = match action {
                Action::Connect => {
                    self.connections += 1;
                    Event::Connected(now)
                }
                Action::Exchange => self.exchange(&frame(&body)),
                Action::Finish(r) => return make_call(xid, r),
            };
            action = t.step(conn, event);
        }
    }

    fn indicate_mechs(&mut self, conn: &mut ClientConn) -> Result<ResIndicateMechs, GpmError> {
        self.call(conn, PARENT, GssxProc::IndicateMechs, &ArgIndicateMechs::default())
    }
}

fn xid_of(body: &[u8]) -> u32 {
    Message::decode(&mut XdrDecoder::new(body)).unwrap().xid
}

fn success_reply<R: Xdr>(xid: u32, res: &R) -> Vec<u8> {
    frame(&encode_reply(xid, res))
}

fn encode_reply_body(reply: ReplyBody, xid: u32) -> Vec<u8> {
    let msg = Message { xid, is_call: false, call: None, reply: Some(reply) };
    let mut e = XdrEncoder::new();
    msg.encode(&mut e);
    frame(&e.into_bytes())
}

// ---- the transport ----

#[test]
fn request_is_byte_exact_with_c_envelope() {
    let mut conn = ClientConn::new();
    let mut daemon = Daemon::new(|_, body: &[u8]| {
        Some(success_reply(xid_of(body), &ResIndicateMechs::default()))
    });
    daemon.indicate_mechs(&mut conn).unwrap();
    assert_eq!(daemon.recorded.len(), 1);
    let (word, body) = &daemon.recorded[0];

    // The fragment bit is set and the advertised length matches the body.
    assert_ne!(word & FRAGMENT_BIT, 0, "fragment bit must be set");
    assert_eq!((word & !FRAGMENT_BIT) as usize, body.len());

    let xid = xid_of(body);
    let expected =
        encode_request(xid, GssxProc::IndicateMechs.to_u32(), &ArgIndicateMechs::default());
    assert_eq!(body, &expected);

    let msg = Message::decode(&mut XdrDecoder::new(body)).unwrap();
    assert!(msg.is_call);
    let ch = msg.call.unwrap();
    assert_eq!(ch.rpcvers, RPC_VERS);
    assert_eq!(ch.prog, GSSPROXY);
    assert_eq!(ch.vers, GSSPROXYVERS);
    assert_eq!(ch.proc_num, GssxProc::IndicateMechs.to_u32());
    assert_eq!(ch.cred.flavor, 0); // AUTH_NONE
    assert!(ch.cred.body.is_empty());
    assert_eq!(ch.verf.flavor, 0);
    assert!(ch.verf.body.is_empty());
}

#[test]
fn round_trips_multiple_procs() {
    let mut conn = ClientConn::new();
    // Two connections: one indicate_mechs, one init_sec_context.
    let mut daemon = Daemon::new(|i, body: &[u8]| {
        let xid = xid_of(body);
        Some(if i == 0 {
            success_reply(xid, &ResIndicateMechs::default())
        } else {
            success_reply(xid, &ResInitSecContext::default())
        })
    });
    let r1 = daemon.indicate_mechs(&mut conn).unwrap();
    assert_eq!(r1, ResIndicateMechs::default());
    conn.disconnect(); // force the second procedure onto a new connection
    let r2: ResInitSecContext = daemon
        .call(&mut conn, PARENT, GssxProc::InitSecContext, &ArgInitSecContext::default())
        .unwrap();
    assert_eq!(r2, ResInitSecContext::default());
    assert_eq!(daemon.recorded.len(), 2);
    assert_eq!(
        Message::decode(&mut XdrDecoder::new(&daemon.recorded[1].1))
            .unwrap()
            .call
            .unwrap()
            .proc_num,
        GssxProc::InitSecContext.to_u32()
    );
}

#[test]
fn reuses_connection_and_increments_xid() {
    let mut conn = ClientConn::new();
    let mut daemon = Daemon::new(|_, body: &[u8]| {
        Some(success_reply(xid_of(body), &ResIndicateMechs::default()))
    });
    daemon.indicate_mechs(&mut conn).unwrap();
    daemon.indicate_mechs(&mut conn).unwrap();
    assert_eq!(daemon.connections, 1, "both calls used the same connection");
    assert_eq!(daemon.recorded.len(), 2);
    let x0 = xid_of(&daemon.recorded[0].1);
    let x1 = xid_of(&daemon.recorded[1].1);
    assert_eq!(x0, SEED);
    assert_eq!(x1, x0.wrapping_add(1), "xid increments by one per call");
}

#[test]
fn rejects_reply_with_wrong_xid() {
    let mut daemon = Daemon::new(|_, body: &[u8]| {
        Some(success_reply(xid_of(body).wrapping_add(99), &ResIndicateMechs::default()))
    });
    let r = daemon.indicate_mechs(&mut ClientConn::new());
    assert!(matches!(r, Err(GpmError::BadReply)));
}

#[test]
fn rejects_reply_that_is_a_call() {
    let mut daemon = Daemon::new(|_, body: &[u8]| {
        // Echo a CALL message back instead of a REPLY.
        Some(frame(&encode_request(
            xid_of(body),
            GssxProc::IndicateMechs.to_u32(),
            &ArgIndicateMechs::default(),
        )))
    });
    let r = daemon.indicate_mechs(&mut ClientConn::new());
    assert!(matches!(r, Err(GpmError::BadReply)));
}

#[test]
fn rejects_denied_reply() {
    let mut daemon = Daemon::new(|_, body: &[u8]| {
        Some(encode_reply_body(
            ReplyBody::Denied { reject_status: 1, value: 0 },
            xid_of(body),
        ))
    });
    let r = daemon.indicate_mechs(&mut ClientConn::new());
    assert!(matches!(r, Err(GpmError::BadReply)));
}

#[test]
fn rejects_accepted_non_success_reply() {
    let mut daemon = Daemon::new(|_, body: &[u8]| {
        Some(encode_reply_body(
            ReplyBody::AcceptedOther {
                verf: Default::default(),
                status: 4, // GARBAGE_ARGS
            },
            xid_of(body),
        ))
    });
    let r = daemon.indicate_mechs(&mut ClientConn::new());
    assert!(matches!(r, Err(GpmError::BadReply)));
}

#[test]
fn rejects_multi_fragment_reply_header() {
    let mut daemon = Daemon::new(|_, _: &[u8]| {
        // A 4-byte header WITHOUT the fragment bit, then a body.
        let mut raw = (8u32).to_be_bytes().to_vec();
        raw.extend_from_slice(&[0u8; 8]);
        Some(raw)
    });
    let r = daemon.indicate_mechs(&mut ClientConn::new());
    assert!(matches!(r, Err(GpmError::Frame(_))));
}

#[test]
fn rejects_oversized_reply_header() {
    let mut daemon = Daemon::new(|_, _: &[u8]| {
        let word = ((MAX_RPC_SIZE as u32) + 1) | FRAGMENT_BIT;
        Some(word.to_be_bytes().to_vec())
    });
    let r = daemon.indicate_mechs(&mut ClientConn::new());
    assert!(matches!(r, Err(GpmError::Frame(_))));
}

#[test]
fn truncated_reply_body_errors_after_retries() {
    // Every attempt advertises 100 bytes but sends only 4, then closes.
    let mut daemon = Daemon::new(|_, _: &[u8]| {
        let mut raw = (100u32 | FRAGMENT_BIT).to_be_bytes().to_vec();
        raw.extend_from_slice(&[0u8; 4]);
        Some(raw)
    });
    let r = daemon.indicate_mechs(&mut ClientConn::new());
    assert!(matches!(r, Err(GpmError::Io(_))));
    assert_eq!(daemon.connections, MAX_TIMEOUT_RETRY);
}

#[test]
fn reconnects_after_dropped_connection() {
    let mut daemon = Daemon::new(|i, body: &[u8]| {
        if i == 0 {
            None
        } else {
            Some(success_reply(xid_of(body), &ResIndicateMechs::default()))
        }
    });
    let r = daemon.indicate_mechs(&mut ClientConn::new()).unwrap();
    assert_eq!(r, ResIndicateMechs::default());
    assert_eq!(daemon.recorded.len(), 2, "request was retried on a new connection");
}

#[test]
fn oversize_request_is_rejected_locally() {
    let big = vec![0u8; MAX_RPC_SIZE + 1];
    let (_, action) = Transaction::begin(&ClientConn::new(), &big);
    assert!(matches!(action, Action::Finish(Err(GpmError::TooLarge))));
}

#[test]
fn errno_mapping_matches_c_intent() {
    assert_eq!(GpmError::TooLarge.errno(), libc::EMSGSIZE);
    assert_eq!(GpmError::BadReply.errno(), libc::EIO);
    let io = io_failure(IoKind::Other, Some(libc::ECONNREFUSED));
    assert_eq!(io.errno(), libc::ECONNREFUSED);
}

#[test]
fn refresh_identity_drops_connection_on_pid_change() {
    let mut conn = ClientConn::new();
    conn.connect(CHILD);
    conn.refresh_identity(PARENT);
    assert!(!conn.connected, "stale post-fork socket must be dropped");
}

#[test]
fn refresh_identity_keeps_connection_for_same_identity() {
    let mut conn = ClientConn::new();
    conn.connect(PARENT);
    conn.refresh_identity(PARENT);
    assert!(conn.connected, "live connection must be retained");
}

#[test]
fn socket_path_defaults_when_env_unset() {
    assert_eq!(socket_path(None), GP_SOCKET_NAME);
    assert_eq!(socket_path(Some("/tmp/custom.sock".to_string())), "/tmp/custom.sock");
}

#[test]
fn survives_fork_with_independent_connection() {
    let mut conn = ClientConn::new();
    let mut daemon = Daemon::new(|_, body: &[u8]| {
        Some(success_reply(xid_of(body), &ResIndicateMechs::default()))
    });
    daemon.indicate_mechs(&mut conn).unwrap();
    let child: Result<ResIndicateMechs, GpmError> =
        daemon.call(&mut conn, CHILD, GssxProc::IndicateMechs, &ArgIndicateMechs::default());
    assert!(child.is_ok(), "the call after the fork should succeed");
    assert_eq!(daemon.connections, 2, "parent and child each opened a connection");
}

/// What a daemon does on one connection, and what a call comes to if it does.
const MISBEHAVIORS: [(&str, Option<&str>); 11] = [
    ("success", Some("ok")),
    ("trailing", Some("ok")),
    ("wrong xid", Some("bad reply")),
    ("call", Some("bad reply")),
    ("denied", Some("bad reply")),
    ("other", Some("bad reply")),
    ("empty", Some("decode")),
    ("no fragment", Some("frame")),
    ("oversized", Some("frame")),
    ("short", None),
    ("drop", None),
];

fn misbehave(what: &str, body: &[u8]) -> Option<Vec<u8>> {
    let xid = xid_of(body);
    let res = ResIndicateMechs::default();
    match what {
        "success" => Some(success_reply(xid, &res)),
        "trailing" => {
            let mut env = encode_reply(xid, &res);
            env.extend_from_slice(&[0xAA; 7]);
            Some(frame(&env))
        }
        "wrong xid" => Some(success_reply(xid.wrapping_add(99), &res)),
        "call" => Some(frame(&encode_request(xid, 1, &ArgIndicateMechs::default()))),
        "denied" => Some(encode_reply_body(ReplyBody::Denied { reject_status: 1, value: 0 }, xid)),
        "other" => Some(encode_reply_body(
            ReplyBody::AcceptedOther { verf: Default::default(), status: 4 },
            xid,
        )),
        "empty" => {
            let mut e = XdrEncoder::new();
            Message::reply_success(xid).encode(&mut e);
            Some(frame(&e.into_bytes()))
        }
        "no fragment" => Some(8u32.to_be_bytes().to_vec()),
        "oversized" => {
            Some((((MAX_RPC_SIZE as u32) + 1) | FRAGMENT_BIT).to_be_bytes().to_vec())
        }
        "short" => {
            let mut raw = (100u32 | FRAGMENT_BIT).to_be_bytes().to_vec();
            raw.extend_from_slice(&[0u8; 4]);
            Some(raw)
        }
        _ => None,
    }
}

#[test]
fn every_sequence_of_misbehaviors_ends_as_foreseen() {
    for a in MISBEHAVIORS {
        for b in MISBEHAVIORS {
            for c in MISBEHAVIORS {
                let expected = a.1.or(b.1).or(c.1).unwrap_or("io");
                let script = [a.0, b.0, c.0];
                let mut daemon = Daemon::new(|i: usize, body: &[u8]| misbehave(script[i], body));
                let r = daemon.indicate_mechs(&mut ClientConn::new());
                let got = match r {
                    Ok(v) => {
                        assert_eq!(v, ResIndicateMechs::default());
                        "ok"
                    }
                    Err(GpmError::BadReply) => "bad reply",
                    Err(GpmError::Frame(_)) => "frame",
                    Err(GpmError::Decode(_)) => "decode",
                    Err(GpmError::Io(_)) => "io",
                    Err(GpmError::TooLarge) => "too large",
                };
                assert_eq!(got, expected, "{script:?}");
            }
        }
    }
}

#[test]
fn failure_to_connect_is_not_retried() {
    let mut conn = ClientConn::new();
    let (mut t, action) = Transaction::begin(&conn, b"body");
    assert!(matches!(action, Action::Connect));
    let refused = io_failure(IoKind::TimedOut, Some(libc::ETIMEDOUT));
    assert!(matches!(
        t.step(&mut conn, Event::ConnectFailed(refused)),
        Action::Finish(Err(GpmError::Io(_)))
    ));
}

#[test]
fn retryable_failures() {
    for kind in [
        IoKind::TimedOut,
        IoKind::WouldBlock,
        IoKind::BrokenPipe,
        IoKind::ConnectionReset,
        IoKind::ConnectionAborted,
        IoKind::UnexpectedEof,
    ] {
        assert!(is_retryable(&IoFailure { kind, errno: None, text: String::new() }));
    }
    assert!(!is_retryable(&IoFailure {
        kind: IoKind::Other,
        errno: None,
        text: String::new()
    }));
}

#[test]
fn errors_are_described() {
    assert_eq!(
        io_failure(IoKind::Other, None).message(),
        "gssproxy socket I/O error: socket trouble"
    );
    assert_eq!(io_failure(IoKind::Other, None).errno(), libc::EIO);
    assert_eq!(
        GpmError::Frame(FrameError::MultiFragment).message(),
        "gssproxy framing error: multi-fragment records are not supported"
    );
    assert_eq!(
        GpmError::Decode(XdrError::Eof).message(),
        "gssproxy reply decode error: unexpected end of XDR stream"
    );
    assert_eq!(
        GpmError::BadReply.message(),
        "gssproxy returned an unexpected RPC reply"
    );
    assert_eq!(
        GpmError::TooLarge.message(),
        "gssproxy request exceeds MAX_RPC_SIZE"
    );
}

#[test]
fn seed_is_drawn_until_it_is_full() {
    assert_eq!(seed_progress(0, Drawn::Filled(1)), Some(1));
    assert_eq!(seed_progress(1, Drawn::Interrupted), Some(1));
    assert_eq!(seed_progress(1, Drawn::Filled(3)), None);
    assert_eq!(seed_progress(2, Drawn::Failed), None);
}

#[test]
fn xid_wraps() {
    let mut conn = ClientConn::new();
    conn.ensure_seeded(u32::MAX);
    conn.ensure_seeded(5);
    assert_eq!(conn.next_xid(), u32::MAX);
    assert_eq!(conn.next_xid(), 0);
}

// ---- what the results mean ----

fn failed_status(major: u64, minor: u64) -> GssxStatus {
    GssxStatus {
        major_status: major,
        minor_status: minor,
        major_status_string: Opaque::new(b"major text".to_vec()),
        minor_status_string: Opaque::new(b"minor text".to_vec()),
        ..Default::default()
    }
}

#[test]
fn failed_call_is_a_failure_with_its_errno() {
    let mut saved = None;
    let eio = libc::EIO as u32;
    let f = GSS_S_FAILURE;
    assert_eq!(gpm::wrap(&mut saved, Err(GpmError::BadReply)), (f, eio, None, false));
    assert_eq!(gpm::unwrap(&mut saved, Err(GpmError::BadReply)), (f, eio, None, false, 0));
    assert_eq!(gpm::get_mic(&mut saved, Err(GpmError::BadReply)), (f, eio, None));
    assert_eq!(gpm::verify_mic(&mut saved, Err(GpmError::BadReply)), (f, eio, 0));
    assert_eq!(gpm::wrap_size_limit(&mut saved, Err(GpmError::BadReply)), (f, eio, 0));
    assert_eq!(gpm::localname(&mut saved, Err(GpmError::BadReply)), (f, eio, None));
    assert_eq!(gpm::canonicalize_name(&mut saved, Err(GpmError::BadReply)), (f, eio, None));
    assert_eq!(gpm::release_cred(&mut saved, Some(Err(GpmError::BadReply))), (f, eio));
    assert_eq!(gpm::acquire_cred(&mut saved, Err(GpmError::BadReply)).minor, eio);
    assert_eq!(gpm::accept_sec_context(&mut saved, Err(GpmError::BadReply)).minor, eio);
    assert!(saved.is_none());
    // Initiation leaves a text for it.
    let r = gpm::init_sec_context(&mut saved, Err(GpmError::TooLarge));
    assert_eq!((r.major, r.minor), (f, libc::EMSGSIZE as u32));
    let (maj, _, text) = gpm::display_status(&saved, r.minor, GSS_C_MECH_CODE, 0);
    assert_eq!(maj, GSS_S_COMPLETE);
    assert_eq!(text, b"gssproxy request exceeds MAX_RPC_SIZE\0");
    let (_, _, text) = gpm::display_status(&saved, f, GSS_C_GSS_CODE, 0);
    assert_eq!(text, b"Internal gssproxy error\0");
}

#[test]
fn reported_failure_is_saved() {
    let mut saved = None;
    let res = ResGetMic { status: failed_status(5, 7), ..Default::default() };
    assert_eq!(gpm::get_mic(&mut saved, Ok(res)), (5, 7, None));
    assert_eq!(saved, Some(failed_status(5, 7)));
    let (maj, min, text) = gpm::display_status(&saved, 7, GSS_C_MECH_CODE, 0);
    assert_eq!((maj, min), (0, 0));
    assert_eq!(text, b"minor text");
    assert_eq!(
        gpm::display_status(&saved, 5, GSS_C_GSS_CODE, 0).2,
        b"major text"
    );
    assert_eq!(
        gpm::display_status(&saved, 6, GSS_C_MECH_CODE, 0),
        (GSS_S_UNAVAILABLE, 0, vec![])
    );
    assert_eq!(
        gpm::display_status(&saved, 7, GSS_C_MECH_CODE, 1),
        (GSS_S_FAILURE, EINVAL as u32, vec![])
    );
    assert_eq!(
        gpm::display_status(&saved, 7, 3, 0),
        (GSS_S_BAD_STATUS, EINVAL as u32, vec![])
    );
    // A success keeps what was saved.
    let ok = ResGetMic { token_buffer: Opaque::new(vec![1]), ..Default::default() };
    assert_eq!(gpm::get_mic(&mut saved, Ok(ok)), (0, 0, Some(vec![1])));
    assert!(saved.is_some());
}

#[test]
fn messages_are_protected_by_the_daemon() {
    let mut saved = None;
    let ctx = GssxCtx { lifetime: 3, ..Default::default() };
    let arg = gpm::wrap_arg(&ctx, true, 2, b"msg");
    assert!(arg.conf_req);
    assert_eq!(arg.qop_state, 2);
    assert_eq!(arg.message_buffer, vec![Opaque::new(b"msg".to_vec())]);
    assert_eq!(arg.context_handle, ctx);
    let res = ResWrap {
        token_buffer: vec![Opaque::new(b"tok".to_vec()), Opaque::default()],
        conf_state: Some(true),
        ..Default::default()
    };
    assert_eq!(gpm::wrap(&mut saved, Ok(res)), (0, 0, Some(b"tok".to_vec()), true));
    assert_eq!(gpm::wrap(&mut saved, Ok(ResWrap::default())), (0, 0, None, false));

    assert_eq!(gpm::unwrap_arg(&ctx, b"tok").token_buffer[0].as_slice(), b"tok");
    let res = ResUnwrap {
        message_buffer: vec![Opaque::new(b"msg".to_vec())],
        qop_state: Some(0x1_0000_0004),
        ..Default::default()
    };
    assert_eq!(
        gpm::unwrap(&mut saved, Ok(res)),
        (0, 0, Some(b"msg".to_vec()), false, 4)
    );
    assert_eq!(gpm::get_mic_arg(&ctx, 9, b"msg").qop_req, 9);
    let arg = gpm::verify_mic_arg(&ctx, b"msg", b"mic");
    assert_eq!(
        (arg.message_buffer.as_slice(), arg.token_buffer.as_slice()),
        (&b"msg"[..], &b"mic"[..])
    );
    let res = ResVerifyMic { qop_state: Some(6), ..Default::default() };
    assert_eq!(gpm::verify_mic(&mut saved, Ok(res)), (0, 0, 6));
    let arg = gpm::wrap_size_limit_arg(&ctx, true, 1, 4096);
    assert_eq!((arg.qop_state, arg.req_output_size), (1, 4096));
    let res = ResWrapSizeLimit { max_input_size: 4000, ..Default::default() };
    assert_eq!(gpm::wrap_size_limit(&mut saved, Ok(res)), (0, 0, 4000));
}

#[test]
fn names_are_displayed_from_what_they_have() {
    let mut n = gpm::import_name(b"user", b"\x01\x02");
    assert_eq!(gpm::display_name(&mut n), (0, 0, b"user".to_vec(), vec![1, 2]));
    let mut exported = GssxName {
        exported_name: Opaque::new(b"exported".to_vec()),
        ..Default::default()
    };
    let (maj, min, display, _) = gpm::display_name(&mut exported);
    assert_eq!((maj, min), (0, 0));
    assert_eq!(display, b"exported");
    assert_eq!(exported.display_name.as_slice(), b"exported");
    assert_eq!(
        gpm::display_name(&mut GssxName::default()),
        (GSS_S_BAD_NAME, 0, vec![], vec![])
    );
    assert_eq!(
        gpm::compare_name(&GssxName::default(), &n),
        (GSS_S_BAD_NAME, 0, false)
    );
}

#[test]
fn local_name_is_an_option() {
    let mut saved = None;
    let n = gpm::import_name(b"user", b"");
    let arg = gpm::localname_arg(&n, b"\x07");
    assert_eq!(arg.options[0].option.as_slice(), b"localname\0");
    assert_eq!(arg.mech.as_slice(), b"\x07");
    assert!(gpm::canonicalize_name_arg(&n, b"\x07").options.is_empty());
    let res = ResImportAndCanonName {
        options: vec![gpm::option(b"localname\0", b"alice")],
        ..Default::default()
    };
    assert_eq!(gpm::localname(&mut saved, Ok(res)).2, Some(b"alice".to_vec()));
    let res = ResImportAndCanonName { output_name: Some(n.clone()), ..Default::default() };
    assert_eq!(gpm::canonicalize_name(&mut saved, Ok(res)), (0, 0, Some(n)));
}

fn element(usage: i32, initiator: u64, acceptor: u64) -> GssxCredElement {
    GssxCredElement {
        mech: Opaque::new(vec![usage as u8]),
        cred_usage: usage,
        initiator_time_rec: initiator,
        acceptor_time_rec: acceptor,
        ..Default::default()
    }
}

#[test]
fn credential_is_known_from_its_elements() {
    let mut c = GssxCred::default();
    assert_eq!(gpm::inquire_cred(&c).major, GSS_S_FAILURE);
    c.elements = vec![element(GSSX_C_INITIATE, 50, 10), element(GSSX_C_ACCEPT, 5, 40)];
    let info = gpm::inquire_cred(&c);
    assert_eq!(info.usage, GSS_C_BOTH);
    assert_eq!(info.lifetime, 40);
    assert_eq!(info.mechs, vec![vec![GSSX_C_INITIATE as u8], vec![GSSX_C_ACCEPT as u8]]);
    c.elements = vec![element(GSSX_C_INITIATE, 0, 10)];
    let info = gpm::inquire_cred(&c);
    assert_eq!((info.usage, info.lifetime), (GSS_C_INITIATE, GSS_C_INDEFINITE));
    c.elements = vec![element(77, 1, 1)];
    assert_eq!(gpm::inquire_cred(&c).usage, -1);

    c.elements = vec![element(GSSX_C_BOTH, 3, 4)];
    let by = gpm::inquire_cred_by_mech(&c, &[GSSX_C_BOTH as u8]);
    assert_eq!((by.initiator_lifetime, by.acceptor_lifetime, by.usage), (3, 4, GSS_C_BOTH));
    c.elements = vec![element(GSSX_C_ACCEPT, 3, 4)];
    let by = gpm::inquire_cred_by_mech(&c, &[GSSX_C_ACCEPT as u8]);
    assert_eq!((by.initiator_lifetime, by.acceptor_lifetime, by.usage), (0, 4, GSS_C_ACCEPT));
    assert_eq!(gpm::inquire_cred_by_mech(&c, b"none").major, GSS_S_FAILURE);
}

#[test]
fn acquired_credential_lives_as_long_as_its_first_element() {
    let mut saved = None;
    let mut c = GssxCred { elements: vec![element(GSSX_C_BOTH, 30, 20)], ..Default::default() };
    let res = ResAcquireCred { output_cred_handle: Some(c.clone()), ..Default::default() };
    let r = gpm::acquire_cred(&mut saved, Ok(res));
    assert_eq!((r.major, r.time_rec), (0, 20));
    c.elements.clear();
    let res = ResAcquireCred { output_cred_handle: Some(c), ..Default::default() };
    assert_eq!(gpm::acquire_cred(&mut saved, Ok(res)).time_rec, 0);
    assert_eq!(gpm::cred_usage_to_gssx(GSS_C_INITIATE), GSSX_C_INITIATE);
    assert_eq!(gpm::cred_usage_to_gssx(GSS_C_ACCEPT), GSSX_C_ACCEPT);
    assert_eq!(gpm::cred_usage_to_gssx(9), 0);
}

#[test]
fn initiation_hands_out_what_its_status_allows() {
    let mut saved = None;
    let cred = GssxCred { cred_handle_reference: Opaque::new(vec![9]), ..Default::default() };
    let res = |major| ResInitSecContext {
        status: GssxStatus {
            major_status: major,
            mech: Opaque::new(vec![3]),
            ..Default::default()
        },
        context_handle: Some(GssxCtx::default()),
        output_token: Some(Opaque::new(b"out".to_vec())),
        options: vec![GssxOption {
            option: Opaque::new(b"sync_creds\0".to_vec()),
            value: Opaque::new(gpm::encode_cred(&cred)),
        }],
    };
    let r = gpm::init_sec_context(&mut saved, Ok(res(GSS_S_CONTINUE_NEEDED as u64)));
    assert_eq!(r.actual_mech, vec![3]);
    assert_eq!(r.context, Some(GssxCtx::default()));
    assert_eq!(r.output_token, Some(b"out".to_vec()));
    assert_eq!(r.out_cred, Some(cred.clone()));
    let r = gpm::init_sec_context(&mut saved, Ok(res(GSS_S_FAILURE as u64)));
    assert_eq!((r.context, r.output_token), (None, None));
    assert_eq!(r.out_cred, Some(cred.clone()));
    assert_eq!(gpm::decode_cred(&[1]), None);
}

#[test]
fn acceptance_hands_out_its_results() {
    let mut saved = None;
    let res = ResAcceptSecContext {
        context_handle: Some(GssxCtx {
            src_name: gpm::import_name(b"client", b""),
            mech: Opaque::new(vec![4]),
            ..Default::default()
        }),
        output_token: Some(Opaque::new(b"out".to_vec())),
        delegated_cred_handle: Some(GssxCred::default()),
        ..Default::default()
    };
    let r = gpm::accept_sec_context(&mut saved, Ok(res));
    assert_eq!(r.major, 0);
    assert_eq!(r.src_name, Some(gpm::import_name(b"client", b"")));
    assert_eq!(r.output_token, Some(b"out".to_vec()));
    assert_eq!(r.delegated_cred, Some(GssxCred::default()));
}

#[test]
fn only_what_needs_it_is_released() {
    let mut saved = None;
    assert!(gpm::release_cred_arg(&GssxCred::default()).is_none());
    assert!(gpm::delete_sec_context_arg(&GssxCtx::default()).is_none());
    assert_eq!(gpm::release_cred(&mut saved, None), (0, 0));
    let arg = gpm::release_cred_arg(&GssxCred { needs_release: true, ..Default::default() });
    assert!(matches!(arg.unwrap().cred_handle, GssxHandle::Cred(_)));
    let arg = gpm::delete_sec_context_arg(&GssxCtx { needs_release: true, ..Default::default() });
    assert!(matches!(arg.unwrap().cred_handle, GssxHandle::SecCtx(_)));
    let res = ResReleaseHandle { status: failed_status(5, 7) };
    assert_eq!(gpm::delete_sec_context(&mut saved, Some(Ok(res))), (5, 7));
    assert!(saved.is_some());
}

#[test]
fn first_option_of_a_key_counts() {
    let options = vec![
        gpm::option(b"a", b"1"),
        gpm::option(b"b", b"2"),
        gpm::option(b"b", b"3"),
    ];
    assert_eq!(gpm::find_option(&options, b"b").unwrap().as_slice(), b"2");
    assert!(gpm::find_option(&options, b"c").is_none());
}

// ---- requests to measure the codec with ----

#[test]
fn codec_requests_are_read_again() {
    let arg = codec::indicate_mechs_arg();
    let bytes = codec::encode_indicate_mechs(&arg);
    assert_eq!(bytes.len(), 52);
    assert!(codec::decode_indicate_mechs(&bytes));
    assert!(!codec::decode_indicate_mechs(&bytes[..51]));
    for n in [0usize, 256, 4096, 65536] {
        let arg = codec::init_sec_context_arg(n);
        assert_eq!(arg.input_token.as_ref().unwrap().as_slice(), vec![0u8; n]);
        assert_eq!(arg.mech_type.as_slice(), codec::KRB5_OID);
        let bytes = codec::encode_init_sec_context(&arg);
        assert_eq!(bytes.len(), 112 + n);
        assert!(bytes.len() <= codec::SCRATCH);
        assert!(codec::decode_init_sec_context(&bytes));
        assert!(!codec::decode_init_sec_context(&bytes[..bytes.len() - 1]));
    }
}
