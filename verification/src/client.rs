//! The client side of a conversation with the daemon: which xid a request
//! carries, when a connection is reused, dropped or retried, and what a reply
//! must be.
//!
//! The socket itself is not here. [`Transaction`] says what to do with it next,
//! and is told what came of it.

use vstd::prelude::*;

use crate::consts::{EIO, EMSGSIZE};
use crate::frame;
use crate::frame::FrameError;
use crate::proc::GssxProc;
use crate::rpc;
use crate::rpc::{Message, ReplyBody, MAX_RPC_SIZE};
use crate::xdr;
use crate::xdr::{Tree, Xdr, XdrDecoder, XdrError};

verus! {

/// Compiled-in default socket path.
pub const GP_SOCKET_NAME: &'static str = "/var/lib/gssproxy/default.sock";

/// Seconds to wait for a response.
pub const RESPONSE_TIMEOUT_SECS: u64 = 15;

/// Number of attempts when the socket fails in a way that is worth a retry.
pub const MAX_TIMEOUT_RETRY: usize = 3;

/// The kinds of socket failure that the client tells apart.
#[derive(Debug, Clone, Copy, PartialEq, Eq, Structural)]
pub enum IoKind {
    TimedOut,
    WouldBlock,
    BrokenPipe,
    ConnectionReset,
    ConnectionAborted,
    UnexpectedEof,
    Other,
}

/// A failed socket operation.
#[derive(Debug)]
pub struct IoFailure {
    pub kind: IoKind,
    /// The operating system's error number, where there is one.
    pub errno: Option<i32>,
    /// The error in words.
    pub text: String,
}

/// Error of a call to the daemon.
#[derive(Debug)]
pub enum GpmError {
    /// Underlying socket I/O failed (connect, read, write), including timeouts.
    Io(IoFailure),
    /// The RPC framing header was malformed (multi-fragment or oversized).
    Frame(FrameError),
    /// The reply could not be decoded as the expected result type.
    Decode(XdrError),
    /// The reply envelope was well-formed but not an accepted-success reply for
    /// our xid (wrong xid, denied, or non-success accept status).
    BadReply,
    /// The request body exceeded `MAX_RPC_SIZE`.
    TooLarge,
}

impl GpmError {
    /// The error number of [`GpmError::errno`].
    pub open spec fn number(&self) -> i32 {
        match self {
            GpmError::Io(e) => match e.errno {
                Some(n) => n,
                None => EIO,
            },
            GpmError::TooLarge => EMSGSIZE,
            _ => EIO,
        }
    }

    /// The `errno` for the failure: that of the socket operation where it has
    /// one, and `EIO` for a protocol error.
    pub fn errno(&self) -> (r: i32)
        ensures
            r == self.number(),
    {
        match self {
            GpmError::Io(e) => match e.errno {
                Some(n) => n,
                None => EIO,
            },
            GpmError::TooLarge => EMSGSIZE,
            _ => EIO,
        }
    }

    /// The text of [`GpmError::message`].
    pub open spec fn text(&self) -> Seq<char> {
        match self {
            GpmError::Io(e) => "gssproxy socket I/O error: "@ + e.text@,
            GpmError::Frame(e) => "gssproxy framing error: "@ + e.text(),
            GpmError::Decode(e) => "gssproxy reply decode error: "@ + e.text(),
            GpmError::BadReply => "gssproxy returned an unexpected RPC reply"@,
            GpmError::TooLarge => "gssproxy request exceeds MAX_RPC_SIZE"@,
        }
    }

    /// A description of the error.
    pub fn message(&self) -> (r: String)
        ensures
            r@ == self.text(),
    {
        match self {
            GpmError::Io(e) => {
                let mut s = "gssproxy socket I/O error: ".to_owned();
                s.push_str(e.text.as_str());
                s
            },
            GpmError::Frame(e) => {
                let mut s = "gssproxy framing error: ".to_owned();
                s.push_str(e.message().as_str());
                s
            },
            GpmError::Decode(e) => {
                let mut s = "gssproxy reply decode error: ".to_owned();
                s.push_str(e.message().as_str());
                s
            },
            GpmError::BadReply => "gssproxy returned an unexpected RPC reply".to_owned(),
            GpmError::TooLarge => "gssproxy request exceeds MAX_RPC_SIZE".to_owned(),
        }
    }
}

/// The kinds of failure after which another attempt is made on a new
/// connection: a timeout, a reset, or a closed pipe.
pub open spec fn retryable(kind: IoKind) -> bool {
    kind != IoKind::Other
}

/// Whether a socket error warrants a reconnect and another attempt.
pub fn is_retryable(e: &IoFailure) -> (r: bool)
    ensures
        r == retryable(e.kind),
{
    match e.kind {
        IoKind::TimedOut => true,
        IoKind::WouldBlock => true,
        IoKind::BrokenPipe => true,
        IoKind::ConnectionReset => true,
        IoKind::ConnectionAborted => true,
        IoKind::UnexpectedEof => true,
        IoKind::Other => false,
    }
}

/// The daemon socket path: the configured one, or the default.
pub fn socket_path(configured: Option<String>) -> (r: String)
    ensures
        r@ == match configured {
            Some(p) => p@,
            None => GP_SOCKET_NAME@,
        },
{
    match configured {
        Some(p) => p,
        None => GP_SOCKET_NAME.to_owned(),
    }
}

/// What came of asking the kernel for random bytes.
pub enum Drawn {
    /// So many bytes were written.
    Filled(usize),
    /// The call was interrupted before it wrote any.
    Interrupted,
    /// The call failed.
    Failed,
}

/// How far a 4-byte seed is filled after one draw, and `None` when no further
/// draw is made: the seed is full, or the kernel refused.
pub fn seed_progress(filled: usize, drawn: Drawn) -> (r: Option<usize>)
    requires
        filled < 4,
        drawn matches Drawn::Filled(n) ==> n <= 4 - filled,
    ensures
        r == match drawn {
            Drawn::Filled(n) => if filled + n < 4 {
                Some((filled + n) as usize)
            } else {
                None
            },
            Drawn::Interrupted => Some(filled),
            Drawn::Failed => None,
        },
{
    match drawn {
        Drawn::Filled(n) => if filled + n < 4 {
            Some(filled + n)
        } else {
            None
        },
        Drawn::Interrupted => Some(filled),
        Drawn::Failed => None,
    }
}

/// Who runs the process.
#[derive(Debug, Clone, Copy, PartialEq, Eq, Structural)]
pub struct Identity {
    pub pid: i32,
    pub uid: u32,
    pub gid: u32,
}

/// The connection state of a process.
pub struct ClientConn {
    /// A socket is open.
    pub connected: bool,
    /// Identity when the socket was opened.
    pub owner: Identity,
    pub next_xid: u32,
    pub seeded: bool,
}

impl ClientConn {
    /// No socket, and no xid drawn yet; the owner is all zeros.
    pub fn new() -> (r: Self)
        ensures
            !r.connected,
            r.owner == (Identity { pid: 0, uid: 0, gid: 0 }),
            !r.seeded,
            r.next_xid == 0,
    {
        ClientConn {
            connected: false,
            owner: Identity { pid: 0, uid: 0, gid: 0 },
            next_xid: 0,
            seeded: false,
        }
    }

    /// Start the xid counter at `seed`, once.
    pub fn ensure_seeded(&mut self, seed: u32)
        ensures
            final(self).seeded,
            final(self).next_xid == (if old(self).seeded {
                old(self).next_xid
            } else {
                seed
            }),
            final(self).connected == old(self).connected,
            final(self).owner == old(self).owner,
    {
        if self.seeded {
            return;
        }
        self.next_xid = seed;
        self.seeded = true;
    }

    /// Return the next xid; the counter wraps.
    pub fn next_xid(&mut self) -> (r: u32)
        ensures
            r == old(self).next_xid,
            final(self).next_xid == (if r == u32::MAX {
                0
            } else {
                (r + 1) as u32
            }),
            final(self).connected == old(self).connected,
            final(self).owner == old(self).owner,
            final(self).seeded == old(self).seeded,
    {
        let xid: u32 = self.next_xid;
        self.next_xid = if xid == u32::MAX {
            0
        } else {
            xid + 1
        };
        xid
    }

    /// Drop a connection whose owning identity changed, as after a fork or a
    /// change of user.
    pub fn refresh_identity(&mut self, now: Identity)
        ensures
            final(self).connected == (old(self).connected && now == old(self).owner),
            final(self).owner == old(self).owner,
            final(self).next_xid == old(self).next_xid,
            final(self).seeded == old(self).seeded,
    {
        if !self.connected {
            return;
        }
        if now.pid != self.owner.pid || now.uid != self.owner.uid || now.gid != self.owner.gid {
            self.disconnect();
        }
    }

    /// Record a socket that was opened under an identity.
    pub fn connect(&mut self, now: Identity)
        ensures
            final(self).connected,
            final(self).owner == now,
            final(self).next_xid == old(self).next_xid,
            final(self).seeded == old(self).seeded,
    {
        self.owner = now;
        self.connected = true;
    }

    /// Record that the socket was closed.
    pub fn disconnect(&mut self)
        ensures
            !final(self).connected,
            final(self).owner == old(self).owner,
            final(self).next_xid == old(self).next_xid,
            final(self).seeded == old(self).seeded,
    {
        self.connected = false;
    }
}

/// What to do next with the socket.
pub enum Action {
    /// Open a socket.
    Connect,
    /// Send the framed request and read a framed reply.
    Exchange,
    /// The transaction is over.
    Finish(Result<Vec<u8>, GpmError>),
}

/// What came of it.
pub enum Event {
    Connected(Identity),
    ConnectFailed(GpmError),
    Replied(Vec<u8>),
    Failed(GpmError),
}

/// One request and its response, with reconnection and retry.
pub struct Transaction {
    /// Exchanges that failed so far.
    pub failed: usize,
}

/// A failure worth another attempt.
pub open spec fn worth_retry(e: GpmError) -> bool {
    e matches GpmError::Io(f) && retryable(f.kind)
}

/// What is done after an exchange failed, where `failed` exchanges had failed
/// before.
pub open spec fn after_failure(failed: int, e: GpmError) -> Action {
    if worth_retry(e) && failed + 1 < MAX_TIMEOUT_RETRY {
        Action::Connect
    } else {
        Action::Finish(Err(e))
    }
}

impl Transaction {
    /// Begin a transaction: a body that is too large is refused before anything
    /// is sent, and a missing connection is opened first.
    pub fn begin(conn: &ClientConn, body: &[u8]) -> (r: (Transaction, Action))
        ensures
            r.0.failed == 0,
            if body@.len() > MAX_RPC_SIZE {
                r.1 == Action::Finish(Err(GpmError::TooLarge))
            } else if conn.connected {
                r.1 == Action::Exchange
            } else {
                r.1 == Action::Connect
            },
    {
        let t = Transaction { failed: 0 };
        if body.len() > MAX_RPC_SIZE {
            return (t, Action::Finish(Err(GpmError::TooLarge)));
        }
        if conn.connected {
            (t, Action::Exchange)
        } else {
            (t, Action::Connect)
        }
    }

    /// Take an event.
    ///
    /// A reply ends the transaction, and so do a failure to connect and a
    /// failure that is not worth a retry. Every failed exchange closes the
    /// socket; one worth a retry opens another, up to `MAX_TIMEOUT_RETRY`
    /// exchanges, after which the last failure is the result.
    pub fn step(&mut self, conn: &mut ClientConn, event: Event) -> (r: Action)
        requires
            old(self).failed < MAX_TIMEOUT_RETRY,
        ensures
            r !is Finish ==> final(self).failed < MAX_TIMEOUT_RETRY,
            final(conn).next_xid == old(conn).next_xid,
            final(conn).seeded == old(conn).seeded,
            match event {
                Event::Connected(now) => {
                    &&& r == Action::Exchange
                    &&& final(conn).connected && final(conn).owner == now
                    &&& final(self).failed == old(self).failed
                },
                Event::ConnectFailed(e) => {
                    &&& r == Action::Finish(Err(e))
                    &&& *final(conn) == *old(conn)
                    &&& final(self).failed == old(self).failed
                },
                Event::Replied(reply) => {
                    &&& r == Action::Finish(Ok(reply))
                    &&& *final(conn) == *old(conn)
                    &&& final(self).failed == old(self).failed
                },
                Event::Failed(e) => {
                    &&& !final(conn).connected
                    &&& final(conn).owner == old(conn).owner
                    &&& final(self).failed == old(self).failed + 1
                    &&& r == after_failure(old(self).failed as int, e)
                },
            },
    {
        match event {
            Event::Connected(now) => {
                conn.connect(now);
                Action::Exchange
            },
            Event::ConnectFailed(e) => Action::Finish(Err(e)),
            Event::Replied(reply) => Action::Finish(Ok(reply)),
            Event::Failed(e) => {
                conn.disconnect();
                self.failed = self.failed + 1;
                let again = match &e {
                    GpmError::Io(f) => is_retryable(f),
                    _ => false,
                };
                if again && self.failed < MAX_TIMEOUT_RETRY {
                    Action::Connect
                } else {
                    Action::Finish(Err(e))
                }
            },
        }
    }
}

/// What a transaction comes to when its exchanges, each on a socket that could be
/// opened, come to these results in turn; `None` where it wants one more.
pub open spec fn outcome(failed: int, exchanges: Seq<Result<Vec<u8>, GpmError>>) -> Option<
    Result<Vec<u8>, GpmError>,
>
    decreases exchanges.len(),
{
    if exchanges.len() == 0 {
        None
    } else {
        match exchanges[0] {
            Ok(reply) => Some(Ok(reply)),
            Err(e) => match after_failure(failed, e) {
                Action::Finish(r) => Some(r),
                _ => outcome(failed + 1, exchanges.skip(1)),
            },
        }
    }
}

/// A result that ends a transaction at once.
pub open spec fn settles(r: Result<Vec<u8>, GpmError>) -> bool {
    r matches Err(e) ==> !worth_retry(e)
}

/// Whatever the daemon does, a transaction comes to the first of its first
/// `MAX_TIMEOUT_RETRY` exchanges that settles it, and otherwise to the failure of
/// the last of them; what later exchanges would come to does not matter.
pub proof fn first_settled_exchange_counts(exchanges: Seq<Result<Vec<u8>, GpmError>>, k: int)
    requires
        0 <= k < MAX_TIMEOUT_RETRY,
        k < exchanges.len(),
        forall|i: int| 0 <= i < k ==> !settles(#[trigger] exchanges[i]),
        settles(exchanges[k]) || k == MAX_TIMEOUT_RETRY - 1,
    ensures
        outcome(0, exchanges) == Some(exchanges[k]),
{
    lemma_settled_from(exchanges, 0, k);
    assert(exchanges.skip(0) =~= exchanges);
}

proof fn lemma_settled_from(exchanges: Seq<Result<Vec<u8>, GpmError>>, at: int, k: int)
    requires
        0 <= at <= k < MAX_TIMEOUT_RETRY,
        k < exchanges.len(),
        forall|i: int| 0 <= i < k ==> !settles(#[trigger] exchanges[i]),
        settles(exchanges[k]) || k == MAX_TIMEOUT_RETRY - 1,
    ensures
        outcome(at, exchanges.skip(at)) == Some(exchanges[k]),
    decreases k - at,
{
    assert(exchanges.skip(at)[0] == exchanges[at]);
    if at < k {
        assert(!settles(exchanges[at]));
        assert(exchanges.skip(at).skip(1) =~= exchanges.skip(at + 1));
        lemma_settled_from(exchanges, at + 1, k);
    }
}

/// The length of the reply body that a reply header announces.
pub fn reply_length(header: [u8; 4]) -> (r: Result<usize, GpmError>)
    ensures
        match frame::announced(xdr::word_at(header@, 0)) {
            Ok(n) => r == Ok::<usize, GpmError>(n),
            Err(e) => r == Err::<usize, GpmError>(GpmError::Frame(e)),
        },
{
    let mut d = XdrDecoder::new(header.as_slice());
    let word: u32 = match d.get_u32() {
        Ok(w) => w,
        Err(e) => {
            assert(header@.len() == 4);
            return Err(GpmError::Decode(e));
        },
    };
    match frame::parse_header(word) {
        Ok(n) => Ok(n),
        Err(e) => Err(GpmError::Frame(e)),
    }
}

/// Draw an xid and encode a request under it. A connection that another
/// identity opened is dropped first.
pub fn begin_call<A: Xdr>(
    conn: &mut ClientConn,
    seed: u32,
    now: Identity,
    procedure: GssxProc,
    arg: &A,
) -> (r: (u32, Vec<u8>))
    ensures
        r.0 == (if old(conn).seeded {
            old(conn).next_xid
        } else {
            seed
        }),
        r.1@ == xdr::bytes(rpc::call_tree(r.0, procedure.number())) + xdr::bytes(arg.tree()),
        final(conn).seeded,
        final(conn).next_xid == (if r.0 == u32::MAX {
            0
        } else {
            (r.0 + 1) as u32
        }),
        final(conn).connected == (old(conn).connected && now == old(conn).owner),
        final(conn).owner == old(conn).owner,
{
    conn.ensure_seeded(seed);
    conn.refresh_identity(now);
    let xid: u32 = conn.next_xid();
    let body = rpc::encode_request(xid, procedure.to_u32(), arg);
    (xid, body)
}

/// An accepted-success reply to the request with an xid.
pub open spec fn is_success_for(t: Tree, xid: u32) -> bool {
    exists|verf: Tree|
        t == #[trigger] xdr::both(
            Tree::Word(xid),
            Tree::Case(1, Box::new(Tree::Case(0, Box::new(xdr::both(verf, Tree::Word(0)))))),
        )
}

/// Whether a message is an accepted-success reply to the request with an xid.
fn answers(msg: &Message, xid: u32) -> (r: bool)
    requires
        msg.canonical(),
    ensures
        r == is_success_for(msg.tree(), xid),
{
    reveal(Message::tree);
    reveal(ReplyBody::tree);
    if msg.xid != xid || msg.is_call {
        return false;
    }
    match &msg.reply {
        Some(ReplyBody::AcceptedSuccess { verf }) => {
            assert(msg.tree() == xdr::both(
                Tree::Word(xid),
                Tree::Case(
                    1,
                    Box::new(Tree::Case(0, Box::new(xdr::both(verf.tree(), Tree::Word(0))))),
                ),
            ));
            true
        },
        Some(ReplyBody::AcceptedOther { verf, status }) => {
            proof {
                xdr::lemma_unsigned_word(*status);
            }
            false
        },
        _ => false,
    }
}

/// What a call comes to, from what the transaction under `xid` came to: the
/// decoded result of an accepted-success reply for that xid. Bytes after the
/// result are ignored.
pub fn make_call<R: Xdr>(xid: u32, exchanged: Result<Vec<u8>, GpmError>) -> (r: Result<R, GpmError>)
    ensures
        match exchanged {
            Err(e) => r == Err::<R, GpmError>(e),
            Ok(reply) => {
                let q = xdr::parse(Message::shape(), reply@, 0);
                match q.val {
                    Err(e) => r == Err::<R, GpmError>(GpmError::Decode(e)),
                    Ok(t) => if !is_success_for(t, xid) {
                        r == Err::<R, GpmError>(GpmError::BadReply)
                    } else {
                        match xdr::parse(R::shape(), reply@, q.next).val {
                            Err(e) => r == Err::<R, GpmError>(GpmError::Decode(e)),
                            Ok(v) => r matches Ok(res) && res.tree() == v,
                        }
                    },
                }
            },
        },
{
    let reply = match exchanged {
        Err(e) => {
            return Err(e);
        },
        Ok(b) => b,
    };
    let mut d = XdrDecoder::new(reply.as_slice());
    let msg = match Message::decode(&mut d) {
        Err(e) => {
            return Err(GpmError::Decode(e));
        },
        Ok(m) => m,
    };
    if !answers(&msg, xid) {
        return Err(GpmError::BadReply);
    }
    match R::decode(&mut d) {
        Err(e) => Err(GpmError::Decode(e)),
        Ok(v) => Ok(v),
    }
}

/// The reply that the daemon encodes for an xid is what the client accepts for
/// it, and the client reads the result that the daemon wrote.
pub proof fn success_reply_is_accepted<R: Xdr>(xid: u32, res: R, rest: Seq<u8>)
    requires
        res.canonical(),
        xdr::sized(res.tree()),
    ensures
        ({
            let b = xdr::bytes(rpc::success_tree(xid)) + xdr::bytes(res.tree()) + rest;
            let q = xdr::parse(Message::shape(), b, 0);
            &&& q.val matches Ok(t) && is_success_for(t, xid)
            &&& xdr::parse(R::shape(), b, q.next).val == Ok::<Tree, XdrError>(res.tree())
        }),
{
    rpc::success_reads_back(xid, res, rest);
    assert(rpc::success_tree(xid) == xdr::both(
        Tree::Word(xid),
        Tree::Case(
            1,
            Box::new(Tree::Case(0, Box::new(xdr::both(rpc::no_auth_tree(), Tree::Word(0))))),
        ),
    ));
}

/// A reply under one xid does not answer a request under another.
pub proof fn other_xid_is_refused(t: Tree, xid: u32, other: u32)
    requires
        is_success_for(t, xid),
        xid != other,
    ensures
        !is_success_for(t, other),
{
}

} // verus!
