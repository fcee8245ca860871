//! SunRPC message envelope used by gssproxy (a private ONC RPC program).
//!
//! The program is number `GSSPROXY`, version `GSSPROXYVERS`; its procedures are
//! in [`crate::proc`].

use vstd::prelude::*;

use crate::xdr;
use crate::xdr::{Parsed, Shape, Tree, Xdr, XdrDecoder, XdrEncoder, XdrError, XdrResult};
use crate::xdr_laws;

verus! {

/// RPC program number for gssproxy.
pub const GSSPROXY: u32 = 400112;

/// RPC program version.
pub const GSSPROXYVERS: u32 = 1;

/// RPC protocol version carried in the call header.
pub const RPC_VERS: u32 = 2;

/// Maximum size of a single RPC message body.
pub const MAX_RPC_SIZE: usize = 1024 * 1024;

/// Last-fragment marker in the record-marking length word.
pub const FRAGMENT_BIT: u32 = 0x8000_0000;

/// Authentication flavors.
#[derive(Debug, Clone, Copy, PartialEq, Eq)]
pub enum AuthFlavor {
    Null,
    Sys,
    Short,
    Dh,
    RpcSecGss,
}

impl AuthFlavor {
    /// The number of a flavor.
    pub open spec fn number(self) -> i32 {
        match self {
            AuthFlavor::Null => 0,
            AuthFlavor::Sys => 1,
            AuthFlavor::Short => 2,
            AuthFlavor::Dh => 3,
            AuthFlavor::RpcSecGss => 6,
        }
    }

    /// The number of a flavor.
    pub fn to_i32(self) -> (r: i32)
        ensures
            r == self.number(),
    {
        match self {
            AuthFlavor::Null => 0,
            AuthFlavor::Sys => 1,
            AuthFlavor::Short => 2,
            AuthFlavor::Dh => 3,
            AuthFlavor::RpcSecGss => 6,
        }
    }

    /// The flavor with a number.
    pub fn from_i32(v: i32) -> (r: XdrResult<Self>)
        ensures
            match r {
                Ok(f) => f.number() == v,
                Err(e) => !is_flavor(v) && e == XdrError::InvalidValue("auth_flavor"),
            },
    {
        match v {
            0 => Ok(AuthFlavor::Null),
            1 => Ok(AuthFlavor::Sys),
            2 => Ok(AuthFlavor::Short),
            3 => Ok(AuthFlavor::Dh),
            6 => Ok(AuthFlavor::RpcSecGss),
            _ => Err(XdrError::InvalidValue("auth_flavor")),
        }
    }
}

/// The numbers that are flavors.
pub open spec fn is_flavor(v: i32) -> bool {
    v == 0 || v == 1 || v == 2 || v == 3 || v == 6
}

/// The longest authentication body.
pub const MAX_AUTH_BODY: usize = 400;

/// A flavor and up to `MAX_AUTH_BODY` bytes of body.
#[derive(Debug, PartialEq, Eq)]
pub struct OpaqueAuth {
    pub flavor: i32,
    pub body: Vec<u8>,
}

impl OpaqueAuth {
    pub fn none() -> (r: Self)
        ensures
            r.flavor == AuthFlavor::Null.number(),
            r.body@.len() == 0,
    {
        OpaqueAuth { flavor: AuthFlavor::Null.to_i32(), body: Vec::new() }
    }
}

impl Default for OpaqueAuth {
    fn default() -> (r: Self)
        ensures
            r.flavor == 0,
            r.body@.len() == 0,
    {
        OpaqueAuth { flavor: 0, body: Vec::new() }
    }
}

impl Clone for OpaqueAuth {
    fn clone(&self) -> (r: Self)
        ensures
            r.flavor == self.flavor,
            r.body@ == self.body@,
    {
        OpaqueAuth { flavor: self.flavor, body: vstd::slice::slice_to_vec(self.body.as_slice()) }
    }
}

impl Xdr for OpaqueAuth {
    #[verifier::opaque]
    open spec fn shape() -> Shape {
        xdr::pair(
            Shape::Enum(seq![0, 1, 2, 3, 6], "auth_flavor"),
            Shape::Bounded(MAX_AUTH_BODY as nat),
        )
    }

    #[verifier::opaque]
    open spec fn tree(&self) -> Tree {
        xdr::both(Tree::Word(self.flavor as u32), Tree::Opaque(self.body@))
    }

    /// The flavor is a known one and the body is short enough.
    open spec fn canonical(&self) -> bool {
        is_flavor(self.flavor) && self.body@.len() <= MAX_AUTH_BODY
    }

    proof fn lemma_fits(&self) {
        broadcast use crate::xdr::group_records;

        reveal(<OpaqueAuth as Xdr>::shape);
        reveal(<OpaqueAuth as Xdr>::tree);
        reveal(xdr::fits);
        xdr::lemma_unsigned_word(self.flavor);
        let allowed = seq![0u32, 1, 2, 3, 6];
        assert(allowed[0] == 0 && allowed[1] == 1 && allowed[2] == 2 && allowed[3] == 3
            && allowed[4] == 6);
        assert(allowed.contains(self.flavor as u32));
    }

    fn encode(&self, e: &mut XdrEncoder) {
        broadcast use crate::xdr::group_records;

        reveal(<OpaqueAuth as Xdr>::tree);
        reveal(xdr::bytes);
        e.put_enum(self.flavor);
        e.put_opaque(self.body.as_slice());
    }

    fn decode(d: &mut XdrDecoder) -> (r: XdrResult<Self>)
        ensures
            r matches Ok(v) ==> v.canonical(),
    {
        broadcast use crate::xdr::group_records;

        reveal(<OpaqueAuth as Xdr>::shape);
        reveal(<OpaqueAuth as Xdr>::tree);
        reveal(xdr::parse);
        let flavor: i32 = d.get_enum()?;
        proof {
            let w = xdr::word_at(old(d).data(), old(d).at());
            xdr::lemma_signed_word(w);
            let allowed = seq![0u32, 1, 2, 3, 6];
            assert(allowed[0] == 0 && allowed[1] == 1 && allowed[2] == 2 && allowed[3] == 3
                && allowed[4] == 6);
            assert(allowed.contains(w) <==> is_flavor(w as i32));
        }
        match AuthFlavor::from_i32(flavor) {
            Err(x) => {
                return Err(x);
            },
            Ok(_) => {},
        }
        let body = d.get_opaque()?;
        if body.len() > MAX_AUTH_BODY {
            return Err(XdrError::TooLong);
        }
        Ok(OpaqueAuth { flavor, body })
    }
}

/// The header of a call.
#[derive(Debug, PartialEq, Eq)]
pub struct CallHeader {
    pub rpcvers: u32,
    pub prog: u32,
    pub vers: u32,
    pub proc_num: u32,
    pub cred: OpaqueAuth,
    pub verf: OpaqueAuth,
}

impl CallHeader {
    /// Build a client call header for a given procedure.
    pub fn new(proc_num: u32) -> (r: Self)
        ensures
            r.rpcvers == RPC_VERS,
            r.prog == GSSPROXY,
            r.vers == GSSPROXYVERS,
            r.proc_num == proc_num,
            r.cred.flavor == 0 && r.cred.body@.len() == 0,
            r.verf.flavor == 0 && r.verf.body@.len() == 0,
    {
        CallHeader {
            rpcvers: RPC_VERS,
            prog: GSSPROXY,
            vers: GSSPROXYVERS,
            proc_num,
            cred: OpaqueAuth::none(),
            verf: OpaqueAuth::none(),
        }
    }
}

impl Clone for CallHeader {
    fn clone(&self) -> (r: Self)
        ensures
            r.tree() == self.tree(),
    {
        reveal(<CallHeader as Xdr>::tree);
        reveal(<OpaqueAuth as Xdr>::tree);
        CallHeader {
            rpcvers: self.rpcvers,
            prog: self.prog,
            vers: self.vers,
            proc_num: self.proc_num,
            cred: self.cred.clone(),
            verf: self.verf.clone(),
        }
    }
}

impl Xdr for CallHeader {
    #[verifier::opaque]
    open spec fn shape() -> Shape {
        xdr::pair(
            u32::shape(),
            xdr::pair(
                u32::shape(),
                xdr::pair(
                    u32::shape(),
                    xdr::pair(u32::shape(), xdr::pair(OpaqueAuth::shape(), OpaqueAuth::shape())),
                ),
            ),
        )
    }

    #[verifier::opaque]
    open spec fn tree(&self) -> Tree {
        xdr::both(
            self.rpcvers.tree(),
            xdr::both(
                self.prog.tree(),
                xdr::both(
                    self.vers.tree(),
                    xdr::both(
                        self.proc_num.tree(),
                        xdr::both(self.cred.tree(), self.verf.tree()),
                    ),
                ),
            ),
        )
    }

    open spec fn canonical(&self) -> bool {
        self.cred.canonical() && self.verf.canonical()
    }

    proof fn lemma_fits(&self) {
        broadcast use crate::xdr::group_records;

        reveal(<CallHeader as Xdr>::shape);
        reveal(<CallHeader as Xdr>::tree);
        self.rpcvers.lemma_fits();
        self.prog.lemma_fits();
        self.vers.lemma_fits();
        self.proc_num.lemma_fits();
        self.cred.lemma_fits();
        self.verf.lemma_fits();
    }

    fn encode(&self, e: &mut XdrEncoder) {
        broadcast use crate::xdr::group_records;

        reveal(<CallHeader as Xdr>::tree);
        self.rpcvers.encode(e);
        self.prog.encode(e);
        self.vers.encode(e);
        self.proc_num.encode(e);
        self.cred.encode(e);
        self.verf.encode(e);
    }

    fn decode(d: &mut XdrDecoder) -> (r: XdrResult<Self>)
        ensures
            r matches Ok(v) ==> v.canonical(),
    {
        broadcast use crate::xdr::group_records;

        reveal(<CallHeader as Xdr>::shape);
        reveal(<CallHeader as Xdr>::tree);
        let rpcvers: u32 = u32::decode(d)?;
        let prog: u32 = u32::decode(d)?;
        let vers: u32 = u32::decode(d)?;
        let proc_num: u32 = u32::decode(d)?;
        let cred = OpaqueAuth::decode(d)?;
        let verf = OpaqueAuth::decode(d)?;
        Ok(CallHeader { rpcvers, prog, vers, proc_num, cred, verf })
    }
}

/// How an accepted call fared.
#[derive(Debug, Clone, Copy, PartialEq, Eq)]
pub enum AcceptStatus {
    Success,
    ProgUnavail,
    ProgMismatch,
    ProcUnavail,
    GarbageArgs,
    SystemErr,
}

impl AcceptStatus {
    /// The number of a status.
    pub open spec fn number(self) -> i32 {
        match self {
            AcceptStatus::Success => 0,
            AcceptStatus::ProgUnavail => 1,
            AcceptStatus::ProgMismatch => 2,
            AcceptStatus::ProcUnavail => 3,
            AcceptStatus::GarbageArgs => 4,
            AcceptStatus::SystemErr => 5,
        }
    }

    /// The number of a status.
    pub fn to_i32(self) -> (r: i32)
        ensures
            r == self.number(),
    {
        match self {
            AcceptStatus::Success => 0,
            AcceptStatus::ProgUnavail => 1,
            AcceptStatus::ProgMismatch => 2,
            AcceptStatus::ProcUnavail => 3,
            AcceptStatus::GarbageArgs => 4,
            AcceptStatus::SystemErr => 5,
        }
    }
}

/// The program versions that are served.
#[derive(Debug, Clone, Copy, PartialEq, Eq)]
pub struct MismatchInfo {
    pub low: u32,
    pub high: u32,
}

/// The body of a reply.
#[derive(Debug, PartialEq, Eq)]
pub enum ReplyBody {
    /// Accepted and successful: verifier, then the procedure result follows.
    AcceptedSuccess { verf: OpaqueAuth },
    /// Accepted, but the program has other versions.
    ProgMismatch { verf: OpaqueAuth, info: MismatchInfo },
    /// Accepted with another accept status (no body).
    AcceptedOther { verf: OpaqueAuth, status: i32 },
    /// Denied with the raw reject discriminant and value.
    Denied { reject_status: i32, value: i32 },
}

const MSG_CALL: i32 = 0;

const MSG_REPLY: i32 = 1;

const REPLY_ACCEPTED: i32 = 0;

const REPLY_DENIED: i32 = 1;

const ACCEPT_SUCCESS: i32 = 0;

const ACCEPT_PROG_MISMATCH: i32 = 2;

impl ReplyBody {
    /// The XDR type of a reply.
    #[verifier::opaque]
    pub open spec fn shape() -> Shape {
        Shape::Switch(
            seq![
                xdr::pair(
                    OpaqueAuth::shape(),
                    Shape::Tail(2, Box::new(xdr::pair(Shape::Word, Shape::Word))),
                ),
                xdr::pair(Shape::Word, Shape::Word),
            ],
            Box::new(Shape::Reject("reply_status")),
        )
    }

    /// The XDR value of a reply.
    #[verifier::opaque]
    pub open spec fn tree(&self) -> Tree {
        match self {
            ReplyBody::AcceptedSuccess { verf } => Tree::Case(
                0,
                Box::new(xdr::both(verf.tree(), Tree::Word(0))),
            ),
            ReplyBody::ProgMismatch { verf, info } => Tree::Case(
                0,
                Box::new(
                    xdr::both(
                        verf.tree(),
                        Tree::Case(
                            2,
                            Box::new(xdr::both(Tree::Word(info.low), Tree::Word(info.high))),
                        ),
                    ),
                ),
            ),
            ReplyBody::AcceptedOther { verf, status } => Tree::Case(
                0,
                Box::new(xdr::both(verf.tree(), Tree::Word(*status as u32))),
            ),
            ReplyBody::Denied { reject_status, value } => Tree::Case(
                1,
                Box::new(
                    xdr::both(Tree::Word(*reject_status as u32), Tree::Word(*value as u32)),
                ),
            ),
        }
    }

    /// The verifier is valid, and another accept status is neither success nor a
    /// version mismatch.
    pub open spec fn canonical(&self) -> bool {
        match self {
            ReplyBody::AcceptedSuccess { verf } => verf.canonical(),
            ReplyBody::ProgMismatch { verf, info } => verf.canonical(),
            ReplyBody::AcceptedOther { verf, status } => verf.canonical() && *status != 0
                && *status != 2,
            ReplyBody::Denied { .. } => true,
        }
    }

    proof fn lemma_fits(&self)
        requires
            self.canonical(),
        ensures
            xdr::fits(ReplyBody::shape(), self.tree()),
            xdr::sized(self.tree()),
    {
        broadcast use {crate::xdr::group_records, crate::xdr::group_unions};

        reveal(ReplyBody::shape);
        reveal(ReplyBody::tree);
        match self {
            ReplyBody::AcceptedSuccess { verf } => {
                verf.lemma_fits();
                lemma_auth_sized(*verf);
            },
            ReplyBody::ProgMismatch { verf, info } => {
                verf.lemma_fits();
                lemma_auth_sized(*verf);
                assert(xdr::fits(
                    xdr::pair(Shape::Word, Shape::Word),
                    xdr::both(Tree::Word(info.low), Tree::Word(info.high)),
                ));
            },
            ReplyBody::AcceptedOther { verf, status } => {
                xdr::lemma_unsigned_word(*status);
                verf.lemma_fits();
                lemma_auth_sized(*verf);
            },
            ReplyBody::Denied { reject_status, value } => {},
        }
    }

    fn encode(&self, e: &mut XdrEncoder)
        ensures
            final(e)@ == old(e)@ + xdr::bytes(self.tree()),
    {
        broadcast use {crate::xdr::group_records, crate::xdr::group_unions};

        reveal(ReplyBody::tree);
        match self {
            ReplyBody::AcceptedSuccess { verf } => {
                e.put_enum(REPLY_ACCEPTED);
                verf.encode(e);
                e.put_enum(ACCEPT_SUCCESS);
            },
            ReplyBody::ProgMismatch { verf, info } => {
                e.put_enum(REPLY_ACCEPTED);
                verf.encode(e);
                e.put_enum(ACCEPT_PROG_MISMATCH);
                e.put_u32(info.low);
                e.put_u32(info.high);
            },
            ReplyBody::AcceptedOther { verf, status } => {
                e.put_enum(REPLY_ACCEPTED);
                verf.encode(e);
                e.put_enum(*status);
            },
            ReplyBody::Denied { reject_status, value } => {
                e.put_enum(REPLY_DENIED);
                e.put_enum(*reject_status);
                e.put_enum(*value);
            },
        }
        assert(e@ =~= old(e)@ + xdr::bytes(self.tree()));
    }

    fn decode(d: &mut XdrDecoder) -> (r: XdrResult<Self>)
        ensures
            final(d).data() == old(d).data(),
            ({
                let q = xdr::parse(ReplyBody::shape(), old(d).data(), old(d).at());
                &&& final(d).at() == q.next
                &&& match r {
                    Ok(v) => q.val == Ok::<Tree, XdrError>(v.tree()) && v.canonical(),
                    Err(x) => q.val == Err::<Tree, XdrError>(x),
                }
            }),
    {
        broadcast use {crate::xdr::group_records, crate::xdr::group_unions};

        reveal(ReplyBody::shape);
        reveal(ReplyBody::tree);
        let status: i32 = d.get_enum()?;
        proof {
            xdr::lemma_signed_word(xdr::word_at(old(d).data(), old(d).at()));
        }
        if status == REPLY_ACCEPTED {
            let verf = OpaqueAuth::decode(d)?;
            let ghost p = d.at();
            let accept: i32 = d.get_enum()?;
            proof {
                xdr::lemma_signed_word(xdr::word_at(d.data(), p));
            }
            if accept == ACCEPT_SUCCESS {
                Ok(ReplyBody::AcceptedSuccess { verf })
            } else if accept == ACCEPT_PROG_MISMATCH {
                let low: u32 = d.get_u32()?;
                let high: u32 = d.get_u32()?;
                Ok(ReplyBody::ProgMismatch { verf, info: MismatchInfo { low, high } })
            } else {
                Ok(ReplyBody::AcceptedOther { verf, status: accept })
            }
        } else if status == REPLY_DENIED {
            let ghost p = d.at();
            let reject_status: i32 = d.get_enum()?;
            let value: i32 = d.get_enum()?;
            proof {
                xdr::lemma_signed_word(xdr::word_at(d.data(), p));
                xdr::lemma_signed_word(xdr::word_at(d.data(), p + 4));
            }
            Ok(ReplyBody::Denied { reject_status, value })
        } else {
            Err(XdrError::InvalidValue("reply_status"))
        }
    }
}

proof fn lemma_auth_sized(auth: OpaqueAuth)
    requires
        auth.canonical(),
    ensures
        xdr::sized(auth.tree()),
{
    broadcast use crate::xdr::group_unions;

    reveal(<OpaqueAuth as Xdr>::tree);
}

/// A call or a reply.
#[derive(Debug, PartialEq, Eq)]
pub struct Message {
    pub xid: u32,
    /// True for a call, false for a reply.
    pub is_call: bool,
    pub call: Option<CallHeader>,
    pub reply: Option<ReplyBody>,
}

impl Message {
    /// A call has a header, and a reply has a body.
    pub open spec fn complete(&self) -> bool {
        if self.is_call {
            self.call is Some
        } else {
            self.reply is Some
        }
    }

    /// The message is complete, has nothing more, and its parts are valid.
    pub open spec fn canonical(&self) -> bool {
        if self.is_call {
            self.call is Some && self.reply is None && self.call->0.canonical()
        } else {
            self.call is None && self.reply is Some && self.reply->0.canonical()
        }
    }

    /// The XDR type of the envelope.
    #[verifier::opaque]
    pub open spec fn shape() -> Shape {
        xdr::pair(
            Shape::Word,
            Shape::Switch(
                seq![CallHeader::shape(), ReplyBody::shape()],
                Box::new(Shape::Reject("msg_type")),
            ),
        )
    }

    /// The XDR value of a complete envelope.
    #[verifier::opaque]
    pub open spec fn tree(&self) -> Tree {
        xdr::both(
            Tree::Word(self.xid),
            if self.is_call {
                Tree::Case(0, Box::new(self.call->0.tree()))
            } else {
                Tree::Case(1, Box::new(self.reply->0.tree()))
            },
        )
    }

    /// Construct a call for the given xid and procedure.
    pub fn call(xid: u32, proc_num: u32) -> (r: Self)
        ensures
            r.canonical(),
            r.tree() == call_tree(xid, proc_num),
            r.xid == xid,
            r.is_call,
            r.call->0.proc_num == proc_num,
            r.call->0.rpcvers == RPC_VERS,
            r.call->0.prog == GSSPROXY,
            r.call->0.vers == GSSPROXYVERS,
    {
        reveal(Message::tree);
        reveal(<CallHeader as Xdr>::tree);
        reveal(<OpaqueAuth as Xdr>::tree);
        let header = CallHeader::new(proc_num);
        assert(header.cred.body@ =~= Seq::<u8>::empty());
        assert(header.verf.body@ =~= Seq::<u8>::empty());
        Message { xid, is_call: true, call: Some(header), reply: None }
    }

    /// Construct a successful accepted reply.
    pub fn reply_success(xid: u32) -> (r: Self)
        ensures
            r.canonical(),
            r.tree() == success_tree(xid),
            r.xid == xid,
            !r.is_call,
            r.reply->0 is AcceptedSuccess,
    {
        reveal(Message::tree);
        reveal(ReplyBody::tree);
        reveal(<OpaqueAuth as Xdr>::tree);
        let verf = OpaqueAuth::none();
        assert(verf.body@ =~= Seq::<u8>::empty());
        Message {
            xid,
            is_call: false,
            call: None,
            reply: Some(ReplyBody::AcceptedSuccess { verf }),
        }
    }

    pub proof fn lemma_fits(&self)
        requires
            self.canonical(),
        ensures
            xdr::fits(Message::shape(), self.tree()),
            xdr::sized(self.tree()),
    {
        broadcast use {crate::xdr::group_records, crate::xdr::group_unions};

        reveal(Message::shape);
        reveal(Message::tree);
        if self.is_call {
            let c = self.call->0;
            c.lemma_fits();
            reveal(<CallHeader as Xdr>::tree);
            lemma_auth_sized(c.cred);
            lemma_auth_sized(c.verf);
        } else {
            self.reply->0.lemma_fits();
        }
    }

    /// Encode just the RPC envelope; the procedure arguments or results are
    /// appended by the caller to the same encoder.
    pub fn encode(&self, e: &mut XdrEncoder)
        requires
            self.complete(),
        ensures
            final(e)@ == old(e)@ + xdr::bytes(self.tree()),
    {
        broadcast use {crate::xdr::group_records, crate::xdr::group_unions};

        reveal(Message::tree);
        e.put_u32(self.xid);
        if self.is_call {
            e.put_enum(MSG_CALL);
            self.call.as_ref().unwrap().encode(e);
        } else {
            e.put_enum(MSG_REPLY);
            self.reply.as_ref().unwrap().encode(e);
        }
        assert(e@ =~= old(e)@ + xdr::bytes(self.tree()));
    }

    /// Decode the RPC envelope. The decoder is left positioned at the start of
    /// the procedure arguments or results.
    pub fn decode(d: &mut XdrDecoder) -> (r: XdrResult<Self>)
        ensures
            final(d).data() == old(d).data(),
            ({
                let q = xdr::parse(Message::shape(), old(d).data(), old(d).at());
                &&& final(d).at() == q.next
                &&& match r {
                    Ok(v) => q.val == Ok::<Tree, XdrError>(v.tree()) && v.canonical(),
                    Err(x) => q.val == Err::<Tree, XdrError>(x),
                }
            }),
    {
        broadcast use {crate::xdr::group_records, crate::xdr::group_unions};

        reveal(Message::shape);
        reveal(Message::tree);
        let xid: u32 = d.get_u32()?;
        let ghost p = d.at();
        let kind: i32 = d.get_enum()?;
        proof {
            xdr::lemma_signed_word(xdr::word_at(d.data(), p));
        }
        if kind == MSG_CALL {
            let header = CallHeader::decode(d)?;
            Ok(Message { xid, is_call: true, call: Some(header), reply: None })
        } else if kind == MSG_REPLY {
            let body = ReplyBody::decode(d)?;
            Ok(Message { xid, is_call: false, call: None, reply: Some(body) })
        } else {
            Err(XdrError::InvalidValue("msg_type"))
        }
    }
}

/// An empty authentication.
pub open spec fn no_auth_tree() -> Tree {
    xdr::both(Tree::Word(0), Tree::Opaque(Seq::empty()))
}

/// The envelope of a client call: RPC version 2, program 400112, version 1.
pub open spec fn call_tree(xid: u32, proc_num: u32) -> Tree {
    xdr::both(
        Tree::Word(xid),
        Tree::Case(
            0,
            Box::new(
                xdr::both(
                    Tree::Word(RPC_VERS),
                    xdr::both(
                        Tree::Word(GSSPROXY),
                        xdr::both(
                            Tree::Word(GSSPROXYVERS),
                            xdr::both(
                                Tree::Word(proc_num),
                                xdr::both(no_auth_tree(), no_auth_tree()),
                            ),
                        ),
                    ),
                ),
            ),
        ),
    )
}

/// The envelope of a successful reply.
pub open spec fn success_tree(xid: u32) -> Tree {
    xdr::both(
        Tree::Word(xid),
        Tree::Case(
            1,
            Box::new(Tree::Case(0, Box::new(xdr::both(no_auth_tree(), Tree::Word(0))))),
        ),
    )
}

/// Encode a complete client request body (call header and procedure
/// arguments), ready to be framed.
pub fn encode_request<A: Xdr>(xid: u32, proc_num: u32, arg: &A) -> (r: Vec<u8>)
    ensures
        r@ == xdr::bytes(call_tree(xid, proc_num)) + xdr::bytes(arg.tree()),
{
    let mut e = XdrEncoder::new();
    Message::call(xid, proc_num).encode(&mut e);
    arg.encode(&mut e);
    assert(e@ =~= xdr::bytes(call_tree(xid, proc_num)) + xdr::bytes(arg.tree()));
    e.into_bytes()
}

/// Encode a complete successful reply body (reply header and procedure
/// result), ready to be framed.
pub fn encode_reply<R: Xdr>(xid: u32, res: &R) -> (r: Vec<u8>)
    ensures
        r@ == xdr::bytes(success_tree(xid)) + xdr::bytes(res.tree()),
{
    let mut e = XdrEncoder::new();
    Message::reply_success(xid).encode(&mut e);
    res.encode(&mut e);
    assert(e@ =~= xdr::bytes(success_tree(xid)) + xdr::bytes(res.tree()));
    e.into_bytes()
}

/// An envelope reads back as the message that was written, and what follows it
/// is left to be read.
pub proof fn envelope_reads_back(m: Message, rest: Seq<u8>)
    requires
        m.canonical(),
    ensures
        xdr::parse(Message::shape(), xdr::bytes(m.tree()) + rest, 0) == (Parsed {
            val: Ok(m.tree()),
            next: xdr::bytes(m.tree()).len() as int,
        }),
{
    m.lemma_fits();
    xdr_laws::tree_reads_back(Message::shape(), m.tree(), rest);
}

/// An accepted envelope, encoded again, is as long as what was consumed and
/// reads as the same message.
pub proof fn envelope_reencoding_is_stable(b: Seq<u8>, p: int)
    requires
        0 <= p <= b.len(),
        xdr::parse(Message::shape(), b, p).val is Ok,
    ensures
        ({
            let q = xdr::parse(Message::shape(), b, p);
            let again = xdr::bytes(q.val->Ok_0);
            &&& q.next - p == again.len()
            &&& q.next <= b.len()
            &&& xdr::parse(Message::shape(), again, 0) == (Parsed {
                val: q.val,
                next: again.len() as int,
            })
        }),
{
    xdr_laws::reread_is_stable(Message::shape(), b, p);
}

/// A truncated envelope is never accepted.
pub proof fn envelope_truncation_is_rejected(m: Message, k: int)
    requires
        m.canonical(),
        0 <= k < xdr::bytes(m.tree()).len(),
    ensures
        xdr::parse(Message::shape(), xdr::bytes(m.tree()).take(k), 0).val is Err,
{
    m.lemma_fits();
    xdr_laws::prefix_is_rejected(Message::shape(), m.tree(), k);
}

/// What follows an envelope reads back from where the envelope ends.
pub proof fn body_reads_back<T: Xdr>(m: Message, v: T, rest: Seq<u8>)
    requires
        m.canonical(),
        v.canonical(),
        xdr::sized(v.tree()),
    ensures
        ({
            let b = xdr::bytes(m.tree()) + xdr::bytes(v.tree()) + rest;
            let q = xdr::parse(Message::shape(), b, 0);
            &&& q.val == Ok::<Tree, XdrError>(m.tree())
            &&& xdr::parse(T::shape(), b, q.next) == (Parsed {
                val: Ok(v.tree()),
                next: b.len() - rest.len(),
            })
        }),
{
    let e = xdr::bytes(m.tree());
    let a = xdr::bytes(v.tree());
    assert(e + a + rest =~= e + (a + rest));
    envelope_reads_back(m, a + rest);
    v.lemma_fits();
    xdr_laws::tree_reads_back_at(T::shape(), v.tree(), e, rest);
}

/// The reply that [`encode_reply`] writes reads back as a successful reply with
/// that xid, followed by the result.
pub proof fn success_reads_back<R: Xdr>(xid: u32, res: R, rest: Seq<u8>)
    requires
        res.canonical(),
        xdr::sized(res.tree()),
    ensures
        ({
            let b = xdr::bytes(success_tree(xid)) + xdr::bytes(res.tree()) + rest;
            let q = xdr::parse(Message::shape(), b, 0);
            &&& q.val == Ok::<Tree, XdrError>(success_tree(xid))
            &&& xdr::parse(R::shape(), b, q.next) == (Parsed {
                val: Ok(res.tree()),
                next: b.len() - rest.len(),
            })
        }),
{
    lemma_success_fits(xid);
    let e = xdr::bytes(success_tree(xid));
    let a = xdr::bytes(res.tree());
    assert(e + a + rest =~= e + (a + rest));
    xdr_laws::tree_reads_back(Message::shape(), success_tree(xid), a + rest);
    res.lemma_fits();
    xdr_laws::tree_reads_back_at(R::shape(), res.tree(), e, rest);
}

/// The request that [`encode_request`] writes reads back as a call with that
/// xid and procedure, followed by the argument.
pub proof fn request_reads_back<A: Xdr>(xid: u32, proc_num: u32, arg: A, rest: Seq<u8>)
    requires
        arg.canonical(),
        xdr::sized(arg.tree()),
    ensures
        ({
            let b = xdr::bytes(call_tree(xid, proc_num)) + xdr::bytes(arg.tree()) + rest;
            let q = xdr::parse(Message::shape(), b, 0);
            &&& q.val == Ok::<Tree, XdrError>(call_tree(xid, proc_num))
            &&& xdr::parse(A::shape(), b, q.next) == (Parsed {
                val: Ok(arg.tree()),
                next: b.len() - rest.len(),
            })
        }),
{
    lemma_call_fits(xid, proc_num);
    let t = call_tree(xid, proc_num);
    let e = xdr::bytes(t);
    let a = xdr::bytes(arg.tree());
    assert(e + a + rest =~= e + (a + rest));
    xdr_laws::tree_reads_back(Message::shape(), t, a + rest);
    arg.lemma_fits();
    xdr_laws::tree_reads_back_at(A::shape(), arg.tree(), e, rest);
}

/// The envelope of a client call reads back, whatever follows it.
pub proof fn call_envelope_reads_back(xid: u32, proc_num: u32, rest: Seq<u8>)
    ensures
        xdr::parse(Message::shape(), xdr::bytes(call_tree(xid, proc_num)) + rest, 0) == (Parsed {
            val: Ok(call_tree(xid, proc_num)),
            next: xdr::bytes(call_tree(xid, proc_num)).len() as int,
        }),
{
    lemma_call_fits(xid, proc_num);
    xdr_laws::tree_reads_back(Message::shape(), call_tree(xid, proc_num), rest);
}

proof fn lemma_no_auth_fits()
    ensures
        xdr::fits(OpaqueAuth::shape(), no_auth_tree()),
        xdr::sized(no_auth_tree()),
{
    broadcast use {crate::xdr::group_records, crate::xdr::group_unions};

    reveal(<OpaqueAuth as Xdr>::shape);
    reveal(xdr::fits);
    let allowed = seq![0u32, 1, 2, 3, 6];
    assert(allowed[0] == 0);
    assert(allowed.contains(0u32));
}

proof fn lemma_success_fits(xid: u32)
    ensures
        xdr::fits(Message::shape(), success_tree(xid)),
        xdr::sized(success_tree(xid)),
{
    broadcast use {crate::xdr::group_records, crate::xdr::group_unions};

    reveal(Message::shape);
    reveal(ReplyBody::shape);
    lemma_no_auth_fits();
}

pub(crate) proof fn lemma_call_fits(xid: u32, proc_num: u32)
    ensures
        xdr::fits(Message::shape(), call_tree(xid, proc_num)),
        xdr::sized(call_tree(xid, proc_num)),
{
    broadcast use {crate::xdr::group_records, crate::xdr::group_unions};

    reveal(Message::shape);
    reveal(<CallHeader as Xdr>::shape);
    lemma_no_auth_fits();
}

} // verus!
