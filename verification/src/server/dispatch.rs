//! Which requests are answered, and how the others are refused.

use vstd::prelude::*;

use crate::consts::GSS_S_FAILURE;
use crate::gssapi::wrap;
use crate::proc::{
    ArgAcceptSecContext, ArgAcquireCred, ArgExportCred, ArgGetCallContext, ArgGetMic,
    ArgImportAndCanonName, ArgImportCred, ArgIndicateMechs, ArgInitSecContext, ArgReleaseHandle,
    ArgStoreCred, ArgUnwrap, ArgVerifyMic, ArgWrap, ArgWrapSizeLimit, GssxProc,
    ResAcceptSecContext, ResAcquireCred, ResExportCred, ResGetCallContext, ResGetMic,
    ResImportCred, ResInitSecContext, ResReleaseHandle, ResStoreCred, ResUnwrap, ResVerifyMic,
    ResWrap, ResWrapSizeLimit,
};
use crate::rpc;
use crate::rpc::{
    CallHeader, Message, MismatchInfo, OpaqueAuth, ReplyBody, GSSPROXY, GSSPROXYVERS,
};
use crate::server::call::CallContext;
use crate::server::handlers;
use crate::xdr;
use crate::xdr::{Shape, Tree, Xdr, XdrDecoder, XdrEncoder, XdrError, XdrResult};

verus! {

/// The program is not served.
pub const PROG_UNAVAIL: i32 = 1;

/// The program has no such procedure.
pub const PROC_UNAVAIL: i32 = 3;

/// The argument cannot be read.
pub const GARBAGE_ARGS: i32 = 4;

// ---- requests ----

/// A request that was accepted, with its argument.
pub enum Request {
    IndicateMechs(ArgIndicateMechs),
    GetCallContext(ArgGetCallContext),
    ImportAndCanonName(ArgImportAndCanonName),
    ExportCred(ArgExportCred),
    ImportCred(ArgImportCred),
    AcquireCred(ArgAcquireCred),
    StoreCred(ArgStoreCred),
    InitSecContext(ArgInitSecContext),
    AcceptSecContext(ArgAcceptSecContext),
    ReleaseHandle(ArgReleaseHandle),
    GetMic(ArgGetMic),
    VerifyMic(ArgVerifyMic),
    Wrap(ArgWrap),
    Unwrap(ArgUnwrap),
    WrapSizeLimit(ArgWrapSizeLimit),
}

impl Request {
    /// The procedure that is asked for.
    pub open spec fn procedure(self) -> GssxProc {
        match self {
            Request::IndicateMechs(_) => GssxProc::IndicateMechs,
            Request::GetCallContext(_) => GssxProc::GetCallContext,
            Request::ImportAndCanonName(_) => GssxProc::ImportAndCanonName,
            Request::ExportCred(_) => GssxProc::ExportCred,
            Request::ImportCred(_) => GssxProc::ImportCred,
            Request::AcquireCred(_) => GssxProc::AcquireCred,
            Request::StoreCred(_) => GssxProc::StoreCred,
            Request::InitSecContext(_) => GssxProc::InitSecContext,
            Request::AcceptSecContext(_) => GssxProc::AcceptSecContext,
            Request::ReleaseHandle(_) => GssxProc::ReleaseHandle,
            Request::GetMic(_) => GssxProc::GetMic,
            Request::VerifyMic(_) => GssxProc::VerifyMic,
            Request::Wrap(_) => GssxProc::Wrap,
            Request::Unwrap(_) => GssxProc::Unwrap,
            Request::WrapSizeLimit(_) => GssxProc::WrapSizeLimit,
        }
    }

    /// The XDR value of the argument.
    pub open spec fn tree(self) -> Tree {
        match self {
            Request::IndicateMechs(a) => a.tree(),
            Request::GetCallContext(a) => a.tree(),
            Request::ImportAndCanonName(a) => a.tree(),
            Request::ExportCred(a) => a.tree(),
            Request::ImportCred(a) => a.tree(),
            Request::AcquireCred(a) => a.tree(),
            Request::StoreCred(a) => a.tree(),
            Request::InitSecContext(a) => a.tree(),
            Request::AcceptSecContext(a) => a.tree(),
            Request::ReleaseHandle(a) => a.tree(),
            Request::GetMic(a) => a.tree(),
            Request::VerifyMic(a) => a.tree(),
            Request::Wrap(a) => a.tree(),
            Request::Unwrap(a) => a.tree(),
            Request::WrapSizeLimit(a) => a.tree(),
        }
    }
}

/// The XDR type of the argument of a procedure.
pub open spec fn arg_shape(p: GssxProc) -> Shape {
    match p {
        GssxProc::IndicateMechs => ArgIndicateMechs::shape(),
        GssxProc::GetCallContext => ArgGetCallContext::shape(),
        GssxProc::ImportAndCanonName => ArgImportAndCanonName::shape(),
        GssxProc::ExportCred => ArgExportCred::shape(),
        GssxProc::ImportCred => ArgImportCred::shape(),
        GssxProc::AcquireCred => ArgAcquireCred::shape(),
        GssxProc::StoreCred => ArgStoreCred::shape(),
        GssxProc::InitSecContext => ArgInitSecContext::shape(),
        GssxProc::AcceptSecContext => ArgAcceptSecContext::shape(),
        GssxProc::ReleaseHandle => ArgReleaseHandle::shape(),
        GssxProc::GetMic => ArgGetMic::shape(),
        GssxProc::VerifyMic => ArgVerifyMic::shape(),
        GssxProc::Wrap => ArgWrap::shape(),
        GssxProc::Unwrap => ArgUnwrap::shape(),
        GssxProc::WrapSizeLimit => ArgWrapSizeLimit::shape(),
    }
}

/// Read the argument of a procedure.
fn decode_request(p: GssxProc, d: &mut XdrDecoder) -> (r: XdrResult<Request>)
    ensures
        final(d).data() == old(d).data(),
        match r {
            Ok(q) => {
                &&& q.procedure() == p
                &&& xdr::parse(arg_shape(p), old(d).data(), old(d).at()).val == Ok::<
                    Tree,
                    XdrError,
                >(q.tree())
            },
            Err(x) => xdr::parse(arg_shape(p), old(d).data(), old(d).at()).val == Err::<
                Tree,
                XdrError,
            >(x),
        },
{
    match p {
        GssxProc::IndicateMechs => Ok(Request::IndicateMechs(ArgIndicateMechs::decode(d)?)),
        GssxProc::GetCallContext => Ok(Request::GetCallContext(ArgGetCallContext::decode(d)?)),
        GssxProc::ImportAndCanonName => Ok(
            Request::ImportAndCanonName(ArgImportAndCanonName::decode(d)?),
        ),
        GssxProc::ExportCred => Ok(Request::ExportCred(ArgExportCred::decode(d)?)),
        GssxProc::ImportCred => Ok(Request::ImportCred(ArgImportCred::decode(d)?)),
        GssxProc::AcquireCred => Ok(Request::AcquireCred(ArgAcquireCred::decode(d)?)),
        GssxProc::StoreCred => Ok(Request::StoreCred(ArgStoreCred::decode(d)?)),
        GssxProc::InitSecContext => Ok(Request::InitSecContext(ArgInitSecContext::decode(d)?)),
        GssxProc::AcceptSecContext => Ok(
            Request::AcceptSecContext(ArgAcceptSecContext::decode(d)?),
        ),
        GssxProc::ReleaseHandle => Ok(Request::ReleaseHandle(ArgReleaseHandle::decode(d)?)),
        GssxProc::GetMic => Ok(Request::GetMic(ArgGetMic::decode(d)?)),
        GssxProc::VerifyMic => Ok(Request::VerifyMic(ArgVerifyMic::decode(d)?)),
        GssxProc::Wrap => Ok(Request::Wrap(ArgWrap::decode(d)?)),
        GssxProc::Unwrap => Ok(Request::Unwrap(ArgUnwrap::decode(d)?)),
        GssxProc::WrapSizeLimit => Ok(Request::WrapSizeLimit(ArgWrapSizeLimit::decode(d)?)),
    }
}

/// The header of a call.
pub struct Call {
    pub xid: u32,
    pub prog: u32,
    pub vers: u32,
    pub proc_num: u32,
}

/// The call that an envelope is, if it is one.
pub open spec fn call_of(t: Tree) -> Option<Call> {
    let xid = (*t->Pair_0)->Word_0;
    let body = *t->Pair_1;
    if body->Case_0 == 0 {
        let version = *body->Case_1;
        let prog = *version->Pair_1;
        let vers = *prog->Pair_1;
        let proc_num = *vers->Pair_1;
        Some(
            Call {
                xid,
                prog: (*prog->Pair_0)->Word_0,
                vers: (*vers->Pair_0)->Word_0,
                proc_num: (*proc_num->Pair_0)->Word_0,
            },
        )
    } else {
        None
    }
}

/// The reply that a call was accepted, but has not succeeded.
pub open spec fn accepted_tree(xid: u32, status: i32) -> Tree {
    xdr::both(
        Tree::Word(xid),
        Tree::Case(
            1,
            Box::new(
                Tree::Case(0, Box::new(xdr::both(rpc::no_auth_tree(), Tree::Word(status as u32)))),
            ),
        ),
    )
}

/// The reply that the program is served in another version: only in one.
pub open spec fn mismatch_tree(xid: u32) -> Tree {
    xdr::both(
        Tree::Word(xid),
        Tree::Case(
            1,
            Box::new(
                Tree::Case(
                    0,
                    Box::new(
                        xdr::both(
                            rpc::no_auth_tree(),
                            Tree::Case(
                                2,
                                Box::new(
                                    xdr::both(
                                        Tree::Word(GSSPROXYVERS),
                                        Tree::Word(GSSPROXYVERS),
                                    ),
                                ),
                            ),
                        ),
                    ),
                ),
            ),
        ),
    )
}

/// What becomes of a request.
pub enum Routing {
    /// It is not answered.
    Ignored,
    /// It is refused with this reply.
    Refused(Tree),
    /// It is handed to this procedure, with this argument.
    Accepted(u32, GssxProc, Tree),
}

/// What becomes of a request: only a well-formed call is answered at all, and its
/// program, version, procedure and argument are looked at in this order.
pub open spec fn routed(body: Seq<u8>) -> Routing {
    let q = xdr::parse(Message::shape(), body, 0);
    match q.val {
        Err(_) => Routing::Ignored,
        Ok(t) => match call_of(t) {
            None => Routing::Ignored,
            Some(c) => if c.prog != GSSPROXY {
                Routing::Refused(accepted_tree(c.xid, PROG_UNAVAIL))
            } else if c.vers != GSSPROXYVERS {
                Routing::Refused(mismatch_tree(c.xid))
            } else {
                match GssxProc::numbered(c.proc_num) {
                    None => Routing::Refused(accepted_tree(c.xid, PROC_UNAVAIL)),
                    Some(p) => match xdr::parse(arg_shape(p), body, q.next).val {
                        Err(_) => Routing::Refused(accepted_tree(c.xid, GARBAGE_ARGS)),
                        Ok(a) => Routing::Accepted(c.xid, p, a),
                    },
                }
            },
        },
    }
}

/// What is done with a request.
pub enum Verdict {
    /// Nothing: it is not answered.
    Ignored,
    /// This is the reply.
    Refused(Vec<u8>),
    /// It is answered under this xid.
    Accepted(u32, Request),
}

fn encode_message(msg: Message) -> (r: Vec<u8>)
    requires
        msg.complete(),
    ensures
        r@ == xdr::bytes(msg.tree()),
{
    let mut e = XdrEncoder::new();
    msg.encode(&mut e);
    assert(e@ =~= xdr::bytes(msg.tree()));
    e.into_bytes()
}

fn reply_accept_other(xid: u32, status: i32) -> (r: Vec<u8>)
    ensures
        r@ == xdr::bytes(accepted_tree(xid, status)),
{
    reveal(Message::tree);
    reveal(ReplyBody::tree);
    reveal(<OpaqueAuth as Xdr>::tree);
    let verf = OpaqueAuth::none();
    assert(verf.body@ =~= Seq::<u8>::empty());
    let reply = ReplyBody::AcceptedOther { verf, status };
    encode_message(Message { xid, is_call: false, call: None, reply: Some(reply) })
}

fn reply_prog_mismatch(xid: u32) -> (r: Vec<u8>)
    ensures
        r@ == xdr::bytes(mismatch_tree(xid)),
{
    reveal(Message::tree);
    reveal(ReplyBody::tree);
    reveal(<OpaqueAuth as Xdr>::tree);
    let verf = OpaqueAuth::none();
    assert(verf.body@ =~= Seq::<u8>::empty());
    let info = MismatchInfo { low: GSSPROXYVERS, high: GSSPROXYVERS };
    let reply = ReplyBody::ProgMismatch { verf, info };
    encode_message(Message { xid, is_call: false, call: None, reply: Some(reply) })
}

proof fn lemma_call_of(m: Message)
    requires
        m.canonical(),
    ensures
        call_of(m.tree()) == match (m.is_call, m.call) {
            (true, Some(c)) => Some(
                Call { xid: m.xid, prog: c.prog, vers: c.vers, proc_num: c.proc_num },
            ),
            _ => None,
        },
{
    reveal(Message::tree);
    reveal(<CallHeader as Xdr>::tree);
}

/// Process the body of a request.
pub fn handle_request(_ctx: &CallContext, body: &[u8]) -> (r: Verdict)
    ensures
        match routed(body@) {
            Routing::Ignored => r is Ignored,
            Routing::Refused(t) => r matches Verdict::Refused(out) && out@ == xdr::bytes(t),
            Routing::Accepted(xid, p, a) => r matches Verdict::Accepted(x, q) && x == xid
                && q.procedure() == p && q.tree() == a,
        },
{
    let mut d = XdrDecoder::new(body);
    let msg = match Message::decode(&mut d) {
        Ok(m) => m,
        Err(_) => {
            return Verdict::Ignored;
        },
    };
    proof {
        lemma_call_of(msg);
    }
    if !msg.is_call {
        return Verdict::Ignored;
    }
    let call = match &msg.call {
        Some(c) => c,
        None => {
            return Verdict::Ignored;
        },
    };
    let xid: u32 = msg.xid;
    if call.prog != GSSPROXY {
        return Verdict::Refused(reply_accept_other(xid, PROG_UNAVAIL));
    }
    if call.vers != GSSPROXYVERS {
        return Verdict::Refused(reply_prog_mismatch(xid));
    }
    let p = match GssxProc::from_u32(call.proc_num) {
        Some(p) => p,
        None => {
            return Verdict::Refused(reply_accept_other(xid, PROC_UNAVAIL));
        },
    };
    match decode_request(p, &mut d) {
        Ok(q) => Verdict::Accepted(xid, q),
        Err(_) => Verdict::Refused(reply_accept_other(xid, GARBAGE_ARGS)),
    }
}

// ---- answers ----

/// A reply body is the successful reply with a result.
pub open spec fn replies<R: Xdr>(out: Seq<u8>, xid: u32, res: R) -> bool {
    out == xdr::bytes(rpc::success_tree(xid)) + xdr::bytes(res.tree())
}

/// The successful reply with a result.
pub fn reply<R: Xdr>(xid: u32, res: &R) -> (r: Vec<u8>)
    ensures
        replies(r@, xid, *res),
{
    rpc::encode_reply(xid, res)
}

/// The major status that a request is refused with, where it is one that is
/// refused; its text is wanted for the reply.
pub open spec fn refusal_of(q: Request) -> Option<u32> {
    match q {
        Request::AcquireCred(_) => Some(GSS_S_FAILURE),
        Request::InitSecContext(_) => Some(GSS_S_FAILURE),
        Request::AcceptSecContext(_) => Some(GSS_S_FAILURE),
        Request::GetMic(_) => Some(GSS_S_FAILURE),
        Request::VerifyMic(_) => Some(GSS_S_FAILURE),
        Request::Wrap(_) => Some(GSS_S_FAILURE),
        Request::Unwrap(_) => Some(GSS_S_FAILURE),
        Request::WrapSizeLimit(_) => Some(GSS_S_FAILURE),
        Request::ReleaseHandle(a) => Some(handlers::release_status(a.cred_handle)),
        _ => None,
    }
}

/// The major status that a request is refused with.
pub fn refused_with(q: &Request) -> (r: Option<u32>)
    ensures
        r == refusal_of(*q),
{
    match q {
        Request::AcquireCred(_) => Some(GSS_S_FAILURE),
        Request::InitSecContext(_) => Some(GSS_S_FAILURE),
        Request::AcceptSecContext(_) => Some(GSS_S_FAILURE),
        Request::GetMic(_) => Some(GSS_S_FAILURE),
        Request::VerifyMic(_) => Some(GSS_S_FAILURE),
        Request::Wrap(_) => Some(GSS_S_FAILURE),
        Request::Unwrap(_) => Some(GSS_S_FAILURE),
        Request::WrapSizeLimit(_) => Some(GSS_S_FAILURE),
        Request::ReleaseHandle(a) => Some(handlers::release_major(&a.cred_handle)),
        _ => None,
    }
}

/// The reply to this procedure is an empty result.
pub open spec fn get_call_context_answer(out: Seq<u8>, xid: u32) -> bool {
    exists|res: ResGetCallContext| res.blank() && #[trigger] replies(out, xid, res)
}

/// The reply to this procedure is an empty result.
pub open spec fn export_cred_answer(out: Seq<u8>, xid: u32) -> bool {
    exists|res: ResExportCred| res.blank() && #[trigger] replies(out, xid, res)
}

/// The reply to this procedure is an empty result.
pub open spec fn import_cred_answer(out: Seq<u8>, xid: u32) -> bool {
    exists|res: ResImportCred| res.blank() && #[trigger] replies(out, xid, res)
}

/// The reply to this procedure is an empty result.
pub open spec fn store_cred_answer(out: Seq<u8>, xid: u32) -> bool {
    exists|res: ResStoreCred| res.blank() && #[trigger] replies(out, xid, res)
}

/// The reply to this procedure is a failure.
pub open spec fn acquire_cred_answer(out: Seq<u8>, xid: u32, text: Seq<Seq<char>>) -> bool {
    exists|res: ResAcquireCred|
        handlers::acquire_cred_failed(res, text) && #[trigger] replies(out, xid, res)
}

/// The reply to this procedure is a failure.
pub open spec fn init_sec_context_answer(out: Seq<u8>, xid: u32, text: Seq<Seq<char>>) -> bool {
    exists|res: ResInitSecContext|
        handlers::init_sec_context_failed(res, text) && #[trigger] replies(out, xid, res)
}

/// The reply to this procedure is a failure.
pub open spec fn accept_sec_context_answer(out: Seq<u8>, xid: u32, text: Seq<Seq<char>>) -> bool {
    exists|res: ResAcceptSecContext|
        handlers::accept_sec_context_failed(res, text) && #[trigger] replies(out, xid, res)
}

/// The reply to this procedure is a failure.
pub open spec fn get_mic_answer(out: Seq<u8>, xid: u32, text: Seq<Seq<char>>) -> bool {
    exists|res: ResGetMic|
        handlers::get_mic_failed(res, text) && #[trigger] replies(out, xid, res)
}

/// The reply to this procedure is a failure.
pub open spec fn verify_mic_answer(out: Seq<u8>, xid: u32, text: Seq<Seq<char>>) -> bool {
    exists|res: ResVerifyMic|
        handlers::verify_mic_failed(res, text) && #[trigger] replies(out, xid, res)
}

/// The reply to this procedure is a failure.
pub open spec fn wrap_msg_answer(out: Seq<u8>, xid: u32, text: Seq<Seq<char>>) -> bool {
    exists|res: ResWrap|
        handlers::wrap_msg_failed(res, text) && #[trigger] replies(out, xid, res)
}

/// The reply to this procedure is a failure.
pub open spec fn unwrap_msg_answer(out: Seq<u8>, xid: u32, text: Seq<Seq<char>>) -> bool {
    exists|res: ResUnwrap|
        handlers::unwrap_msg_failed(res, text) && #[trigger] replies(out, xid, res)
}

/// The reply to this procedure is a failure.
pub open spec fn wrap_size_limit_answer(out: Seq<u8>, xid: u32, text: Seq<Seq<char>>) -> bool {
    exists|res: ResWrapSizeLimit|
        handlers::wrap_size_limit_failed(res, text) && #[trigger] replies(out, xid, res)
}

/// The reply to this procedure is a refusal.
pub open spec fn release_handle_answer(
    out: Seq<u8>,
    xid: u32,
    major: u32,
    text: Seq<Seq<char>>,
) -> bool {
    exists|res: ResReleaseHandle|
        handlers::is_refusal(res.status, major, text) && #[trigger] replies(out, xid, res)
}

/// What a request is answered, where that takes no GSSAPI. The text is that of the
/// major status that it is refused with.
pub open spec fn is_answer(q: Request, xid: u32, text: Seq<Seq<char>>, out: Seq<u8>) -> bool {
    match q {
        Request::IndicateMechs(_) => false,
        Request::ImportAndCanonName(_) => false,
        Request::GetCallContext(_) => get_call_context_answer(out, xid),
        Request::ExportCred(_) => export_cred_answer(out, xid),
        Request::ImportCred(_) => import_cred_answer(out, xid),
        Request::StoreCred(_) => store_cred_answer(out, xid),
        Request::AcquireCred(_) => acquire_cred_answer(out, xid, text),
        Request::InitSecContext(_) => init_sec_context_answer(out, xid, text),
        Request::AcceptSecContext(_) => accept_sec_context_answer(out, xid, text),
        Request::GetMic(_) => get_mic_answer(out, xid, text),
        Request::VerifyMic(_) => verify_mic_answer(out, xid, text),
        Request::Wrap(_) => wrap_msg_answer(out, xid, text),
        Request::Unwrap(_) => unwrap_msg_answer(out, xid, text),
        Request::WrapSizeLimit(_) => wrap_size_limit_answer(out, xid, text),
        Request::ReleaseHandle(a) => release_handle_answer(
            out,
            xid,
            handlers::release_status(a.cred_handle),
            text,
        ),
    }
}

/// Answer a request that takes no GSSAPI; the others are answered with what their
/// handlers make of it.
pub fn answer(ctx: &CallContext, xid: u32, q: &Request, text: &[String]) -> (r: Option<Vec<u8>>)
    ensures
        match r {
            None => q is IndicateMechs || q is ImportAndCanonName,
            Some(out) => is_answer(*q, xid, wrap::texts(text@), out@),
        },
{
    let ghost words = wrap::texts(text@);
    match q {
        Request::IndicateMechs(_) => None,
        Request::ImportAndCanonName(_) => None,
        Request::GetCallContext(a) => {
            let res = handlers::get_call_context(ctx, a);
            let out = reply(xid, &res);
            assert(get_call_context_answer(out@, xid));
            Some(out)
        },
        Request::ExportCred(a) => {
            let res = handlers::export_cred(ctx, a);
            let out = reply(xid, &res);
            assert(export_cred_answer(out@, xid));
            Some(out)
        },
        Request::ImportCred(a) => {
            let res = handlers::import_cred(ctx, a);
            let out = reply(xid, &res);
            assert(import_cred_answer(out@, xid));
            Some(out)
        },
        Request::StoreCred(a) => {
            let res = handlers::store_cred(ctx, a);
            let out = reply(xid, &res);
            assert(store_cred_answer(out@, xid));
            Some(out)
        },
        Request::AcquireCred(a) => {
            let res = handlers::acquire_cred(ctx, a, text);
            let out = reply(xid, &res);
            assert(acquire_cred_answer(out@, xid, words));
            Some(out)
        },
        Request::InitSecContext(a) => {
            let res = handlers::init_sec_context(ctx, a, text);
            let out = reply(xid, &res);
            assert(init_sec_context_answer(out@, xid, words));
            Some(out)
        },
        Request::AcceptSecContext(a) => {
            let res = handlers::accept_sec_context(ctx, a, text);
            let out = reply(xid, &res);
            assert(accept_sec_context_answer(out@, xid, words));
            Some(out)
        },
        Request::GetMic(a) => {
            let res = handlers::get_mic(ctx, a, text);
            let out = reply(xid, &res);
            assert(get_mic_answer(out@, xid, words));
            Some(out)
        },
        Request::VerifyMic(a) => {
            let res = handlers::verify_mic(ctx, a, text);
            let out = reply(xid, &res);
            assert(verify_mic_answer(out@, xid, words));
            Some(out)
        },
        Request::Wrap(a) => {
            let res = handlers::wrap_msg(ctx, a, text);
            let out = reply(xid, &res);
            assert(wrap_msg_answer(out@, xid, words));
            Some(out)
        },
        Request::Unwrap(a) => {
            let res = handlers::unwrap_msg(ctx, a, text);
            let out = reply(xid, &res);
            assert(unwrap_msg_answer(out@, xid, words));
            Some(out)
        },
        Request::WrapSizeLimit(a) => {
            let res = handlers::wrap_size_limit(ctx, a, text);
            let out = reply(xid, &res);
            assert(wrap_size_limit_answer(out@, xid, words));
            Some(out)
        },
        Request::ReleaseHandle(a) => {
            let res = handlers::release_handle(ctx, a, text);
            let out = reply(xid, &res);
            assert(release_handle_answer(
                out@,
                xid,
                handlers::release_status(a.cred_handle),
                words,
            ));
            Some(out)
        },
    }
}

// ---- laws ----

/// A client's request is handed to the procedure that it names, with its xid and
/// its argument.
pub proof fn clients_request_is_accepted<A: Xdr>(xid: u32, p: GssxProc, arg: A)
    requires
        arg.canonical(),
        xdr::sized(arg.tree()),
        A::shape() == arg_shape(p),
    ensures
        routed(xdr::bytes(rpc::call_tree(xid, p.number())) + xdr::bytes(arg.tree()))
            == Routing::Accepted(xid, p, arg.tree()),
{
    let b = xdr::bytes(rpc::call_tree(xid, p.number())) + xdr::bytes(arg.tree());
    rpc::request_reads_back(xid, p.number(), arg, Seq::empty());
    assert(b + Seq::<u8>::empty() =~= b);
    assert(GssxProc::numbered(p.number()) == Some(p));
}

/// The refusal of a program, a version, a procedure or an argument carries the xid
/// of the call.
pub proof fn refusal_carries_the_xid(body: Seq<u8>)
    requires
        routed(body) is Refused,
    ensures
        ({
            let t = xdr::parse(Message::shape(), body, 0).val->Ok_0;
            &&& call_of(t) is Some
            &&& (*routed(body)->Refused_0->Pair_0) == Tree::Word(call_of(t)->Some_0.xid)
        }),
{
}

/// A request of which the argument is cut short is refused as garbage, whatever
/// the procedure.
pub proof fn truncated_argument_is_garbage<A: Xdr>(xid: u32, p: GssxProc, arg: A, k: int)
    requires
        arg.canonical(),
        xdr::sized(arg.tree()),
        A::shape() == arg_shape(p),
        0 <= k < xdr::bytes(arg.tree()).len(),
    ensures
        routed(xdr::bytes(rpc::call_tree(xid, p.number())) + xdr::bytes(arg.tree()).take(k))
            == Routing::Refused(accepted_tree(xid, GARBAGE_ARGS)),
{
    let head = xdr::bytes(rpc::call_tree(xid, p.number()));
    let cut = xdr::bytes(arg.tree()).take(k);
    rpc::call_envelope_reads_back(xid, p.number(), cut);
    arg.lemma_fits();
    crate::xdr_laws::prefix_is_rejected_at(A::shape(), arg.tree(), head, k);
    assert(GssxProc::numbered(p.number()) == Some(p));
}

} // verus!
