//! What the daemon answers to each request, on the wire and part by part.

use vstd::prelude::*;

use crate::consts::{
    EINVAL, ENOSYS, GSS_S_CALL_BAD_STRUCTURE,
    GSS_S_COMPLETE, GSS_S_FAILURE, GSS_S_UNAVAILABLE, NT_EXPORT_NAME_OID,
};
use crate::gpm::LOCALNAME_OPTION;
use crate::gssapi::seal::SealError;
use crate::gssapi::wrap;
use crate::gssapi::wrap::GssError;
use crate::gssx::{GssxCred, GssxCtx, GssxHandle, GssxName, GssxOption, GssxStatus};
use crate::proc::{
    ArgImportAndCanonName, ArgIndicateMechs, GssxProc, ResAcceptSecContext, ResAcquireCred,
    ResExportCred, ResGetCallContext, ResGetMic, ResImportAndCanonName, ResImportCred,
    ResIndicateMechs, ResInitSecContext, ResReleaseHandle, ResStoreCred, ResUnwrap, ResVerifyMic,
    ResWrap, ResWrapSizeLimit,
};
use crate::rpc;
use crate::rpc::{CallHeader, Message};
use crate::server::call::CallContext;
use crate::server::conv;
use crate::server::conv::{CtxInfo, ElementInfo, ExpCtxType, NameImport};
use crate::server::dispatch;
use crate::server::dispatch::{Request, Verdict};
use crate::server::handlers;
use crate::server::handlers::{AttrFacts, MechDetails, MechFacts, NameOutcome, NameTask, Survey};
use crate::wire_laws;
use crate::xdr;
use crate::xdr::Xdr;
use crate::xdr_laws;

verus! {

// ---- requests ----

/// The reply that a request is accepted with a status but not carried out.
pub open spec fn refusal(xid: u32, status: u32) -> Seq<u8> {
    wire_laws::word(xid) + wire_laws::word(1) + wire_laws::word(0) + wire_laws::no_auth()
        + wire_laws::word(status)
}

/// The reply that only version 1 is served.
pub open spec fn mismatch(xid: u32) -> Seq<u8> {
    refusal(xid, 2) + wire_laws::word(1) + wire_laws::word(1)
}

proof fn lemma_refusal(xid: u32, status: i32)
    requires
        status >= 0,
    ensures
        xdr::bytes(dispatch::accepted_tree(xid, status)) == refusal(xid, status as u32),
        xdr::bytes(dispatch::mismatch_tree(xid)) == mismatch(xid),
{
    broadcast use {xdr::group_records, xdr::group_unions, wire_laws::group_pieces};

    wire_laws::lemma_no_auth();
    assert forall|w: u32| #[trigger] xdr::be32(w) == wire_laws::word(w) by {
        assert(xdr::be32(w) =~= wire_laws::word(w));
    }
    assert(xdr::bytes(dispatch::accepted_tree(xid, status)) =~= refusal(xid, status as u32));
    assert(xdr::bytes(dispatch::mismatch_tree(xid)) =~= mismatch(xid));
}

proof fn lemma_call(xid: u32, h: CallHeader, rest: Seq<u8>, body: Seq<u8>)
    requires
        h.canonical(),
        body == wire_laws::word(xid) + wire_laws::word(0) + wire_laws::wire(h) + rest,
    ensures
        ({
            let q = xdr::parse(Message::shape(), body, 0);
            &&& q.val is Ok
            &&& q.next == body.len() - rest.len()
            &&& dispatch::call_of(q.val->Ok_0) == Some(
                dispatch::Call { xid, prog: h.prog, vers: h.vers, proc_num: h.proc_num },
            )
        }),
{
    let m = Message { xid, is_call: true, call: Some(h), reply: None };
    wire_laws::message_on_the_wire(m);
    m.lemma_fits();
    assert(body =~= xdr::bytes(m.tree()) + rest);
    xdr_laws::tree_reads_back(Message::shape(), m.tree(), rest);
    reveal(Message::tree);
    reveal(<CallHeader as Xdr>::tree);
}

/// A request for another program, another version or a procedure that there is not is
/// refused, under its own number and with the reason. Any other is accepted, or refused for
/// its argument.
pub proof fn requests_that_are_refused(
    ctx: &CallContext,
    body: &[u8],
    r: Verdict,
    xid: u32,
    h: CallHeader,
    rest: Seq<u8>,
)
    requires
        call_ensures(dispatch::handle_request, (ctx, body), r),
        h.canonical(),
        body@ == wire_laws::word(xid) + wire_laws::word(0) + wire_laws::wire(h) + rest,
    ensures
        !(r is Ignored),
        h.prog != 400112 ==> r is Refused && r->Refused_0@ == refusal(xid, 1),
        h.prog == 400112 && h.vers != 1 ==> r is Refused && r->Refused_0@ == mismatch(xid),
        h.prog == 400112 && h.vers == 1 && (h.proc_num == 0 || h.proc_num > 15) ==> r is Refused
            && r->Refused_0@ == refusal(xid, 3),
        h.prog == 400112 && h.vers == 1 && 1 <= h.proc_num <= 15 && r is Refused
            ==> r->Refused_0@ == refusal(xid, 4),
        r is Accepted ==> r->Accepted_0 == xid,
{
    lemma_call(xid, h, rest, body@);
    lemma_refusal(xid, 1);
    lemma_refusal(xid, 3);
    lemma_refusal(xid, 4);
}

/// A complete request reaches the procedure of its number, with its argument.
pub proof fn requests_reach_their_procedures<A: Xdr>(
    ctx: &CallContext,
    body: &[u8],
    r: Verdict,
    xid: u32,
    p: GssxProc,
    arg: A,
)
    requires
        call_ensures(dispatch::handle_request, (ctx, body), r),
        arg.canonical(),
        xdr::sized(arg.tree()),
        A::shape() == dispatch::arg_shape(p),
        body@ == wire_laws::word(xid) + wire_laws::word(0) + wire_laws::word(2)
            + wire_laws::word(400112) + wire_laws::word(1) + wire_laws::word(p.number())
            + wire_laws::no_auth() + wire_laws::no_auth() + wire_laws::wire(arg),
    ensures
        r is Accepted,
        r->Accepted_0 == xid,
        p.number() == 1 ==> r->Accepted_1 is IndicateMechs,
        p.number() == 2 ==> r->Accepted_1 is GetCallContext,
        p.number() == 3 ==> r->Accepted_1 is ImportAndCanonName,
        p.number() == 4 ==> r->Accepted_1 is ExportCred,
        p.number() == 5 ==> r->Accepted_1 is ImportCred,
        p.number() == 6 ==> r->Accepted_1 is AcquireCred,
        p.number() == 7 ==> r->Accepted_1 is StoreCred,
        p.number() == 8 ==> r->Accepted_1 is InitSecContext,
        p.number() == 9 ==> r->Accepted_1 is AcceptSecContext,
        p.number() == 10 ==> r->Accepted_1 is ReleaseHandle,
        p.number() == 11 ==> r->Accepted_1 is GetMic,
        p.number() == 12 ==> r->Accepted_1 is VerifyMic,
        p.number() == 13 ==> r->Accepted_1 is Wrap,
        p.number() == 14 ==> r->Accepted_1 is Unwrap,
        p.number() == 15 ==> r->Accepted_1 is WrapSizeLimit,
        r->Accepted_1 matches Request::AcquireCred(a) ==> wire_laws::wire(a)
            == wire_laws::wire(arg),
        r->Accepted_1 matches Request::InitSecContext(a) ==> wire_laws::wire(a)
            == wire_laws::wire(arg),
        r->Accepted_1 matches Request::AcceptSecContext(a) ==> wire_laws::wire(a)
            == wire_laws::wire(arg),
        r->Accepted_1 matches Request::ImportAndCanonName(a) ==> wire_laws::wire(a)
            == wire_laws::wire(arg),
        r->Accepted_1 matches Request::ReleaseHandle(a) ==> wire_laws::wire(a)
            == wire_laws::wire(arg),
        r->Accepted_1 matches Request::GetMic(a) ==> wire_laws::wire(a) == wire_laws::wire(arg),
        r->Accepted_1 matches Request::VerifyMic(a) ==> wire_laws::wire(a) == wire_laws::wire(
            arg,
        ),
        r->Accepted_1 matches Request::Wrap(a) ==> wire_laws::wire(a) == wire_laws::wire(arg),
        r->Accepted_1 matches Request::Unwrap(a) ==> wire_laws::wire(a) == wire_laws::wire(arg),
        r->Accepted_1 matches Request::WrapSizeLimit(a) ==> wire_laws::wire(a)
            == wire_laws::wire(arg),
{
    wire_laws::lemma_call_bytes(xid, p.number());
    dispatch::clients_request_is_accepted(xid, p, arg);
}

/// The argument of each procedure has the form of its own type.
pub proof fn arguments_of_procedures()
    ensures
        dispatch::arg_shape(GssxProc::IndicateMechs) == ArgIndicateMechs::shape(),
        dispatch::arg_shape(GssxProc::GetCallContext) == crate::proc::ArgGetCallContext::shape(),
        dispatch::arg_shape(GssxProc::ImportAndCanonName) == ArgImportAndCanonName::shape(),
        dispatch::arg_shape(GssxProc::ExportCred) == crate::proc::ArgExportCred::shape(),
        dispatch::arg_shape(GssxProc::ImportCred) == crate::proc::ArgImportCred::shape(),
        dispatch::arg_shape(GssxProc::AcquireCred) == crate::proc::ArgAcquireCred::shape(),
        dispatch::arg_shape(GssxProc::StoreCred) == crate::proc::ArgStoreCred::shape(),
        dispatch::arg_shape(GssxProc::InitSecContext) == crate::proc::ArgInitSecContext::shape(),
        dispatch::arg_shape(GssxProc::AcceptSecContext)
            == crate::proc::ArgAcceptSecContext::shape(),
        dispatch::arg_shape(GssxProc::ReleaseHandle) == crate::proc::ArgReleaseHandle::shape(),
        dispatch::arg_shape(GssxProc::GetMic) == crate::proc::ArgGetMic::shape(),
        dispatch::arg_shape(GssxProc::VerifyMic) == crate::proc::ArgVerifyMic::shape(),
        dispatch::arg_shape(GssxProc::Wrap) == crate::proc::ArgWrap::shape(),
        dispatch::arg_shape(GssxProc::Unwrap) == crate::proc::ArgUnwrap::shape(),
        dispatch::arg_shape(GssxProc::WrapSizeLimit) == crate::proc::ArgWrapSizeLimit::shape(),
{
}

/// What is no call is not answered: a reply, something of another kind, and what is too
/// short to be either.
pub proof fn requests_that_are_ignored(
    ctx: &CallContext,
    body: &[u8],
    r: Verdict,
    xid: u32,
    kind: u32,
    m: Message,
    rest: Seq<u8>,
)
    requires
        call_ensures(dispatch::handle_request, (ctx, body), r),
    ensures
        kind > 1 && body@ == wire_laws::word(xid) + wire_laws::word(kind) + rest ==> r is Ignored,
        m.canonical() && !m.is_call && body@ == xdr::bytes(m.tree()) + rest ==> r is Ignored,
        body@.len() < 4 ==> r is Ignored,
{
    if kind > 1 {
        wire_laws::other_messages_are_refused(xid, kind, rest);
    }
    if m.canonical() && !m.is_call {
        m.lemma_fits();
        xdr_laws::tree_reads_back(Message::shape(), m.tree(), rest);
        reveal(Message::tree);
    }
    if body@.len() < 4 {
        reveal(Message::shape);
        broadcast use {xdr::group_records, xdr::group_unions};

    }
}

// ---- replies ----

/// The beginning of a reply to a request that was carried out.
pub open spec fn carried_out(xid: u32) -> Seq<u8> {
    refusal(xid, 0)
}

/// A reply is the envelope of a success, and the result behind it.
pub proof fn results_are_replied<R: Xdr>(xid: u32, res: &R, r: Vec<u8>)
    requires
        call_ensures(dispatch::reply::<R>, (xid, res), r),
    ensures
        r@ == carried_out(xid) + wire_laws::wire(*res),
{
    lemma_success(xid);
}

proof fn lemma_success(xid: u32)
    ensures
        xdr::bytes(rpc::success_tree(xid)) == carried_out(xid),
{
    broadcast use {xdr::group_records, xdr::group_unions, wire_laws::group_pieces};

    wire_laws::lemma_no_auth();
    assert forall|w: u32| #[trigger] xdr::be32(w) == wire_laws::word(w) by {
        assert(xdr::be32(w) =~= wire_laws::word(w));
    }
    assert(xdr::bytes(rpc::success_tree(xid)) =~= carried_out(xid));
}

/// A status says that the request failed.
pub open spec fn says_failure(s: GssxStatus) -> bool {
    s.major_status == GSS_S_FAILURE && s.minor_status == 0
}

/// What needs credentials or a context is answered with a failure and with nothing else;
/// what the daemon has nothing to say to is answered with an empty result. Two requests are
/// left to be carried out.
pub proof fn what_is_answered(
    ctx: &CallContext,
    xid: u32,
    q: &Request,
    text: &[String],
    r: Option<Vec<u8>>,
)
    requires
        call_ensures(dispatch::answer, (ctx, xid, q, text), r),
    ensures
        r is None <==> *q is IndicateMechs || *q is ImportAndCanonName,
        *q is AcquireCred && r is Some ==> exists|res: ResAcquireCred|
            says_failure(res.status) && res.output_cred_handle is None && r->Some_0@
                == carried_out(xid) + #[trigger] wire_laws::wire(res),
        *q is InitSecContext && r is Some ==> exists|res: ResInitSecContext|
            says_failure(res.status) && res.context_handle is None && res.output_token is None
                && r->Some_0@ == carried_out(xid) + #[trigger] wire_laws::wire(res),
        *q is AcceptSecContext && r is Some ==> exists|res: ResAcceptSecContext|
            says_failure(res.status) && res.context_handle is None && res.output_token is None
                && res.delegated_cred_handle is None && r->Some_0@ == carried_out(xid)
                + #[trigger] wire_laws::wire(res),
        *q is GetMic && r is Some ==> exists|res: ResGetMic|
            says_failure(res.status) && res.token_buffer@.len() == 0 && r->Some_0@
                == carried_out(xid) + #[trigger] wire_laws::wire(res),
        *q is VerifyMic && r is Some ==> exists|res: ResVerifyMic|
            says_failure(res.status) && r->Some_0@ == carried_out(xid)
                + #[trigger] wire_laws::wire(res),
        *q is Wrap && r is Some ==> exists|res: ResWrap|
            says_failure(res.status) && res.token_buffer@.len() == 0 && r->Some_0@
                == carried_out(xid) + #[trigger] wire_laws::wire(res),
        *q is Unwrap && r is Some ==> exists|res: ResUnwrap|
            says_failure(res.status) && res.message_buffer@.len() == 0 && r->Some_0@
                == carried_out(xid) + #[trigger] wire_laws::wire(res),
        *q is WrapSizeLimit && r is Some ==> exists|res: ResWrapSizeLimit|
            says_failure(res.status) && res.max_input_size == 0 && r->Some_0@ == carried_out(xid)
                + #[trigger] wire_laws::wire(res),
{
    lemma_success(xid);
    if let Some(v) = r {
        let t = wrap::texts(text@);
        match q {
            Request::AcquireCred(_) => {
                let res = choose|res: ResAcquireCred|
                    handlers::acquire_cred_failed(res, t) && #[trigger] dispatch::replies(
                        v@,
                        xid,
                        res,
                    );
                assert(v@ == carried_out(xid) + wire_laws::wire(res));
            },
            Request::InitSecContext(_) => {
                let res = choose|res: ResInitSecContext|
                    handlers::init_sec_context_failed(res, t) && #[trigger] dispatch::replies(
                        v@,
                        xid,
                        res,
                    );
                assert(v@ == carried_out(xid) + wire_laws::wire(res));
            },
            Request::AcceptSecContext(_) => {
                let res = choose|res: ResAcceptSecContext|
                    handlers::accept_sec_context_failed(res, t) && #[trigger] dispatch::replies(
                        v@,
                        xid,
                        res,
                    );
                assert(v@ == carried_out(xid) + wire_laws::wire(res));
            },
            Request::GetMic(_) => {
                let res = choose|res: ResGetMic|
                    handlers::get_mic_failed(res, t) && #[trigger] dispatch::replies(v@, xid, res);
                assert(v@ == carried_out(xid) + wire_laws::wire(res));
            },
            Request::VerifyMic(_) => {
                let res = choose|res: ResVerifyMic|
                    handlers::verify_mic_failed(res, t) && #[trigger] dispatch::replies(
                        v@,
                        xid,
                        res,
                    );
                assert(v@ == carried_out(xid) + wire_laws::wire(res));
            },
            Request::Wrap(_) => {
                let res = choose|res: ResWrap|
                    handlers::wrap_msg_failed(res, t) && #[trigger] dispatch::replies(
                        v@,
                        xid,
                        res,
                    );
                assert(v@ == carried_out(xid) + wire_laws::wire(res));
            },
            Request::Unwrap(_) => {
                let res = choose|res: ResUnwrap|
                    handlers::unwrap_msg_failed(res, t) && #[trigger] dispatch::replies(
                        v@,
                        xid,
                        res,
                    );
                assert(v@ == carried_out(xid) + wire_laws::wire(res));
            },
            Request::WrapSizeLimit(_) => {
                let res = choose|res: ResWrapSizeLimit|
                    handlers::wrap_size_limit_failed(res, t) && #[trigger] dispatch::replies(
                        v@,
                        xid,
                        res,
                    );
                assert(v@ == carried_out(xid) + wire_laws::wire(res));
            },
            _ => {},
        }
    }
}

/// The status that a request is refused with: a failure where it needs credentials or a
/// context, and for a handle to release that there is none, or that it is none.
pub proof fn statuses_of_refusals(q: &Request, r: Option<u32>, h: &GssxHandle, m: u32)
    requires
        call_ensures(dispatch::refused_with, (q,), r),
        call_ensures(handlers::release_major, (h,), m),
    ensures
        *q is AcquireCred || *q is InitSecContext || *q is AcceptSecContext ==> r == Some(
            GSS_S_FAILURE,
        ),
        *q is GetMic || *q is VerifyMic || *q is Wrap || *q is Unwrap || *q is WrapSizeLimit ==> r
            == Some(GSS_S_FAILURE),
        *q is IndicateMechs || *q is ImportAndCanonName || *q is GetCallContext || *q is ExportCred
            || *q is ImportCred || *q is StoreCred ==> r is None,
        *h is SecCtx ==> m == GSS_S_UNAVAILABLE,
        *h is Cred ==> m == GSS_S_UNAVAILABLE,
        *h is Extensions ==> m == GSS_S_CALL_BAD_STRUCTURE,
        *q matches Request::ReleaseHandle(a) ==> {
            &&& a.cred_handle is Extensions ==> r == Some(GSS_S_CALL_BAD_STRUCTURE)
            &&& !(a.cred_handle is Extensions) ==> r == Some(GSS_S_UNAVAILABLE)
        },
{
}

/// No credential is acquired: the result says that it failed, with the text of that, and holds nothing.
pub proof fn answer_to_acquire_cred(
    ctx: &CallContext,
    arg: &crate::proc::ArgAcquireCred,
    text: &[String],
    r: ResAcquireCred,
    joined: String,
)
    requires
        call_ensures(handlers::acquire_cred, (ctx, arg, text), r),
        call_ensures(wrap::join, (text,), joined),
    ensures
        says_failure(r.status),
        text@.len() > 0 ==> r.status.major_status_string@ == vstd::utf8::encode_utf8(
            joined@,
        ).push(0),
        r.status.minor_status_string@.len() == 0,
        r.output_cred_handle is None,
        r.options@.len() == 0,
{
}

/// No context is initiated: the result says that it failed, with the text of that, and holds nothing.
pub proof fn answer_to_init_sec_context(
    ctx: &CallContext,
    arg: &crate::proc::ArgInitSecContext,
    text: &[String],
    r: ResInitSecContext,
    joined: String,
)
    requires
        call_ensures(handlers::init_sec_context, (ctx, arg, text), r),
        call_ensures(wrap::join, (text,), joined),
    ensures
        says_failure(r.status),
        text@.len() > 0 ==> r.status.major_status_string@ == vstd::utf8::encode_utf8(
            joined@,
        ).push(0),
        r.status.minor_status_string@.len() == 0,
        r.context_handle is None,
        r.output_token is None,
        r.options@.len() == 0,
{
}

/// No context is accepted: the result says that it failed, with the text of that, and holds nothing.
pub proof fn answer_to_accept_sec_context(
    ctx: &CallContext,
    arg: &crate::proc::ArgAcceptSecContext,
    text: &[String],
    r: ResAcceptSecContext,
    joined: String,
)
    requires
        call_ensures(handlers::accept_sec_context, (ctx, arg, text), r),
        call_ensures(wrap::join, (text,), joined),
    ensures
        says_failure(r.status),
        text@.len() > 0 ==> r.status.major_status_string@ == vstd::utf8::encode_utf8(
            joined@,
        ).push(0),
        r.status.minor_status_string@.len() == 0,
        r.context_handle is None,
        r.output_token is None,
        r.delegated_cred_handle is None,
        r.options@.len() == 0,
{
}

/// Nothing is signed: the result says that it failed, with the text of that, and holds nothing.
pub proof fn answer_to_get_mic(
    ctx: &CallContext,
    arg: &crate::proc::ArgGetMic,
    text: &[String],
    r: ResGetMic,
    joined: String,
)
    requires
        call_ensures(handlers::get_mic, (ctx, arg, text), r),
        call_ensures(wrap::join, (text,), joined),
    ensures
        says_failure(r.status),
        text@.len() > 0 ==> r.status.major_status_string@ == vstd::utf8::encode_utf8(
            joined@,
        ).push(0),
        r.status.minor_status_string@.len() == 0,
        r.context_handle is None,
        r.token_buffer@.len() == 0,
        r.qop_state is None,
{
}

/// Nothing is checked: the result says that it failed, with the text of that, and holds nothing.
pub proof fn answer_to_verify_mic(
    ctx: &CallContext,
    arg: &crate::proc::ArgVerifyMic,
    text: &[String],
    r: ResVerifyMic,
    joined: String,
)
    requires
        call_ensures(handlers::verify_mic, (ctx, arg, text), r),
        call_ensures(wrap::join, (text,), joined),
    ensures
        says_failure(r.status),
        text@.len() > 0 ==> r.status.major_status_string@ == vstd::utf8::encode_utf8(
            joined@,
        ).push(0),
        r.status.minor_status_string@.len() == 0,
        r.context_handle is None,
        r.qop_state is None,
{
}

/// Nothing is wrapped: the result says that it failed, with the text of that, and holds nothing.
pub proof fn answer_to_wrap_msg(
    ctx: &CallContext,
    arg: &crate::proc::ArgWrap,
    text: &[String],
    r: ResWrap,
    joined: String,
)
    requires
        call_ensures(handlers::wrap_msg, (ctx, arg, text), r),
        call_ensures(wrap::join, (text,), joined),
    ensures
        says_failure(r.status),
        text@.len() > 0 ==> r.status.major_status_string@ == vstd::utf8::encode_utf8(
            joined@,
        ).push(0),
        r.status.minor_status_string@.len() == 0,
        r.context_handle is None,
        r.conf_state is None,
        r.qop_state is None,
        r.token_buffer@.len() == 0,
{
}

/// Nothing is unwrapped: the result says that it failed, with the text of that, and holds nothing.
pub proof fn answer_to_unwrap_msg(
    ctx: &CallContext,
    arg: &crate::proc::ArgUnwrap,
    text: &[String],
    r: ResUnwrap,
    joined: String,
)
    requires
        call_ensures(handlers::unwrap_msg, (ctx, arg, text), r),
        call_ensures(wrap::join, (text,), joined),
    ensures
        says_failure(r.status),
        text@.len() > 0 ==> r.status.major_status_string@ == vstd::utf8::encode_utf8(
            joined@,
        ).push(0),
        r.status.minor_status_string@.len() == 0,
        r.context_handle is None,
        r.conf_state is None,
        r.qop_state is None,
        r.message_buffer@.len() == 0,
{
}

/// No size is given: the result says that it failed, with the text of that, and holds nothing.
pub proof fn answer_to_wrap_size_limit(
    ctx: &CallContext,
    arg: &crate::proc::ArgWrapSizeLimit,
    text: &[String],
    r: ResWrapSizeLimit,
    joined: String,
)
    requires
        call_ensures(handlers::wrap_size_limit, (ctx, arg, text), r),
        call_ensures(wrap::join, (text,), joined),
    ensures
        says_failure(r.status),
        text@.len() > 0 ==> r.status.major_status_string@ == vstd::utf8::encode_utf8(
            joined@,
        ).push(0),
        r.status.minor_status_string@.len() == 0,
        r.max_input_size == 0,
{
}

/// A handle that is to be released is not known here, or is none.
pub proof fn answer_to_release_handle(
    ctx: &CallContext,
    arg: &crate::proc::ArgReleaseHandle,
    text: &[String],
    r: ResReleaseHandle,
)
    requires
        call_ensures(handlers::release_handle, (ctx, arg, text), r),
    ensures
        arg.cred_handle is SecCtx || arg.cred_handle is Cred ==> r.status.major_status
            == GSS_S_UNAVAILABLE,
        arg.cred_handle is Extensions ==> r.status.major_status == GSS_S_CALL_BAD_STRUCTURE,
        r.status.minor_status == 0,
{
}

/// What the daemon has nothing to say to is answered with an empty success.
pub proof fn empty_answers(
    ctx: &CallContext,
    a: &crate::proc::ArgGetCallContext,
    w: ResGetCallContext,
    b: &crate::proc::ArgExportCred,
    x: ResExportCred,
    c: &crate::proc::ArgImportCred,
    y: ResImportCred,
    d: &crate::proc::ArgStoreCred,
    z: ResStoreCred,
)
    requires
        call_ensures(handlers::get_call_context, (ctx, a), w),
        call_ensures(handlers::export_cred, (ctx, b), x),
        call_ensures(handlers::import_cred, (ctx, c), y),
        call_ensures(handlers::store_cred, (ctx, d), z),
    ensures
        w.status.major_status == 0 && w.options@.len() == 0,
        x.status.major_status == 0 && x.exported_handle is None && x.options@.len() == 0,
        y.status.major_status == 0 && y.output_cred_handle is None && y.options@.len() == 0,
        z.status.major_status == 0 && z.elements_stored@.len() == 0 && z.options@.len() == 0,
{
}

// ---- statuses ----

/// A status carries its codes, its mechanism, and the texts of the codes that are not zero.
pub proof fn statuses_are_reported(
    major: u32,
    minor: u32,
    mech: Option<&[u8]>,
    major_text: &[String],
    minor_text: &[String],
    r: GssxStatus,
    a: String,
    b: String,
)
    requires
        call_ensures(conv::status_to_gssx, (major, minor, mech, major_text, minor_text), r),
        call_ensures(wrap::join, (major_text,), a),
        call_ensures(wrap::join, (minor_text,), b),
    ensures
        r.major_status == major,
        r.minor_status == minor,
        mech is Some ==> r.mech@ == mech->Some_0@,
        mech is None ==> r.mech@.len() == 0,
        major == 0 || major_text@.len() == 0 ==> r.major_status_string@.len() == 0,
        minor == 0 || minor_text@.len() == 0 ==> r.minor_status_string@.len() == 0,
        major != 0 && major_text@.len() > 0 ==> r.major_status_string@
            == vstd::utf8::encode_utf8(a@).push(0),
        minor != 0 && minor_text@.len() > 0 ==> r.minor_status_string@
            == vstd::utf8::encode_utf8(b@).push(0),
{
}

// ---- usages ----

/// On the wire a credential is for initiating with 1, for accepting with 2, and for both
/// with 3; in the mechanisms the numbers are 1, 2 and 0.
pub proof fn usages_on_the_wire(usage: i32, w: i32, u: i32)
    requires
        call_ensures(conv::cred_usage_to_gssx, (usage,), w),
        call_ensures(conv::gssx_to_cred_usage, (usage,), u),
    ensures
        usage == 0 ==> w == 3,
        usage == 1 ==> w == 1,
        usage == 2 ==> w == 2,
        usage < 0 || usage > 2 ==> w == 0,
        usage == 3 ==> u == 0,
        usage == 1 ==> u == 1,
        usage == 2 ==> u == 2,
{
}

/// Whether a context is exported in full, in part or for the kernel goes by the first option
/// of that name.
pub proof fn kinds_of_context_export(options: &[GssxOption], r: ExpCtxType, i: int)
    requires
        call_ensures(conv::exported_context_type, (options,), r),
    ensures
        (forall|k: int|
            0 <= k < options@.len() ==> (#[trigger] options@[k]).option@
                != conv::EXPORTED_CONTEXT_TYPE@) ==> r is Default,
        0 <= i < options@.len() && options@[i].option@ == conv::EXPORTED_CONTEXT_TYPE@ && (forall|
            k: int,
        |
            0 <= k < i ==> (#[trigger] options@[k]).option@ != conv::EXPORTED_CONTEXT_TYPE@) ==> {
            &&& options@[i].value@ == conv::LINUX_LUCID_V1@ ==> r is Lucid
            &&& options@[i].value@ != conv::LINUX_LUCID_V1@ ==> r is Partial
        },
{
    crate::gpm_laws::first_option_counts(options@, conv::EXPORTED_CONTEXT_TYPE@, i);
}

// ---- names ----

/// A name on the wire is what the mechanism displays and exports of it.
pub proof fn names_go_out(
    display: Result<(Vec<u8>, Vec<u8>), GssError>,
    exported: Result<Option<Vec<u8>>, GssError>,
    composite: Result<Option<Vec<u8>>, GssError>,
    r: Result<GssxName, GssError>,
)
    requires
        call_ensures(conv::name_to_gssx, (display, exported, composite), r),
    ensures
        r is Ok <==> display is Ok && exported is Ok && composite is Ok,
        display is Err ==> r->Err_0 == display->Err_0,
        display is Ok && exported is Err ==> r->Err_0 == exported->Err_0,
        display is Ok && exported is Ok && composite is Err ==> r->Err_0 == composite->Err_0,
        r is Ok ==> {
            &&& r->Ok_0.display_name@ == display->Ok_0.0@
            &&& r->Ok_0.name_type@ == display->Ok_0.1@
            &&& exported->Ok_0 is Some ==> r->Ok_0.exported_name@ == exported->Ok_0->Some_0@
            &&& exported->Ok_0 is None ==> r->Ok_0.exported_name@.len() == 0
            &&& composite->Ok_0 is Some ==> r->Ok_0.exported_composite_name@
                == composite->Ok_0->Some_0@
            &&& composite->Ok_0 is None ==> r->Ok_0.exported_composite_name@.len() == 0
            &&& r->Ok_0.name_attributes@.len() == 0
        },
{
}

/// A name from the wire is imported as its display name, and as its exported name where
/// that is empty.
pub proof fn names_come_in(g: &GssxName, r: NameImport)
    requires
        call_ensures(conv::gssx_to_name, (g,), r),
    ensures
        g.display_name@.len() > 0 ==> r.value@ == g.display_name@,
        g.display_name@.len() > 0 && g.name_type@.len() > 0 ==> r.name_type is Some
            && r.name_type->Some_0@ == g.name_type@,
        g.display_name@.len() > 0 && g.name_type@.len() == 0 ==> r.name_type is None,
        g.display_name@.len() == 0 ==> r.value@ == g.exported_name@ && r.name_type is Some
            && r.name_type->Some_0@ == NT_EXPORT_NAME_OID@,
{
}

/// A name to import must have something to import. After that the local user is looked for
/// where it is asked for, the name is canonicalized where there is a mechanism, and
/// otherwise it is described.
pub proof fn tasks_of_importing(
    arg: &ArgImportAndCanonName,
    r: NameTask,
    imported: Result<(), (u32, u32)>,
    next: NameTask,
    i: int,
)
    requires
        call_ensures(handlers::begin_import, (arg,), r),
        call_ensures(handlers::name_imported, (arg, imported), next),
    ensures
        arg.input_name.display_name@.len() == 0 && arg.input_name.exported_name@.len() == 0 ==> r
            is Done && r->Done_0.major == GSS_S_FAILURE && r->Done_0.minor == EINVAL as u32,
        arg.input_name.display_name@.len() > 0 ==> r is Import && r->Import_0.value@
            == arg.input_name.display_name@,
        arg.input_name.display_name@.len() == 0 && arg.input_name.exported_name@.len() > 0 ==> r
            is Import && r->Import_0.value@ == arg.input_name.exported_name@,
        imported is Err ==> next is Done && next->Done_0.major == imported->Err_0.0
            && next->Done_0.minor == imported->Err_0.1 && next->Done_0.output_name is None,
        imported is Ok && 0 <= i < arg.options@.len() && arg.options@[i].option@
            == LOCALNAME_OPTION@ ==> next is Localname && (next->Localname_0 is Some
            <==> arg.mech@.len() > 0),
        imported is Ok && next is Localname && arg.mech@.len() > 0 ==> next->Localname_0->Some_0@
            == arg.mech@,
        imported is Ok && (forall|k: int|
            0 <= k < arg.options@.len() ==> (#[trigger] arg.options@[k]).option@
                != LOCALNAME_OPTION@) ==> {
            &&& arg.mech@.len() > 0 ==> next is Canonicalize && next->Canonicalize_0@ == arg.mech@
            &&& arg.mech@.len() == 0 ==> next is Describe
        },
{
    crate::gpm_laws::first_option_counts(arg.options@, LOCALNAME_OPTION@, i);
}

/// The local user, or the name that was described, is the outcome; every failure is one.
pub proof fn outcomes_of_importing(
    found: Result<Vec<u8>, (u32, u32)>,
    a: NameTask,
    done: Result<(), (u32, u32)>,
    b: NameTask,
    name: Result<GssxName, (u32, u32)>,
    c: NameTask,
)
    requires
        call_ensures(handlers::localname_found, (found,), a),
        call_ensures(handlers::name_canonicalized, (done,), b),
        call_ensures(handlers::name_described, (name,), c),
    ensures
        found is Ok ==> a is Done && a->Done_0.major == GSS_S_COMPLETE && a->Done_0.localname
            == Some(found->Ok_0) && a->Done_0.output_name is None,
        found is Err ==> a is Done && a->Done_0.major == found->Err_0.0 && a->Done_0.minor
            == found->Err_0.1 && a->Done_0.localname is None,
        done is Ok ==> b is Describe,
        done is Err ==> b is Done && b->Done_0.major == done->Err_0.0 && b->Done_0.minor
            == done->Err_0.1,
        name is Ok ==> c is Done && c->Done_0.major == GSS_S_COMPLETE && c->Done_0.output_name
            == Some(name->Ok_0) && c->Done_0.localname is None,
        name is Err ==> c is Done && c->Done_0.major == name->Err_0.0 && c->Done_0.minor
            == name->Err_0.1 && c->Done_0.output_name is None,
{
}

/// The result of importing carries the outcome: the status for the mechanism that was asked
/// for, the name, and the local user as an option.
pub proof fn results_of_importing(
    ctx: &CallContext,
    arg: &ArgImportAndCanonName,
    outcome: NameOutcome,
    a: &[String],
    b: &[String],
    r: ResImportAndCanonName,
)
    requires
        call_ensures(handlers::import_and_canon_name, (ctx, arg, outcome, a, b), r),
    ensures
        r.status.major_status == outcome.major,
        r.status.minor_status == outcome.minor,
        r.status.mech@ == arg.mech@,
        r.output_name == outcome.output_name,
        outcome.localname is None ==> r.options@.len() == 0,
        outcome.localname is Some ==> r.options@.len() == 1 && r.options@[0].option@
            == LOCALNAME_OPTION@ && r.options@[0].value@ == outcome.localname->Some_0@,
{
}

// ---- mechanisms ----

proof fn lemma_before(facts: Seq<MechFacts>, n: int)
    requires
        0 <= n <= facts.len(),
        forall|k: int| 0 <= k < n ==> !((#[trigger] facts[k]) is Failed),
        n < facts.len() ==> facts[n] is Failed,
    ensures
        handlers::before_failure(facts) == n,
    decreases facts.len(),
{
    if facts.len() > 0 && n > 0 {
        let t = facts.skip(1);
        assert(!(facts[0] is Failed));
        assert forall|k: int| 0 <= k < n - 1 implies !((#[trigger] t[k]) is Failed) by {
            assert(t[k] == facts[k + 1]);
        }
        if n < facts.len() {
            assert(t[n - 1] == facts[n]);
        }
        lemma_before(t, n - 1);
    }
}

proof fn lemma_before_bounds(facts: Seq<MechFacts>)
    ensures
        0 <= handlers::before_failure(facts) <= facts.len(),
    decreases facts.len(),
{
    if facts.len() > 0 && !(facts[0] is Failed) {
        lemma_before_bounds(facts.skip(1));
    }
}

proof fn lemma_known(facts: Seq<MechFacts>, n: int, i: int)
    requires
        0 <= i < n <= facts.len(),
    ensures
        facts[i] matches MechFacts::Known(d) ==> handlers::known_mechs(facts, n).contains(d),
    decreases n,
{
    if let MechFacts::Known(d) = facts[i] {
        let all = handlers::known_mechs(facts, n);
        if i < n - 1 {
            lemma_known(facts, n - 1, i);
            let before = handlers::known_mechs(facts, n - 1);
            let k = choose|k: int| 0 <= k < before.len() && before[k] == d;
            assert(all[k] == d);
        } else {
            assert(all.last() == d);
        }
    }
}

proof fn lemma_known_from(facts: Seq<MechFacts>, n: int, k: int)
    requires
        0 <= n <= facts.len(),
        0 <= k < handlers::known_mechs(facts, n).len(),
    ensures
        exists|i: int|
            0 <= i < n && #[trigger] facts[i] == MechFacts::Known(
                handlers::known_mechs(facts, n)[k],
            ),
    decreases n,
{
    let before = handlers::known_mechs(facts, n - 1);
    if k < before.len() {
        lemma_known_from(facts, n - 1, k);
        let i = choose|i: int|
            0 <= i < n - 1 && #[trigger] facts[i] == MechFacts::Known(before[k]);
        assert(facts[i] == MechFacts::Known(handlers::known_mechs(facts, n)[k]));
    } else {
        assert(facts[n - 1] == MechFacts::Known(handlers::known_mechs(facts, n)[k]));
    }
}

/// Each mechanism that is reported was found out about, and is reported part by part.
pub proof fn mechanisms_that_are_reported(facts: &Vec<MechFacts>, r: Survey, k: int)
    requires
        call_ensures(handlers::survey, (facts,), r),
        0 <= k < r.mechs@.len(),
    ensures
        exists|i: int|
            0 <= i < facts@.len() && (#[trigger] facts@[i] matches MechFacts::Known(d) && {
                let m = r.mechs@[k];
                &&& m.mech@ == d.mech@
                &&& m.name_types@.len() == d.name_types@.len()
                &&& m.mech_attrs@.len() == d.mech_attrs@.len()
                &&& m.known_mech_attrs@.len() == d.known_mech_attrs@.len()
                &&& m.saslname_sasl_mech_name@ == d.sasl_mech_name@
                &&& m.saslname_mech_name@ == d.mech_name@
                &&& m.saslname_mech_desc@ == d.mech_desc@
            }),
{
    let n = handlers::before_failure(facts@);
    let known = handlers::known_mechs(facts@, n);
    lemma_before_bounds(facts@);
    lemma_known_from(facts@, n, k);
    let i = choose|i: int| 0 <= i < n && #[trigger] facts@[i] == MechFacts::Known(known[k]);
    let m = r.mechs@[k];
    let d = known[k];
    assert(handlers::is_mech_info(m, d));
    assert(handlers::opaque_views(m.name_types@).len() == m.name_types@.len());
    assert(handlers::opaque_views(m.mech_attrs@).len() == m.mech_attrs@.len());
    assert(handlers::opaque_views(m.known_mech_attrs@).len() == m.known_mech_attrs@.len());
    assert(crate::octets::views(d.name_types@).len() == d.name_types@.len());
    assert(crate::octets::views(d.mech_attrs@).len() == d.mech_attrs@.len());
    assert(crate::octets::views(d.known_mech_attrs@).len() == d.known_mech_attrs@.len());
    assert(facts@[i] matches MechFacts::Known(x) && x == d);
}

/// Every mechanism that was found out about before a failure is reported, and the first
/// failure ends the survey and is its status. One that is left out is no failure.
pub proof fn mechanisms_are_surveyed(facts: &Vec<MechFacts>, r: Survey, n: int, i: int)
    requires
        call_ensures(handlers::survey, (facts,), r),
        0 <= n <= facts@.len(),
        forall|k: int| 0 <= k < n ==> !((#[trigger] facts@[k]) is Failed),
        n < facts@.len() ==> facts@[n] is Failed,
    ensures
        n == facts@.len() ==> r.failed is None,
        n < facts@.len() ==> r.failed == Some((facts@[n]->Failed_0, facts@[n]->Failed_1)),
        0 <= i < n && facts@[i] is Known ==> exists|k: int|
            0 <= k < r.mechs@.len() && (#[trigger] r.mechs@[k]).mech@
                == facts@[i]->Known_0.mech@,
        r.mechs@.len() <= n,
{
    lemma_before(facts@, n);
    let known = handlers::known_mechs(facts@, n);
    lemma_known_len(facts@, n);
    if 0 <= i < n && facts@[i] is Known {
        lemma_known(facts@, n, i);
        let d = facts@[i]->Known_0;
        let k = choose|k: int| 0 <= k < known.len() && known[k] == d;
        assert(handlers::is_mech_info(r.mechs@[k], known[k]));
    }
}

proof fn lemma_known_len(facts: Seq<MechFacts>, n: int)
    requires
        0 <= n,
    ensures
        handlers::known_mechs(facts, n).len() <= n,
    decreases n,
{
    if n > 0 {
        lemma_known_len(facts, n - 1);
    }
}

proof fn lemma_with_oids(set: Seq<Seq<u8>>, more: Seq<Seq<u8>>, n: int, i: int, x: Seq<u8>)
    requires
        0 <= n <= more.len(),
    ensures
        0 <= i < n ==> handlers::with_oids(set, more, n).contains(more[i]),
        set.contains(x) ==> handlers::with_oids(set, more, n).contains(x),
    decreases n,
{
    if n > 0 {
        lemma_with_oids(set, more, n - 1, i, x);
        let before = handlers::with_oids(set, more, n - 1);
        let after = handlers::with_oids(set, more, n);
        if !before.contains(more[n - 1]) {
            assert(after.last() == more[n - 1]);
            if before.contains(x) {
                let k = choose|k: int| 0 <= k < before.len() && before[k] == x;
                assert(after[k] == x);
            }
            if 0 <= i < n - 1 {
                let k = choose|k: int| 0 <= k < before.len() && before[k] == more[i];
                assert(after[k] == more[i]);
            }
        }
    }
}

proof fn lemma_union(known: Seq<MechDetails>, n: int, i: int, j: int)
    requires
        0 <= i < n <= known.len(),
    ensures
        0 <= j < known[i].mech_attrs@.len() ==> handlers::attr_union(known, n).contains(
            known[i].mech_attrs@[j]@,
        ),
        0 <= j < known[i].known_mech_attrs@.len() ==> handlers::attr_union(known, n).contains(
            known[i].known_mech_attrs@[j]@,
        ),
    decreases n,
{
    let d = known[n - 1];
    let own = crate::octets::views(d.mech_attrs@);
    let all = crate::octets::views(d.known_mech_attrs@);
    let before = handlers::attr_union(known, n - 1);
    let mid = handlers::with_oids(before, own, own.len() as int);
    let e = known[i];
    if i < n - 1 {
        lemma_union(known, n - 1, i, j);
    }
    if 0 <= j < e.mech_attrs@.len() {
        let x = e.mech_attrs@[j]@;
        lemma_with_oids(before, own, own.len() as int, j, x);
        if i == n - 1 {
            assert(own[j] == x);
        }
        lemma_with_oids(mid, all, all.len() as int, 0, x);
    }
    if 0 <= j < e.known_mech_attrs@.len() {
        let x = e.known_mech_attrs@[j]@;
        lemma_with_oids(before, own, own.len() as int, 0, x);
        lemma_with_oids(mid, all, all.len() as int, j, x);
        if i == n - 1 {
            assert(all[j] == x);
        }
    }
}

/// Each attribute of a mechanism is to be described, its own and those that it knows, and
/// none twice.
pub proof fn attributes_to_describe(facts: &Vec<MechFacts>, r: Survey, n: int, i: int, j: int)
    requires
        call_ensures(handlers::survey, (facts,), r),
        0 <= i < n <= facts@.len(),
        forall|k: int| 0 <= k < n ==> !((#[trigger] facts@[k]) is Failed),
        n < facts@.len() ==> facts@[n] is Failed,
        facts@[i] is Known,
    ensures
        0 <= j < facts@[i]->Known_0.mech_attrs@.len() ==> crate::octets::views(r.attrs@).contains(
            facts@[i]->Known_0.mech_attrs@[j]@,
        ),
        0 <= j < facts@[i]->Known_0.known_mech_attrs@.len() ==> crate::octets::views(
            r.attrs@,
        ).contains(facts@[i]->Known_0.known_mech_attrs@[j]@),
        crate::octets::views(r.attrs@).no_duplicates(),
{
    lemma_before(facts@, n);
    let known = handlers::known_mechs(facts@, n);
    lemma_known(facts@, n, i);
    let d = facts@[i]->Known_0;
    let k = choose|k: int| 0 <= k < known.len() && known[k] == d;
    lemma_union(known, known.len() as int, k, j);
    handlers::attributes_stand_once(known, known.len() as int);
}

proof fn lemma_described(attrs: Seq<AttrFacts>, n: int)
    requires
        0 <= n <= attrs.len(),
        forall|k: int| 0 <= k < n ==> !((#[trigger] attrs[k]) is Failed),
        n < attrs.len() ==> attrs[n] is Failed,
    ensures
        handlers::described(attrs) == n,
    decreases attrs.len(),
{
    if attrs.len() > 0 && n > 0 {
        let t = attrs.skip(1);
        assert(!(attrs[0] is Failed));
        assert forall|k: int| 0 <= k < n - 1 implies !((#[trigger] t[k]) is Failed) by {
            assert(t[k] == attrs[k + 1]);
        }
        if n < attrs.len() {
            assert(t[n - 1] == attrs[n]);
        }
        lemma_described(t, n - 1);
    }
}

/// The result lists the mechanisms of the survey and describes the attributes, as far as no
/// failure stands in the way; the first failure is its status.
pub proof fn mechanisms_are_indicated(
    ctx: &CallContext,
    arg: &ArgIndicateMechs,
    survey: Survey,
    attrs: &Vec<AttrFacts>,
    a: &[String],
    b: &[String],
    r: ResIndicateMechs,
    s: (u32, u32),
    n: int,
    i: int,
)
    requires
        call_ensures(handlers::indicate_mechs, (ctx, arg, survey, attrs, a, b), r),
        call_ensures(handlers::mechs_status, (&survey, attrs), s),
        0 <= n <= attrs@.len(),
        forall|k: int| 0 <= k < n ==> !((#[trigger] attrs@[k]) is Failed),
        n < attrs@.len() ==> attrs@[n] is Failed,
    ensures
        r.status.major_status == s.0 && r.status.minor_status == s.1,
        survey.failed is Some ==> s == survey.failed->Some_0,
        survey.failed is None && n == attrs@.len() ==> s == (GSS_S_COMPLETE, 0u32),
        survey.failed is None && n < attrs@.len() ==> s == (
            attrs@[n]->Failed_0,
            attrs@[n]->Failed_1,
        ),
        r.mechs@ == survey.mechs@,
        survey.failed is Some ==> r.mech_attr_descs@.len() == 0,
        survey.failed is None ==> r.mech_attr_descs@.len() == n,
        survey.failed is None && 0 <= i < n ==> {
            let d = r.mech_attr_descs@[i];
            &&& d.attr@ == attrs@[i]->attr@
            &&& d.name@ == attrs@[i]->name@
            &&& d.short_desc@ == attrs@[i]->short_desc@
            &&& d.long_desc@ == attrs@[i]->long_desc@
        },
{
    lemma_described(attrs@, n);
    if survey.failed is None && 0 <= i < n {
        assert(handlers::is_mech_attr(r.mech_attr_descs@[i], attrs@[i]));
    }
}

// ---- credentials and contexts ----

/// A credential on the wire is its sealed form, with what is known of it for each mechanism
/// that could be inquired.
pub proof fn credentials_go_out(
    name: Option<GssxName>,
    infos: Vec<(Vec<u8>, Option<ElementInfo>)>,
    sealed: Vec<u8>,
    r: GssxCred,
    i: int,
    w: i32,
)
    requires
        call_ensures(conv::export_gssx_cred, (name, infos, sealed), r),
        forall|k: int| 0 <= k < infos@.len() ==> (#[trigger] infos@[k]).1 is Some,
        0 <= i < infos@.len() ==> call_ensures(
            conv::cred_usage_to_gssx,
            (infos@[i].1->Some_0.usage,),
            w,
        ),
    ensures
        r.cred_handle_reference@ == sealed@,
        !r.needs_release,
        name is Some ==> r.desired_name == name->Some_0,
        r.elements@.len() == infos@.len(),
        0 <= i < infos@.len() ==> {
            let e = r.elements@[i];
            let x = infos@[i].1->Some_0;
            &&& e.mech@ == infos@[i].0@
            &&& x.name is Some ==> e.mn == x.name->Some_0
            &&& e.initiator_time_rec == x.initiator_lifetime
            &&& e.acceptor_time_rec == x.acceptor_lifetime
            &&& e.cred_usage == w
        },
{
    lemma_inquired(infos@, infos@.len() as int, i);
    if 0 <= i < infos@.len() {
        let some = conv::inquired(infos@, infos@.len() as int);
        assert(conv::is_element(r.elements@[i], some[i].0, some[i].1));
    }
}

proof fn lemma_inquired(infos: Seq<(Vec<u8>, Option<ElementInfo>)>, n: int, i: int)
    requires
        0 <= n <= infos.len(),
        forall|k: int| 0 <= k < n ==> (#[trigger] infos[k]).1 is Some,
    ensures
        conv::inquired(infos, n).len() == n,
        0 <= i < n ==> conv::inquired(infos, n)[i] == (infos[i].0@, infos[i].1->Some_0),
    decreases n,
{
    if n > 0 {
        lemma_inquired(infos, n - 1, i);
        assert(infos[n - 1].1 is Some);
    }
}

/// A credential from the wire is unsealed where it is sealed; what cannot be unsealed is
/// none.
pub proof fn credentials_come_in(
    cred: &GssxCred,
    sealed: Option<&[u8]>,
    unsealed: Option<Result<Vec<u8>, SealError>>,
    r: Option<Vec<u8>>,
)
    requires
        call_ensures(conv::sealed_cred, (cred,), sealed),
        call_ensures(conv::import_gssx_cred, (unsealed,), r),
    ensures
        sealed is Some <==> cred.cred_handle_reference@.len() > 0,
        sealed is Some ==> sealed->Some_0@ == cred.cred_handle_reference@,
        unsealed is None ==> r is None,
        unsealed is Some && unsealed->Some_0 is Err ==> r is None,
        unsealed is Some && unsealed->Some_0 is Ok ==> r == Some(unsealed->Some_0->Ok_0),
{
}

/// The failure to seal is a failure without a minor status, and says why.
pub proof fn sealing_that_fails(e: &SealError, r: GssError)
    requires
        call_ensures(conv::seal_error, (e,), r),
    ensures
        r.major == GSS_S_FAILURE,
        r.minor == 0,
        r.messages@.len() == 1,
        r.messages@[0]@ == "cred handle sealing failed: "@ + e.text(),
{
    let t = wrap::texts(r.messages@);
    assert(t.len() == r.messages@.len());
    assert(t[0] == r.messages@[0]@);
}

/// What is told of a context: each part comes from the part of that name. A partial context
/// is told as initiated here and not open, even where it cannot be inquired; one for the
/// kernel is not offered.
pub proof fn contexts_are_told(
    info: Result<CtxInfo, GssError>,
    kind: ExpCtxType,
    mech: Option<&[u8]>,
    r: Result<GssxCtx, GssError>,
)
    requires
        call_ensures(conv::context_info, (info, kind, mech), r),
    ensures
        kind is Lucid ==> r is Err,
        kind is Lucid && info is Ok ==> r->Err_0.major == GSS_S_FAILURE && r->Err_0.minor
            == ENOSYS as u32,
        !(kind is Partial) && info is Err ==> r is Err && r->Err_0 == info->Err_0,
        kind is Partial ==> r is Ok && r->Ok_0.locally_initiated && !r->Ok_0.open,
        kind is Partial && mech is Some ==> r->Ok_0.mech@ == mech->Some_0@,
        kind is Default && info is Ok ==> r is Ok && r->Ok_0.mech@ == info->Ok_0.mech@
            && r->Ok_0.locally_initiated == info->Ok_0.locally_initiated && r->Ok_0.open
            == info->Ok_0.open,
        r is Ok && info is Ok ==> {
            &&& r->Ok_0.lifetime == info->Ok_0.lifetime
            &&& r->Ok_0.ctx_flags == info->Ok_0.flags
            &&& info->Ok_0.src_name is Some ==> r->Ok_0.src_name == info->Ok_0.src_name->Some_0
            &&& info->Ok_0.targ_name is Some ==> r->Ok_0.targ_name == info->Ok_0.targ_name->Some_0
        },
        r is Ok && info is Err ==> r->Ok_0.lifetime == 0 && r->Ok_0.ctx_flags == 0
            && r->Ok_0.src_name.display_name@.len() == 0 && r->Ok_0.targ_name.display_name@.len()
            == 0,
        kind is Partial && mech is None ==> r->Ok_0.mech@.len() == 0,
        r is Ok ==> !r->Ok_0.needs_release && r->Ok_0.exported_context_token@.len() == 0
            && r->Ok_0.state@.len() == 0 && r->Ok_0.options@.len() == 0,
{
}

/// An exported context carries its token, and is otherwise as it was.
pub proof fn contexts_are_exported(
    ctx: GssxCtx,
    token: Result<Vec<u8>, GssError>,
    r: Result<GssxCtx, GssError>,
)
    requires
        call_ensures(conv::export_gssx_ctx, (ctx, token), r),
    ensures
        token is Err ==> r is Err && r->Err_0 == token->Err_0,
        token is Ok ==> r is Ok && r->Ok_0.exported_context_token@ == token->Ok_0@,
        r is Ok ==> {
            let c = r->Ok_0;
            &&& c.state == ctx.state
            &&& c.needs_release == ctx.needs_release
            &&& c.mech == ctx.mech
            &&& c.src_name == ctx.src_name
            &&& c.targ_name == ctx.targ_name
            &&& c.lifetime == ctx.lifetime
            &&& c.ctx_flags == ctx.ctx_flags
            &&& c.locally_initiated == ctx.locally_initiated
            &&& c.open == ctx.open
            &&& c.options == ctx.options
        },
{
}

} // verus!
