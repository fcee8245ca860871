//! What a client asks the daemon, what it makes of the replies, and how it keeps its
//! connection.

use vstd::prelude::*;

use crate::client;
use crate::client::{
    Action, ClientConn, Drawn, Event, GpmError, Identity, IoFailure, Transaction,
};
use crate::consts::{
    EINVAL, EIO, EMSGSIZE, ENOTSUP, GSS_C_ACCEPT, GSS_C_BOTH, GSS_C_GSS_CODE, GSS_C_INDEFINITE,
    GSS_C_INITIATE, GSS_C_MECH_CODE, GSS_S_BAD_NAME, GSS_S_BAD_STATUS, GSS_S_COMPLETE,
    GSS_S_FAILURE, GSS_S_UNAVAILABLE, NT_EXPORT_NAME_OID,
};
use crate::frame::FrameError;
use crate::gpm;
use crate::gpm::{
    AcceptSecContext, AcquireCred, InitSecContext, InquireContext, InquireCred,
    InquireCredByMech, InquireName, ACQUIRE_IMPERSONATE_NAME, ACQUIRE_TYPE_OPTION,
    CRED_SYNC_DEFAULT, CRED_SYNC_OPTION, CRED_SYNC_PAYLOAD, LOCALNAME_OPTION,
};
use crate::gssx::{
    GssxBuffer, GssxCb, GssxCred, GssxCtx, GssxName, GssxOption, GssxStatus,
};
use crate::proc::{
    ArgAcceptSecContext, ArgAcquireCred, ArgGetMic, ArgImportAndCanonName, ArgInitSecContext,
    ArgReleaseHandle, ArgUnwrap, ArgVerifyMic, ArgWrap, ArgWrapSizeLimit, GssxProc,
    ResAcceptSecContext, ResAcquireCred, ResGetMic, ResImportAndCanonName, ResIndicateMechs,
    ResInitSecContext, ResReleaseHandle, ResUnwrap, ResVerifyMic, ResWrap, ResWrapSizeLimit,
};
use crate::rpc;
use crate::wire_laws;
use crate::xdr;
use crate::xdr::Xdr;

verus! {

// ---- options ----

/// The first option with a key counts.
pub proof fn first_option_counts(options: Seq<GssxOption>, key: Seq<u8>, i: int)
    ensures
        0 <= i < options.len() && options[i].option@ == key && (forall|k: int|
            0 <= k < i ==> (#[trigger] options[k]).option@ != key) ==> gpm::option_value(
            options,
            key,
        ) == Some(options[i].value@),
        0 <= i < options.len() && options[i].option@ == key ==> gpm::option_value(
            options,
            key,
        ) is Some,
        (forall|k: int| 0 <= k < options.len() ==> (#[trigger] options[k]).option@ != key)
            ==> gpm::option_value(options, key) is None,
    decreases options.len(),
{
    if options.len() > 0 && options[0].option@ != key {
        let t = options.skip(1);
        first_option_counts(t, key, i - 1);
        if 0 < i < options.len() {
            assert(t[i - 1] == options[i]);
        }
        if 0 < i < options.len() && (forall|k: int|
            0 <= k < i ==> (#[trigger] options[k]).option@ != key) {
            assert forall|k: int| 0 <= k < i - 1 implies (#[trigger] t[k]).option@ != key by {
                assert(t[k] == options[k + 1]);
            }
        }
        if forall|k: int| 0 <= k < options.len() ==> (#[trigger] options[k]).option@ != key {
            assert forall|k: int| 0 <= k < t.len() implies (#[trigger] t[k]).option@ != key by {
                assert(t[k] == options[k + 1]);
            }
        }
    }
}

/// An option has the key and the value that it was made of, and is found by its key.
pub proof fn options_are_found(
    key: &[u8],
    v: &[u8],
    o: GssxOption,
    options: &[GssxOption],
    r: Option<&GssxBuffer>,
    i: int,
)
    requires
        call_ensures(gpm::option, (key, v), o),
        call_ensures(gpm::find_option, (options, key), r),
    ensures
        o.option@ == key@ && o.value@ == v@,
        0 <= i < options@.len() && options@[i].option@ == key@ && (forall|k: int|
            0 <= k < i ==> (#[trigger] options@[k]).option@ != key@) ==> r is Some && r->Some_0@
            == options@[i].value@,
        (forall|k: int| 0 <= k < options@.len() ==> (#[trigger] options@[k]).option@ != key@)
            ==> r is None,
{
    first_option_counts(options@, key@, i);
}

/// The keys and values that both ends must agree on are their names, with a NUL.
pub proof fn names_of_options(i: int)
    ensures
        ACQUIRE_TYPE_OPTION@.len() == "acquire_type"@.len() + 1,
        0 <= i < "acquire_type"@.len() ==> ACQUIRE_TYPE_OPTION@[i] == "acquire_type"@[i] as u8,
        ACQUIRE_IMPERSONATE_NAME@.len() == "impersonate_name"@.len() + 1,
        0 <= i < "impersonate_name"@.len() ==> ACQUIRE_IMPERSONATE_NAME@[i]
            == "impersonate_name"@[i] as u8,
        CRED_SYNC_OPTION@.len() == "sync_modified_creds"@.len() + 1,
        0 <= i < "sync_modified_creds"@.len() ==> CRED_SYNC_OPTION@[i]
            == "sync_modified_creds"@[i] as u8,
        CRED_SYNC_DEFAULT@.len() == "default"@.len() + 1,
        0 <= i < "default"@.len() ==> CRED_SYNC_DEFAULT@[i] == "default"@[i] as u8,
        CRED_SYNC_PAYLOAD@.len() == "sync_creds"@.len() + 1,
        0 <= i < "sync_creds"@.len() ==> CRED_SYNC_PAYLOAD@[i] == "sync_creds"@[i] as u8,
        gpm::STD_MAJ_ERROR_STR@.len() == "Internal gssproxy error"@.len() + 1,
        0 <= i < "Internal gssproxy error"@.len() ==> gpm::STD_MAJ_ERROR_STR@[i]
            == "Internal gssproxy error"@[i] as u8,
        gpm::STD_MAJ_ERROR_STR@.last() == 0,
        LOCALNAME_OPTION@.len() == "localname"@.len() + 1,
        0 <= i < "localname"@.len() ==> LOCALNAME_OPTION@[i] == "localname"@[i] as u8,
        crate::server::conv::EXPORTED_CONTEXT_TYPE@.len() == "exported_context_type"@.len() + 1,
        0 <= i < "exported_context_type"@.len() ==> crate::server::conv::EXPORTED_CONTEXT_TYPE@[i]
            == "exported_context_type"@[i] as u8,
        crate::server::conv::LINUX_LUCID_V1@.len() == "linux_lucid_v1"@.len() + 1,
        0 <= i < "linux_lucid_v1"@.len() ==> crate::server::conv::LINUX_LUCID_V1@[i]
            == "linux_lucid_v1"@[i] as u8,
        ACQUIRE_TYPE_OPTION@.last() == 0 && ACQUIRE_IMPERSONATE_NAME@.last() == 0
            && CRED_SYNC_OPTION@.last() == 0,
        CRED_SYNC_DEFAULT@.last() == 0 && CRED_SYNC_PAYLOAD@.last() == 0
            && LOCALNAME_OPTION@.last() == 0,
        crate::server::conv::EXPORTED_CONTEXT_TYPE@.last() == 0
            && crate::server::conv::LINUX_LUCID_V1@.last() == 0,
{
    reveal_strlit("acquire_type");
    reveal_strlit("impersonate_name");
    reveal_strlit("sync_modified_creds");
    reveal_strlit("default");
    reveal_strlit("sync_creds");
    reveal_strlit("localname");
    reveal_strlit("exported_context_type");
    reveal_strlit("linux_lucid_v1");
    reveal_strlit("Internal gssproxy error");
}

// ---- statuses ----

/// A status that was saved is the one that was given.
pub proof fn statuses_are_saved(
    saved: &mut Option<GssxStatus>,
    s: &GssxStatus,
    own: &mut Option<GssxStatus>,
    code: u32,
    text: &str,
)
    requires
        call_ensures(gpm::save_status, (saved, s), ()),
        call_ensures(gpm::save_internal_status, (own, code, text), ()),
    ensures
        *final(saved) is Some,
        wire_laws::wire((*final(saved))->Some_0) == wire_laws::wire(*s),
        *final(own) is Some,
        (*final(own))->Some_0.major_status == GSS_S_FAILURE,
        (*final(own))->Some_0.minor_status == code,
        (*final(own))->Some_0.minor_status_string@ == vstd::utf8::encode_utf8(text@).push(0),
        (*final(own))->Some_0.major_status_string@ == gpm::STD_MAJ_ERROR_STR@,
        (*final(own))->Some_0.mech@.len() == 0 && (*final(own))->Some_0.server_ctx@.len() == 0
            && (*final(own))->Some_0.options@.len() == 0,
{
}

/// A saved text is displayed for its own code, the major one and the minor one each for its
/// kind; a text of the mechanism is displayed once.
pub proof fn saved_texts_are_displayed(
    saved: &Option<GssxStatus>,
    value: u32,
    kind: i32,
    context: u32,
    r: (u32, u32, Vec<u8>),
)
    requires
        call_ensures(gpm::display_status, (saved, value, kind, context), r),
    ensures
        kind != GSS_C_GSS_CODE && kind != GSS_C_MECH_CODE ==> r.0 == GSS_S_BAD_STATUS && r.1
            == EINVAL && r.2@.len() == 0,
        (kind == GSS_C_GSS_CODE || kind == GSS_C_MECH_CODE) && *saved is None ==> r.0
            == GSS_S_UNAVAILABLE && r.1 == 0 && r.2@.len() == 0,
        kind == GSS_C_GSS_CODE && *saved is Some && (*saved)->Some_0.major_status == value
            && (*saved)->Some_0.major_status_string@.len() > 0 ==> r.0 == GSS_S_COMPLETE && r.2@
            == (*saved)->Some_0.major_status_string@,
        kind == GSS_C_GSS_CODE && *saved is Some && (*saved)->Some_0.major_status != value
            ==> r.0 == GSS_S_UNAVAILABLE && r.2@.len() == 0,
        kind == GSS_C_MECH_CODE && *saved is Some && (*saved)->Some_0.minor_status == value
            && (*saved)->Some_0.minor_status_string@.len() > 0 && context == 0 ==> r.0
            == GSS_S_COMPLETE && r.2@ == (*saved)->Some_0.minor_status_string@,
        kind == GSS_C_MECH_CODE && *saved is Some && (*saved)->Some_0.minor_status == value
            && (*saved)->Some_0.minor_status_string@.len() > 0 && context != 0 ==> r.0
            == GSS_S_FAILURE && r.1 == EINVAL && r.2@.len() == 0,
        kind == GSS_C_MECH_CODE && *saved is Some && (*saved)->Some_0.minor_status != value
            ==> r.0 == GSS_S_UNAVAILABLE && r.2@.len() == 0,
{
}

// ---- names ----

/// A name is displayed by its display name, and where that is empty by its exported name; it
/// is displayed the same the next time.
pub proof fn names_are_displayed(n: &mut GssxName, r: (u32, u32, Vec<u8>, Vec<u8>))
    requires
        call_ensures(gpm::display_name, (n,), r),
    ensures
        old(n).display_name@.len() > 0 ==> r.0 == GSS_S_COMPLETE && r.2@ == old(n).display_name@
            && r.3@ == old(n).name_type@,
        old(n).display_name@.len() == 0 && old(n).exported_name@.len() > 0 ==> r.0
            == GSS_S_COMPLETE && r.2@ == old(n).exported_name@ && r.3@ == NT_EXPORT_NAME_OID@
            && final(n).display_name@ == old(n).exported_name@ && final(n).name_type@
            == NT_EXPORT_NAME_OID@,
        old(n).display_name@.len() == 0 && old(n).exported_name@.len() == 0 ==> r.0
            == GSS_S_BAD_NAME && r.2@.len() == 0 && r.3@.len() == 0 && *final(n) == *old(n),
        old(n).display_name@.len() > 0 ==> final(n).display_name@ == old(n).display_name@
            && final(n).name_type@ == old(n).name_type@,
        final(n).exported_name == old(n).exported_name,
        r.1 == 0,
{
}

/// A name to send has the bytes and the type that are given, and what is known of a name is
/// its type, whether it has an exported form, and the keys of its attributes.
pub proof fn names_are_described(
    value: &[u8],
    kind: &[u8],
    made: GssxName,
    n: &GssxName,
    r: InquireName,
    i: int,
)
    requires
        call_ensures(gpm::import_name, (value, kind), made),
        call_ensures(gpm::inquire_name, (n,), r),
    ensures
        made.display_name@ == value@ && made.name_type@ == kind@,
        made.exported_name@.len() == 0 && made.exported_composite_name@.len() == 0,
        made.name_attributes@.len() == 0,
        r.name_is_mn <==> n.exported_name@.len() > 0,
        r.name_type@ == n.name_type@,
        r.attrs@.len() == n.name_attributes@.len(),
        0 <= i < r.attrs@.len() ==> r.attrs@[i]@ == n.name_attributes@[i].attr@,
{
    let v = crate::octets::views(r.attrs@);
    assert(v.len() == r.attrs@.len());
    if 0 <= i < v.len() {
        assert(v[i] == r.attrs@[i]@);
    }
}

/// Names with the same display name are the same where they have the same type. A name
/// that cannot be displayed cannot be compared.
pub proof fn names_are_compared(a: &GssxName, b: &GssxName, r: (u32, u32, bool))
    requires
        call_ensures(gpm::compare_name, (a, b), r),
    ensures
        a.display_name@.len() == 0 && a.exported_name@.len() == 0 ==> r == (
            GSS_S_BAD_NAME,
            0u32,
            false,
        ),
        b.display_name@.len() == 0 && b.exported_name@.len() == 0 ==> r == (
            GSS_S_BAD_NAME,
            0u32,
            false,
        ),
        a.display_name@.len() > 0 && a.display_name@ == b.display_name@ ==> r.0 == GSS_S_COMPLETE
            && (r.2 <==> a.name_type@ == b.name_type@),
{
}

// ---- requests ----

/// The wire form of an optional part.
pub open spec fn optional_wire<T: Xdr>(v: Option<T>) -> Option<Seq<u8>> {
    match v {
        Some(x) => Some(wire_laws::wire(x)),
        None => None,
    }
}

/// The wire form of a part that is handed over by reference.
pub open spec fn given_wire<T: Xdr>(v: Option<&T>) -> Option<Seq<u8>> {
    match v {
        Some(x) => Some(wire_laws::wire(*x)),
        None => None,
    }
}

/// A name is sent to be canonicalized, or with an option to find its local user.
pub proof fn requests_about_names(
    n: &GssxName,
    mech: &[u8],
    a: ArgImportAndCanonName,
    b: ArgImportAndCanonName,
)
    requires
        call_ensures(gpm::canonicalize_name_arg, (n, mech), a),
        call_ensures(gpm::localname_arg, (n, mech), b),
    ensures
        wire_laws::wire(a.input_name) == wire_laws::wire(*n),
        a.mech@ == mech@,
        a.name_attributes@.len() == 0,
        a.options@.len() == 0,
        wire_laws::wire(b.input_name) == wire_laws::wire(*n),
        b.mech@ == mech@,
        b.name_attributes@.len() == 0,
        b.options@.len() == 1,
        b.options@[0].option@ == LOCALNAME_OPTION@,
{
}

/// Each part of a request for credentials goes to its place.
pub proof fn requests_for_credentials(
    cred: Option<&GssxCred>,
    name: Option<&GssxName>,
    time: u32,
    mechs: &[Vec<u8>],
    usage: i32,
    impersonate: bool,
    r: ArgAcquireCred,
    i: int,
)
    requires
        call_ensures(gpm::acquire_cred_arg, (cred, name, time, mechs, usage, impersonate), r),
    ensures
        optional_wire(r.input_cred_handle) == given_wire(cred),
        optional_wire(r.desired_name) == given_wire(name),
        r.time_req == time,
        !r.add_cred_to_input_handle,
        r.initiator_time_req == 0 && r.acceptor_time_req == 0,
        r.desired_mechs@.len() == mechs@.len(),
        0 <= i < mechs@.len() ==> r.desired_mechs@[i]@ == mechs@[i]@,
        usage == GSS_C_INITIATE ==> r.cred_usage == 1,
        usage == GSS_C_ACCEPT ==> r.cred_usage == 2,
        usage == GSS_C_BOTH ==> r.cred_usage == 3,
        !impersonate ==> r.options@.len() == 0,
        impersonate ==> r.options@.len() == 1 && r.options@[0].option@ == ACQUIRE_TYPE_OPTION@
            && r.options@[0].value@ == ACQUIRE_IMPERSONATE_NAME@,
{
    if 0 <= i < mechs@.len() {
        assert(r.desired_mechs@[i]@ == mechs@[i]@);
    }
}

/// Each part of a request to initiate a context goes to its place, and the daemon is asked
/// for the credentials that it changes.
pub proof fn requests_to_initiate(
    cred: Option<&GssxCred>,
    ctx: Option<&GssxCtx>,
    target: Option<&GssxName>,
    mech: &[u8],
    flags: u32,
    time: u32,
    cb: Option<&GssxCb>,
    token: Option<&[u8]>,
    r: ArgInitSecContext,
)
    requires
        call_ensures(
            gpm::init_sec_context_arg,
            (cred, ctx, target, mech, flags, time, cb, token),
            r,
        ),
    ensures
        optional_wire(r.cred_handle) == given_wire(cred),
        optional_wire(r.context_handle) == given_wire(ctx),
        optional_wire(r.target_name) == given_wire(target),
        optional_wire(r.input_cb) == given_wire(cb),
        r.mech_type@ == mech@,
        r.req_flags == flags,
        r.time_req == time,
        r.input_token is Some <==> token is Some,
        token is Some ==> r.input_token->Some_0@ == token->Some_0@,
        r.options@.len() == 1,
        r.options@[0].option@ == CRED_SYNC_OPTION@,
        r.options@[0].value@ == CRED_SYNC_DEFAULT@,
{
}

/// Each part of a request to accept a context goes to its place.
pub proof fn requests_to_accept(
    ctx: Option<&GssxCtx>,
    cred: Option<&GssxCred>,
    token: &[u8],
    cb: Option<&GssxCb>,
    deleg: bool,
    r: ArgAcceptSecContext,
)
    requires
        call_ensures(gpm::accept_sec_context_arg, (ctx, cred, token, cb, deleg), r),
    ensures
        optional_wire(r.context_handle) == given_wire(ctx),
        optional_wire(r.cred_handle) == given_wire(cred),
        optional_wire(r.input_cb) == given_wire(cb),
        r.input_token@ == token@,
        r.ret_deleg_cred == deleg,
        r.options@.len() == 0,
{
}

/// Each part of a request to protect or to check a message goes to its place.
pub proof fn requests_about_messages(
    ctx: &GssxCtx,
    conf: bool,
    qop: u32,
    size: u32,
    message: &[u8],
    token: &[u8],
    w: ArgWrap,
    u: ArgUnwrap,
    g: ArgGetMic,
    v: ArgVerifyMic,
    l: ArgWrapSizeLimit,
)
    requires
        call_ensures(gpm::wrap_arg, (ctx, conf, qop, message), w),
        call_ensures(gpm::unwrap_arg, (ctx, token), u),
        call_ensures(gpm::get_mic_arg, (ctx, qop, message), g),
        call_ensures(gpm::verify_mic_arg, (ctx, message, token), v),
        call_ensures(gpm::wrap_size_limit_arg, (ctx, conf, qop, size), l),
    ensures
        wire_laws::wire(w.context_handle) == wire_laws::wire(*ctx) && w.conf_req == conf
            && w.qop_state == qop && w.message_buffer@.len() == 1 && w.message_buffer@[0]@
            == message@,
        wire_laws::wire(u.context_handle) == wire_laws::wire(*ctx) && u.qop_state == 0
            && u.token_buffer@.len() == 1 && u.token_buffer@[0]@ == token@,
        wire_laws::wire(g.context_handle) == wire_laws::wire(*ctx) && g.qop_req == qop
            && g.message_buffer@ == message@,
        wire_laws::wire(v.context_handle) == wire_laws::wire(*ctx) && v.message_buffer@ == message@
            && v.token_buffer@ == token@,
        wire_laws::wire(l.context_handle) == wire_laws::wire(*ctx) && l.conf_req == conf
            && l.qop_state == qop && l.req_output_size == size,
{
}

/// The daemon is asked to release what needs it, and nothing else.
pub proof fn requests_to_release(
    cred: &GssxCred,
    a: Option<ArgReleaseHandle>,
    ctx: &GssxCtx,
    b: Option<ArgReleaseHandle>,
)
    requires
        call_ensures(gpm::release_cred_arg, (cred,), a),
        call_ensures(gpm::delete_sec_context_arg, (ctx,), b),
    ensures
        a is Some <==> cred.needs_release,
        a is Some ==> a->Some_0.cred_handle is Cred && wire_laws::wire(
            a->Some_0.cred_handle->Cred_0,
        ) == wire_laws::wire(*cred),
        b is Some <==> ctx.needs_release,
        b is Some ==> b->Some_0.cred_handle is SecCtx && wire_laws::wire(
            b->Some_0.cred_handle->SecCtx_0,
        ) == wire_laws::wire(*ctx),
{
}

/// The request for the mechanisms says nothing else.
pub proof fn requests_for_mechanisms(r: crate::proc::ArgIndicateMechs)
    requires
        call_ensures(gpm::indicate_mechs_arg, (), r),
    ensures
        r.call_ctx.locale@.len() == 0 && r.call_ctx.server_ctx@.len() == 0
            && r.call_ctx.options@.len() == 0,
{
}

/// Initiating is 1 on the wire, accepting 2 and both 3.
pub proof fn usages_are_sent(usage: i32, r: i32)
    requires
        call_ensures(gpm::cred_usage_to_gssx, (usage,), r),
    ensures
        usage == GSS_C_INITIATE ==> r == 1,
        usage == GSS_C_ACCEPT ==> r == 2,
        usage == GSS_C_BOTH ==> r == 3,
        usage != GSS_C_INITIATE && usage != GSS_C_ACCEPT && usage != GSS_C_BOTH ==> r == 0,
{
}

// ---- replies ----

/// A reply with a status that is not zero is a failure with that status, which is saved; a
/// reply that did not come is a failure with the errno of that.
pub proof fn replies_that_fail(
    a: &mut Option<GssxStatus>,
    named: Result<ResImportAndCanonName, GpmError>,
    n: (u32, u32, Option<GssxName>),
    b: &mut Option<GssxStatus>,
    user: (u32, u32, Option<Vec<u8>>),
    c: &mut Option<GssxStatus>,
    acquired: Result<ResAcquireCred, GpmError>,
    acq: AcquireCred,
)
    requires
        call_ensures(gpm::canonicalize_name, (a, named), n),
        call_ensures(gpm::localname, (b, named), user),
        call_ensures(gpm::acquire_cred, (c, acquired), acq),
    ensures
        named matches Err(e) ==> n == (GSS_S_FAILURE, e.number() as u32, None::<GssxName>)
            && user.0 == GSS_S_FAILURE && user.1 == e.number() as u32 && user.2 is None
            && *final(a) == *old(a),
        named matches Ok(res) ==> (0 < res.status.major_status <= u32::MAX ==> n.0
            == res.status.major_status && n.2 is None && user.0 == res.status.major_status
            && user.2 is None && *final(a) is Some && wire_laws::wire((*final(a))->Some_0)
            == wire_laws::wire(res.status)),
        named matches Ok(res) ==> (res.status.major_status == 0 ==> n == (
            GSS_S_COMPLETE,
            0u32,
            res.output_name,
        ) && *final(a) == *old(a)),
        acquired matches Err(e) ==> acq.major == GSS_S_FAILURE && acq.minor == e.number() as u32
            && acq.cred is None && acq.time_rec == 0,
        acquired matches Ok(res) ==> (0 < res.status.major_status <= u32::MAX ==> acq.major
            == res.status.major_status && acq.cred is None && acq.time_rec == 0),
        acquired matches Ok(res) ==> (0 < res.status.major_status && res.status.minor_status
            <= u32::MAX ==> acq.minor == res.status.minor_status),
        acquired matches Ok(res) ==> (res.status.major_status == 0 ==> acq.major == GSS_S_COMPLETE
            && acq.minor == 0 && acq.cred == res.output_cred_handle),
{
}

/// The lifetime of an acquired credential is the shorter one of its first element.
pub proof fn lifetime_of_an_acquired_credential(
    saved: &mut Option<GssxStatus>,
    reply: Result<ResAcquireCred, GpmError>,
    r: AcquireCred,
)
    requires
        call_ensures(gpm::acquire_cred, (saved, reply), r),
        reply is Ok,
        reply->Ok_0.status.major_status == 0,
    ensures
        r.cred is None ==> r.time_rec == 0,
        r.cred is Some && r.cred->Some_0.elements@.len() == 0 ==> r.time_rec == 0,
        r.cred is Some && r.cred->Some_0.elements@.len() > 0 ==> {
            let e = r.cred->Some_0.elements@[0];
            &&& e.initiator_time_rec <= e.acceptor_time_rec && e.initiator_time_rec <= u32::MAX
                ==> r.time_rec == e.initiator_time_rec
            &&& e.acceptor_time_rec <= e.initiator_time_rec && e.acceptor_time_rec <= u32::MAX
                ==> r.time_rec == e.acceptor_time_rec
        },
{
}

/// The local user is the value of its option, and without one it is not known.
pub proof fn local_user_in_a_reply(
    saved: &mut Option<GssxStatus>,
    reply: Result<ResImportAndCanonName, GpmError>,
    r: (u32, u32, Option<Vec<u8>>),
    i: int,
)
    requires
        call_ensures(gpm::localname, (saved, reply), r),
        reply is Ok,
        reply->Ok_0.status.major_status == 0,
    ensures
        0 <= i < reply->Ok_0.options@.len() && reply->Ok_0.options@[i].option@
            == LOCALNAME_OPTION@ && (forall|k: int|
            0 <= k < i ==> (#[trigger] reply->Ok_0.options@[k]).option@ != LOCALNAME_OPTION@)
            ==> r.0 == GSS_S_COMPLETE && r.2 is Some && r.2->Some_0@
            == reply->Ok_0.options@[i].value@,
        (forall|k: int|
            0 <= k < reply->Ok_0.options@.len() ==> (#[trigger] reply->Ok_0.options@[k]).option@
                != LOCALNAME_OPTION@) ==> r.0 == GSS_S_FAILURE && r.1 == ENOTSUP && r.2 is None,
{
    first_option_counts(reply->Ok_0.options@, LOCALNAME_OPTION@, i);
}

/// What an initiation gives: the context and the token where it goes on or is complete, and
/// nothing of them where it failed. Its status is always saved.
pub proof fn replies_to_an_initiation(
    saved: &mut Option<GssxStatus>,
    reply: Result<ResInitSecContext, GpmError>,
    r: InitSecContext,
)
    requires
        call_ensures(gpm::init_sec_context, (saved, reply), r),
    ensures
        *final(saved) is Some,
        reply matches Err(e) ==> r.major == GSS_S_FAILURE && r.minor == e.number() as u32
            && r.context is None && r.output_token is None && r.out_cred is None,
        reply matches Ok(res) ==> {
            &&& wire_laws::wire((*final(saved))->Some_0) == wire_laws::wire(res.status)
            &&& res.status.major_status <= u32::MAX ==> r.major == res.status.major_status
            &&& res.status.minor_status <= u32::MAX ==> r.minor == res.status.minor_status
            &&& r.actual_mech@ == res.status.mech@
            &&& res.status.major_status == 0 || res.status.major_status == 1 ==> r.context
                == res.context_handle && (r.output_token is Some <==> res.output_token is Some)
            &&& (res.status.major_status == 0 || res.status.major_status == 1)
                && res.output_token is Some ==> r.output_token->Some_0@
                == res.output_token->Some_0@
            &&& 1 < res.status.major_status <= u32::MAX ==> r.context is None && r.output_token
                is None
        },
{
}

/// A credential that the daemon changed comes back as the value of its option.
pub proof fn changed_credentials_come_back(
    saved: &mut Option<GssxStatus>,
    reply: Result<ResInitSecContext, GpmError>,
    r: InitSecContext,
    cred: GssxCred,
    i: int,
)
    requires
        call_ensures(gpm::init_sec_context, (saved, reply), r),
        reply is Ok,
    ensures
        (forall|k: int|
            0 <= k < reply->Ok_0.options@.len() ==> (#[trigger] reply->Ok_0.options@[k]).option@
                != CRED_SYNC_PAYLOAD@) ==> r.out_cred is None,
        xdr::sized(cred.tree()) && 0 <= i < reply->Ok_0.options@.len()
            && reply->Ok_0.options@[i].option@ == CRED_SYNC_PAYLOAD@ && (forall|k: int|
            0 <= k < i ==> (#[trigger] reply->Ok_0.options@[k]).option@ != CRED_SYNC_PAYLOAD@)
            && reply->Ok_0.options@[i].value@ == wire_laws::wire(cred) ==> r.out_cred is Some
            && wire_laws::wire(r.out_cred->Some_0) == wire_laws::wire(cred),
{
    first_option_counts(reply->Ok_0.options@, CRED_SYNC_PAYLOAD@, i);
    if xdr::sized(cred.tree()) {
        gpm::kept_cred_comes_back(cred);
    }
}

/// What accepting gives: the context, the name of its initiator, the token and the delegated
/// credential; a success without a context is a failure.
pub proof fn replies_to_an_acceptance(
    saved: &mut Option<GssxStatus>,
    reply: Result<ResAcceptSecContext, GpmError>,
    r: AcceptSecContext,
)
    requires
        call_ensures(gpm::accept_sec_context, (saved, reply), r),
    ensures
        reply matches Err(e) ==> r.major == GSS_S_FAILURE && r.minor == e.number() as u32
            && r.context is None && r.src_name is None && r.output_token is None
            && r.delegated_cred is None,
        reply matches Ok(res) ==> {
            &&& 0 < res.status.major_status <= u32::MAX ==> r.major == res.status.major_status
                && r.context is None && r.output_token is None && r.delegated_cred is None
                && r.actual_mech@ == res.status.mech@
            &&& res.status.major_status == 0 && res.context_handle is None ==> r.major
                == GSS_S_FAILURE && r.minor == EINVAL && r.context is None
            &&& res.status.major_status == 0 && res.context_handle is Some ==> r.major
                == GSS_S_COMPLETE && r.minor == 0 && r.context == res.context_handle && r.src_name
                is Some && wire_laws::wire(r.src_name->Some_0) == wire_laws::wire(
                res.context_handle->Some_0.src_name,
            ) && (r.output_token is Some <==> res.output_token is Some) && r.actual_mech@
                == res.status.mech@ && r.delegated_cred == res.delegated_cred_handle
            &&& res.status.major_status == 0 && res.context_handle is Some && res.output_token
                is Some ==> r.output_token->Some_0@ == res.output_token->Some_0@
        },
{
}

/// What is known of a context comes from its own parts.
pub proof fn contexts_are_described(ctx: &GssxCtx, r: InquireContext)
    requires
        call_ensures(gpm::inquire_context, (ctx,), r),
    ensures
        wire_laws::wire(r.src_name) == wire_laws::wire(ctx.src_name),
        wire_laws::wire(r.targ_name) == wire_laws::wire(ctx.targ_name),
        ctx.lifetime <= u32::MAX ==> r.lifetime == ctx.lifetime,
        r.mech@ == ctx.mech@,
        ctx.ctx_flags <= u32::MAX ==> r.ctx_flags == ctx.ctx_flags,
        r.locally_initiated == ctx.locally_initiated,
        r.open == ctx.open,
{
}

/// Releasing what needs no release is a success; otherwise the daemon decides.
pub proof fn replies_to_a_release(
    saved: &mut Option<GssxStatus>,
    reply: Option<Result<ResReleaseHandle, GpmError>>,
    r: (u32, u32),
    other: &mut Option<GssxStatus>,
    q: (u32, u32),
)
    requires
        call_ensures(gpm::release_cred, (saved, reply), r),
        call_ensures(gpm::delete_sec_context, (other, reply), q),
    ensures
        r == q,
        reply is None ==> r == (GSS_S_COMPLETE, 0u32) && *final(saved) == *old(saved),
        reply is Some && reply->Some_0 is Err ==> r == (
            GSS_S_FAILURE,
            reply->Some_0->Err_0.number() as u32,
        ),
        reply is Some && reply->Some_0 is Ok && reply->Some_0->Ok_0.status.major_status == 0 ==> r
            == (GSS_S_COMPLETE, 0u32),
        reply is Some && reply->Some_0 is Ok && 0 < reply->Some_0->Ok_0.status.major_status
            <= u32::MAX ==> r.0 == reply->Some_0->Ok_0.status.major_status,
{
}

/// The first buffer of a reply is the message; whether it is confidential and its quality
/// come from the reply, and are absent without one.
pub proof fn replies_about_messages(
    a: &mut Option<GssxStatus>,
    wrapped: Result<ResWrap, GpmError>,
    w: (u32, u32, Option<Vec<u8>>, bool),
    b: &mut Option<GssxStatus>,
    unwrapped: Result<ResUnwrap, GpmError>,
    u: (u32, u32, Option<Vec<u8>>, bool, u32),
)
    requires
        call_ensures(gpm::wrap, (a, wrapped), w),
        call_ensures(gpm::unwrap, (b, unwrapped), u),
    ensures
        wrapped matches Err(e) ==> w.0 == GSS_S_FAILURE && w.1 == e.number() as u32 && w.2 is None
            && !w.3,
        wrapped matches Ok(res) ==> {
            &&& 0 < res.status.major_status <= u32::MAX ==> w.0 == res.status.major_status && w.2
                is None && !w.3
            &&& res.status.major_status == 0 ==> w.0 == GSS_S_COMPLETE && w.1 == 0
                && (w.2 is Some <==> res.token_buffer@.len() > 0) && (w.3 <==> res.conf_state
                == Some(true))
            &&& res.status.major_status == 0 && res.token_buffer@.len() > 0 ==> w.2->Some_0@
                == res.token_buffer@[0]@
        },
        unwrapped matches Err(e) ==> u.0 == GSS_S_FAILURE && u.1 == e.number() as u32 && u.2
            is None && !u.3 && u.4 == 0,
        unwrapped matches Ok(res) ==> {
            &&& 0 < res.status.major_status <= u32::MAX ==> u.0 == res.status.major_status && u.2
                is None && !u.3 && u.4 == 0
            &&& res.status.major_status == 0 ==> u.0 == GSS_S_COMPLETE && u.1 == 0
                && (u.2 is Some <==> res.message_buffer@.len() > 0) && (u.3 <==> res.conf_state
                == Some(true))
            &&& res.status.major_status == 0 && res.message_buffer@.len() > 0 ==> u.2->Some_0@
                == res.message_buffer@[0]@
            &&& res.status.major_status == 0 && res.qop_state is None ==> u.4 == 0
            &&& res.status.major_status == 0 && res.qop_state is Some && res.qop_state->Some_0
                <= u32::MAX ==> u.4 == res.qop_state->Some_0
        },
{
}

/// A signature is the token of the reply, a check gives the quality, and a size limit the
/// size.
pub proof fn replies_about_signatures(
    a: &mut Option<GssxStatus>,
    signed: Result<ResGetMic, GpmError>,
    g: (u32, u32, Option<Vec<u8>>),
    b: &mut Option<GssxStatus>,
    checked: Result<ResVerifyMic, GpmError>,
    v: (u32, u32, u32),
    c: &mut Option<GssxStatus>,
    limited: Result<ResWrapSizeLimit, GpmError>,
    l: (u32, u32, u32),
)
    requires
        call_ensures(gpm::get_mic, (a, signed), g),
        call_ensures(gpm::verify_mic, (b, checked), v),
        call_ensures(gpm::wrap_size_limit, (c, limited), l),
    ensures
        signed is Err ==> g.0 == GSS_S_FAILURE && g.2 is None,
        signed matches Ok(res) ==> {
            &&& res.status.major_status == 0 ==> g.0 == GSS_S_COMPLETE && g.1 == 0 && g.2 is Some
                && g.2->Some_0@ == res.token_buffer@
            &&& 0 < res.status.major_status <= u32::MAX ==> g.0 == res.status.major_status && g.2
                is None
        },
        checked is Err ==> v.0 == GSS_S_FAILURE && v.2 == 0,
        checked matches Ok(res) ==> {
            &&& 0 < res.status.major_status <= u32::MAX ==> v.0 == res.status.major_status && v.2
                == 0
            &&& res.status.major_status == 0 && res.qop_state is Some && res.qop_state->Some_0
                <= u32::MAX ==> v == (GSS_S_COMPLETE, 0u32, res.qop_state->Some_0 as u32)
            &&& res.status.major_status == 0 && res.qop_state is None ==> v == (
                GSS_S_COMPLETE,
                0u32,
                0u32,
            )
        },
        limited is Err ==> l.0 == GSS_S_FAILURE && l.2 == 0,
        limited matches Ok(res) ==> {
            &&& 0 < res.status.major_status <= u32::MAX ==> l.0 == res.status.major_status && l.2
                == 0
            &&& res.status.major_status == 0 && res.max_input_size <= u32::MAX ==> l == (
                GSS_S_COMPLETE,
                0u32,
                res.max_input_size as u32,
            )
        },
{
}

/// The mechanisms that are indicated are the whole reply, with its status.
pub proof fn replies_about_mechanisms(
    saved: &mut Option<GssxStatus>,
    reply: Result<ResIndicateMechs, GpmError>,
    r: (u32, u32, ResIndicateMechs),
)
    requires
        call_ensures(gpm::indicate_mechs, (saved, reply), r),
    ensures
        reply matches Ok(res) ==> r.2 == res && (res.status.major_status <= u32::MAX ==> r.0
            == res.status.major_status) && (res.status.minor_status <= u32::MAX ==> r.1
            == res.status.minor_status),
        reply matches Err(e) ==> r.0 == GSS_S_FAILURE && r.1 == e.number() as u32
            && r.2.mechs@.len() == 0,
{
}

/// A credential that is kept is its encoding, and the encoding gives the credential back.
pub proof fn credentials_are_kept(cred: &GssxCred, b: Vec<u8>, bytes: &[u8], back: Option<GssxCred>)
    requires
        xdr::sized(cred.tree()),
        call_ensures(gpm::encode_cred, (cred,), b),
        bytes@ == b@,
        call_ensures(gpm::decode_cred, (bytes,), back),
    ensures
        b@ == wire_laws::wire(*cred),
        back is Some,
        wire_laws::wire(back->Some_0) == wire_laws::wire(*cred),
{
    gpm::kept_cred_comes_back(*cred);
}

// ---- inquiries ----

/// A credential is for initiating where some element is, for accepting where some element
/// is, and for both where there is one of each or one for both.
pub proof fn usage_of_a_credential(cred: &GssxCred, r: InquireCred, i: int, j: int)
    requires
        call_ensures(gpm::inquire_cred, (cred,), r),
        0 <= i < cred.elements@.len(),
        0 <= j < cred.elements@.len(),
    ensures
        r.major == GSS_S_COMPLETE,
        r.name is Some && wire_laws::wire(r.name->Some_0) == wire_laws::wire(cred.desired_name),
        r.mechs@.len() == cred.elements@.len(),
        r.mechs@[i]@ == cred.elements@[i].mech@,
        cred.elements@[i].cred_usage == 3 ==> r.usage == GSS_C_BOTH,
        cred.elements@[i].cred_usage == 1 && cred.elements@[j].cred_usage == 2 ==> r.usage
            == GSS_C_BOTH,
        (forall|k: int|
            0 <= k < cred.elements@.len() ==> (#[trigger] cred.elements@[k]).cred_usage == 1)
            ==> r.usage == GSS_C_INITIATE,
        (forall|k: int|
            0 <= k < cred.elements@.len() ==> (#[trigger] cred.elements@[k]).cred_usage == 2)
            ==> r.usage == GSS_C_ACCEPT,
{
    let e = cred.elements@;
    let v = crate::octets::views(r.mechs@);
    assert(v.len() == r.mechs@.len());
    assert(v[i] == r.mechs@[i]@);
    if e[i].cred_usage == 3 {
        assert(gpm::some_usage(e, 3));
    }
    if e[i].cred_usage == 1 && e[j].cred_usage == 2 {
        assert(gpm::some_usage(e, 1));
        assert(gpm::some_usage(e, 2));
    }
    if forall|k: int| 0 <= k < e.len() ==> (#[trigger] e[k]).cred_usage == 1 {
        assert(e[i].cred_usage == 1);
        assert(gpm::some_usage(e, 1));
        assert(!gpm::some_usage(e, 2));
        assert(!gpm::some_usage(e, 3));
    }
    if forall|k: int| 0 <= k < e.len() ==> (#[trigger] e[k]).cred_usage == 2 {
        assert(e[i].cred_usage == 2);
        assert(gpm::some_usage(e, 2));
        assert(!gpm::some_usage(e, 1));
        assert(!gpm::some_usage(e, 3));
    }
}

/// A credential lives as long as one of its elements and no longer than any of them, each
/// taken for what it is used for; one without a limit lives on. A credential without elements cannot be inquired.
pub proof fn lifetime_of_a_credential(cred: &GssxCred, r: InquireCred, i: int)
    requires
        call_ensures(gpm::inquire_cred, (cred,), r),
    ensures
        cred.elements@.len() == 0 ==> r.major == GSS_S_FAILURE && r.name is None && r.lifetime == 0
            && r.usage == 0 && r.mechs@.len() == 0,
        r.minor == 0,
        0 <= i < cred.elements@.len() ==> {
            let e = cred.elements@[i];
            &&& (e.cred_usage == 1 || e.cred_usage == 3) && 0 < e.initiator_time_rec <= u32::MAX
                ==> r.lifetime <= e.initiator_time_rec
            &&& (e.cred_usage == 2 || e.cred_usage == 3) && 0 < e.acceptor_time_rec <= u32::MAX
                ==> r.lifetime <= e.acceptor_time_rec
        },
        cred.elements@.len() > 0 && (forall|k: int|
            0 <= k < cred.elements@.len() ==> (#[trigger] cred.elements@[k]).initiator_time_rec
                == 0 && cred.elements@[k].acceptor_time_rec == 0) ==> r.lifetime
            == GSS_C_INDEFINITE,
        cred.elements@.len() > 0 && r.lifetime != GSS_C_INDEFINITE ==> exists|k: int|
            0 <= k < cred.elements@.len() && (r.lifetime == (
            #[trigger] cred.elements@[k]).initiator_time_rec as u32 || r.lifetime
                == cred.elements@[k].acceptor_time_rec as u32),
{
    let e = cred.elements@;
    if e.len() > 0 && r.lifetime != GSS_C_INDEFINITE {
        let k = choose|k: int| 0 <= k < e.len() && #[trigger] gpm::contributes(e[k], r.lifetime);
        assert(r.lifetime == e[k].initiator_time_rec as u32 || r.lifetime
            == e[k].acceptor_time_rec as u32);
    }
    if 0 <= i < e.len() {
        assert(gpm::contributes(e[i], e[i].initiator_time_rec as u32) ==> r.lifetime
            <= e[i].initiator_time_rec as u32);
        assert(gpm::contributes(e[i], e[i].acceptor_time_rec as u32) ==> r.lifetime
            <= e[i].acceptor_time_rec as u32);
    }
    if e.len() > 0 && (forall|k: int|
        0 <= k < e.len() ==> (#[trigger] e[k]).initiator_time_rec == 0 && e[k].acceptor_time_rec
            == 0) && r.lifetime != GSS_C_INDEFINITE {
        let k = choose|k: int| 0 <= k < e.len() && #[trigger] gpm::contributes(e[k], r.lifetime);
        assert(e[k].initiator_time_rec == 0);
    }
}

/// By mechanism the first element for it counts: its name, its usage, and the lifetimes for
/// what it is used for. Without one there is a failure.
pub proof fn inquiry_by_mechanism(cred: &GssxCred, mech: &[u8], r: InquireCredByMech, i: int)
    requires
        call_ensures(gpm::inquire_cred_by_mech, (cred, mech), r),
    ensures
        (forall|k: int|
            0 <= k < cred.elements@.len() ==> (#[trigger] cred.elements@[k]).mech@ != mech@)
            ==> r.major == GSS_S_FAILURE && r.name is None,
        0 <= i < cred.elements@.len() && cred.elements@[i].mech@ == mech@ && (forall|k: int|
            0 <= k < i ==> (#[trigger] cred.elements@[k]).mech@ != mech@) ==> {
            let e = cred.elements@[i];
            &&& r.major == GSS_S_COMPLETE
            &&& r.name is Some && wire_laws::wire(r.name->Some_0) == wire_laws::wire(e.mn)
            &&& e.cred_usage == 1 ==> r.usage == GSS_C_INITIATE && r.acceptor_lifetime == 0
            &&& e.cred_usage == 2 ==> r.usage == GSS_C_ACCEPT && r.initiator_lifetime == 0
            &&& e.cred_usage == 3 ==> r.usage == GSS_C_BOTH
            &&& (e.cred_usage == 1 || e.cred_usage == 3) && e.initiator_time_rec <= u32::MAX
                ==> r.initiator_lifetime == e.initiator_time_rec
            &&& (e.cred_usage == 2 || e.cred_usage == 3) && e.acceptor_time_rec <= u32::MAX
                ==> r.acceptor_lifetime == e.acceptor_time_rec
        },
{
    lemma_element(cred.elements@, mech@, i);
}

proof fn lemma_element(e: Seq<crate::gssx::GssxCredElement>, mech: Seq<u8>, i: int)
    ensures
        (forall|k: int| 0 <= k < e.len() ==> (#[trigger] e[k]).mech@ != mech) ==> gpm::element_for(
            e,
            mech,
        ) is None,
        0 <= i < e.len() && e[i].mech@ == mech && (forall|k: int|
            0 <= k < i ==> (#[trigger] e[k]).mech@ != mech) ==> gpm::element_for(e, mech) == Some(
            e[i],
        ),
    decreases e.len(),
{
    if e.len() > 0 && e[0].mech@ != mech {
        let t = e.skip(1);
        lemma_element(t, mech, i - 1);
        if forall|k: int| 0 <= k < e.len() ==> (#[trigger] e[k]).mech@ != mech {
            assert forall|k: int| 0 <= k < t.len() implies (#[trigger] t[k]).mech@ != mech by {
                assert(t[k] == e[k + 1]);
            }
        }
        if 0 < i < e.len() && (forall|k: int| 0 <= k < i ==> (#[trigger] e[k]).mech@ != mech) {
            assert(t[i - 1] == e[i]);
            assert forall|k: int| 0 <= k < i - 1 implies (#[trigger] t[k]).mech@ != mech by {
                assert(t[k] == e[k + 1]);
            }
        }
    }
}

// ---- errors ----

/// A failed connection has the errno of the system where there is one, a request that is too
/// large its own, and anything else is an I/O error.
pub proof fn numbers_of_errors(e: &GpmError, r: i32)
    requires
        call_ensures(GpmError::errno, (e,), r),
    ensures
        *e matches GpmError::Io(f) ==> (f.errno is Some ==> r == f.errno->Some_0) && (f.errno
            is None ==> r == EIO),
        *e is TooLarge ==> r == EMSGSIZE,
        *e is Frame || *e is Decode || *e is BadReply ==> r == EIO,
        r == e.number(),
{
}

/// Each error says what it is.
pub proof fn words_of_errors(e: &GpmError, r: String)
    requires
        call_ensures(GpmError::message, (e,), r),
    ensures
        *e matches GpmError::Io(f) ==> r@ == "gssproxy socket I/O error: "@ + f.text@,
        *e matches GpmError::Frame(f) ==> r@ == "gssproxy framing error: "@ + f.text(),
        *e matches GpmError::Decode(x) ==> r@ == "gssproxy reply decode error: "@ + x.text(),
        *e is BadReply ==> r@ == "gssproxy returned an unexpected RPC reply"@,
        *e is TooLarge ==> r@ == "gssproxy request exceeds MAX_RPC_SIZE"@,
{
}

/// A connection that timed out or was lost is worth another try; any other failure is not.
pub proof fn failures_worth_another_try(e: &IoFailure, r: bool)
    requires
        call_ensures(client::is_retryable, (e,), r),
    ensures
        e.kind is TimedOut || e.kind is WouldBlock ==> r,
        e.kind is BrokenPipe || e.kind is ConnectionReset || e.kind is ConnectionAborted
            || e.kind is UnexpectedEof ==> r,
        e.kind is Other ==> !r,
{
}

// ---- the connection ----

/// The socket is the configured one, and otherwise the daemon's own.
pub proof fn socket_to_use(configured: Option<String>, r: String)
    requires
        call_ensures(client::socket_path, (configured,), r),
    ensures
        configured is Some ==> r@ == configured->Some_0@,
        configured is None ==> r@ == "/var/lib/gssproxy/default.sock"@,
{
}

/// The seed is drawn until its four bytes are there, also across interruptions; a failure
/// ends it.
pub proof fn drawing_of_a_seed(filled: usize, drawn: Drawn, r: Option<usize>)
    requires
        filled < 4,
        drawn matches Drawn::Filled(n) ==> n <= 4 - filled,
        call_ensures(client::seed_progress, (filled, drawn), r),
    ensures
        drawn is Interrupted ==> r == Some(filled),
        drawn is Failed ==> r is None,
        drawn matches Drawn::Filled(n) ==> (filled + n == 4 ==> r is None) && (filled + n < 4 ==> r
            is Some && r->Some_0 == filled + n),
{
}

/// A new connection is not open and has no numbers yet. The first seed counts, and each call
/// takes the next number, round after the last.
pub proof fn numbers_of_calls(
    fresh: ClientConn,
    a: &mut ClientConn,
    seed: u32,
    b: &mut ClientConn,
    r: u32,
)
    requires
        call_ensures(ClientConn::new, (), fresh),
        call_ensures(ClientConn::ensure_seeded, (a, seed), ()),
        call_ensures(ClientConn::next_xid, (b,), r),
    ensures
        !fresh.connected && !fresh.seeded && fresh.next_xid == 0,
        fresh.owner.pid == 0 && fresh.owner.uid == 0 && fresh.owner.gid == 0,
        final(a).seeded,
        old(a).seeded ==> final(a).next_xid == old(a).next_xid,
        !old(a).seeded ==> final(a).next_xid == seed,
        final(a).connected == old(a).connected && final(a).owner == old(a).owner,
        r == old(b).next_xid,
        r < u32::MAX ==> final(b).next_xid == r + 1,
        r == u32::MAX ==> final(b).next_xid == 0,
        final(b).connected == old(b).connected && final(b).seeded == old(b).seeded,
{
}

/// A connection is used only by the process and the user that opened it.
pub proof fn owners_of_connections(
    a: &mut ClientConn,
    now: Identity,
    b: &mut ClientConn,
    c: &mut ClientConn,
)
    requires
        call_ensures(ClientConn::refresh_identity, (a, now), ()),
        call_ensures(ClientConn::connect, (b, now), ()),
        call_ensures(ClientConn::disconnect, (c,), ()),
    ensures
        now.pid != old(a).owner.pid ==> !final(a).connected,
        now.uid != old(a).owner.uid ==> !final(a).connected,
        now.gid != old(a).owner.gid ==> !final(a).connected,
        now == old(a).owner ==> final(a).connected == old(a).connected,
        !old(a).connected ==> !final(a).connected,
        final(b).connected && final(b).owner == now,
        !final(c).connected,
        final(a).next_xid == old(a).next_xid && final(b).next_xid == old(b).next_xid
            && final(c).next_xid == old(c).next_xid,
{
}

/// A request that is too large is not sent; any other goes out on the open connection, or
/// after one was opened.
pub proof fn beginning_of_a_transaction(
    conn: &ClientConn,
    body: &[u8],
    r: (Transaction, Action),
)
    requires
        call_ensures(Transaction::begin, (conn, body), r),
    ensures
        body@.len() > rpc::MAX_RPC_SIZE ==> r.1 == Action::Finish(
            Err::<Vec<u8>, GpmError>(GpmError::TooLarge),
        ),
        body@.len() <= rpc::MAX_RPC_SIZE && conn.connected ==> r.1 is Exchange,
        body@.len() <= rpc::MAX_RPC_SIZE && !conn.connected ==> r.1 is Connect,
        r.0.failed == 0,
{
}

/// A reply ends a transaction, and so does a connection that cannot be opened. An exchange
/// that failed closes the connection; it is tried again, three times in all, where that is
/// worth it.
pub proof fn steps_of_a_transaction(
    t: &mut Transaction,
    conn: &mut ClientConn,
    event: Event,
    r: Action,
)
    requires
        old(t).failed < 3,
        call_ensures(Transaction::step, (t, conn, event), r),
    ensures
        event matches Event::Connected(now) ==> r is Exchange && final(conn).connected
            && final(conn).owner == now,
        event matches Event::ConnectFailed(e) ==> r == Action::Finish(Err::<Vec<u8>, GpmError>(e)),
        event matches Event::Replied(b) ==> r == Action::Finish(Ok::<Vec<u8>, GpmError>(b)),
        event matches Event::Failed(e) ==> !final(conn).connected && final(t).failed == old(
            t,
        ).failed + 1,
        event matches Event::Failed(e) ==> (old(t).failed == 2 ==> r == Action::Finish(
            Err::<Vec<u8>, GpmError>(e),
        )),
        event matches Event::Failed(GpmError::Io(f)) ==> (old(t).failed < 2 && !(f.kind is Other)
            ==> r is Connect),
        event matches Event::Failed(GpmError::Io(f)) ==> (f.kind is Other ==> r is Finish),
        event matches Event::Failed(GpmError::BadReply) ==> r is Finish,
        event matches Event::Failed(GpmError::Frame(_)) ==> r is Finish,
        event matches Event::Failed(GpmError::Decode(_)) ==> r is Finish,
        !(event is Failed) ==> final(t).failed == old(t).failed,
{
}

/// A call takes the next number, carries its procedure and its argument, and does not use
/// a connection that another process or user opened.
pub proof fn calls_that_go_out<A: Xdr>(
    conn: &mut ClientConn,
    seed: u32,
    now: Identity,
    p: GssxProc,
    arg: &A,
    r: (u32, Vec<u8>),
)
    requires
        call_ensures(client::begin_call::<A>, (conn, seed, now, p, arg), r),
    ensures
        old(conn).seeded ==> r.0 == old(conn).next_xid,
        !old(conn).seeded ==> r.0 == seed,
        r.0 < u32::MAX ==> final(conn).next_xid == r.0 + 1,
        r.1@ == wire_laws::word(r.0) + wire_laws::word(0) + wire_laws::word(2) + wire_laws::word(
            400112,
        ) + wire_laws::word(1) + wire_laws::word(p.number()) + wire_laws::no_auth()
            + wire_laws::no_auth() + wire_laws::wire(*arg),
        now != old(conn).owner ==> !final(conn).connected,
        now == old(conn).owner ==> final(conn).connected == old(conn).connected,
        final(conn).seeded,
{
    wire_laws::lemma_call_bytes(r.0, p.number());
}

/// A reply is accepted where it is a success under the number of the call; then the result
/// is what stands behind it. Under another number it is no reply to the call.
pub proof fn replies_that_are_accepted<R: Xdr>(
    xid: u32,
    other: u32,
    exchanged: Result<Vec<u8>, GpmError>,
    r: Result<R, GpmError>,
    res: R,
    rest: Seq<u8>,
)
    requires
        call_ensures(client::make_call::<R>, (xid, exchanged), r),
        res.canonical(),
        xdr::sized(res.tree()),
    ensures
        exchanged matches Err(e) ==> r == Err::<R, GpmError>(e),
        exchanged is Ok && exchanged->Ok_0@ == xdr::bytes(rpc::success_tree(xid))
            + wire_laws::wire(res) + rest ==> r is Ok && wire_laws::wire(r->Ok_0)
            == wire_laws::wire(res),
        other != xid && exchanged is Ok && exchanged->Ok_0@ == xdr::bytes(
            rpc::success_tree(other),
        ) + wire_laws::wire(res) + rest ==> r == Err::<R, GpmError>(GpmError::BadReply),
{
    client::success_reply_is_accepted(xid, res, rest);
    client::success_reply_is_accepted(other, res, rest);
    if other != xid && exchanged is Ok && exchanged->Ok_0@ == xdr::bytes(
        rpc::success_tree(other),
    ) + wire_laws::wire(res) + rest {
        let q = xdr::parse(crate::rpc::Message::shape(), exchanged->Ok_0@, 0);
        client::other_xid_is_refused(q.val->Ok_0, other, xid);
    }
}

/// A reply is accepted with any valid verifier. One that is denied or has another status is
/// refused, and so is a call.
pub proof fn other_replies<R: Xdr>(
    xid: u32,
    exchanged: Result<Vec<u8>, GpmError>,
    r: Result<R, GpmError>,
    m: rpc::Message,
    res: R,
    rest: Seq<u8>,
)
    requires
        call_ensures(client::make_call::<R>, (xid, exchanged), r),
        m.canonical(),
        exchanged is Ok,
        exchanged->Ok_0@ == xdr::bytes(m.tree()) + rest,
        res.canonical(),
        xdr::sized(res.tree()),
    ensures
        m.is_call ==> r == Err::<R, GpmError>(GpmError::BadReply),
        m.xid != xid ==> r == Err::<R, GpmError>(GpmError::BadReply),
        !m.is_call && !(m.reply->Some_0 is AcceptedSuccess) ==> r == Err::<R, GpmError>(
            GpmError::BadReply,
        ),
        !m.is_call && m.xid == xid && m.reply->Some_0 is AcceptedSuccess && rest == wire_laws::wire(
            res,
        ) ==> r is Ok && wire_laws::wire(r->Ok_0) == wire_laws::wire(res),
{
    m.lemma_fits();
    crate::xdr_laws::tree_reads_back(rpc::Message::shape(), m.tree(), rest);
    reveal(rpc::Message::tree);
    reveal(rpc::ReplyBody::tree);
    let t = m.tree();
    if !m.is_call {
        match m.reply->Some_0 {
            rpc::ReplyBody::AcceptedSuccess { verf } => {
                if m.xid == xid {
                    assert(t == xdr::both(
                        xdr::Tree::Word(xid),
                        xdr::Tree::Case(
                            1,
                            Box::new(
                                xdr::Tree::Case(
                                    0,
                                    Box::new(xdr::both(verf.tree(), xdr::Tree::Word(0))),
                                ),
                            ),
                        ),
                    ));
                    assert(client::is_success_for(t, xid));
                    if rest == wire_laws::wire(res) {
                        res.lemma_fits();
                        let head = xdr::bytes(t);
                        crate::xdr_laws::tree_reads_back_at(
                            R::shape(),
                            res.tree(),
                            head,
                            Seq::empty(),
                        );
                        assert(head + rest + Seq::<u8>::empty() =~= head + rest);
                    }
                }
            },
            rpc::ReplyBody::AcceptedOther { verf, status } => {
                assert(status as u32 == 0u32 ==> status == 0) by (bit_vector);
            },
            _ => {},
        }
    }
}

/// The length of a reply is that of its frame; a frame that cannot be is an error.
pub proof fn length_of_a_reply(header: [u8; 4], r: Result<usize, GpmError>, w: u32)
    requires
        call_ensures(client::reply_length, (header,), r),
        header@ == wire_laws::word(w),
    ensures
        w < 0x8000_0000 ==> r == Err::<usize, GpmError>(GpmError::Frame(FrameError::MultiFragment)),
        w >= 0x8000_0000 && w - 0x8000_0000 <= rpc::MAX_RPC_SIZE ==> r is Ok && r->Ok_0 == w
            - 0x8000_0000,
        w >= 0x8000_0000 && w - 0x8000_0000 > rpc::MAX_RPC_SIZE ==> r is Err,
{
    assert(header@ =~= xdr::be32(w));
    assert(header@.subrange(0, 4) =~= xdr::be32(w));
    crate::xdr_laws::lemma_word(header@, 0, w);
}

} // verus!
