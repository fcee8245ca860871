//! What establishing a context does, as the caller of each step sees it.

use vstd::prelude::*;

use crate::consts::{
    GSS_S_BAD_MECH, GSS_S_CALL_INACCESSIBLE_READ, GSS_S_COMPLETE, GSS_S_CONTINUE_NEEDED,
    GSS_S_DEFECTIVE_CREDENTIAL, GSS_S_FAILURE,
};
use crate::consts::GSSPROXY_INTERPOSER_OID;
use crate::gpm::{AcceptSecContext, InitSecContext};
use crate::gssx::{GssxCb, GssxCred, GssxName};
use crate::interposer::attempt;
use crate::interposer::attempt::{Attempt, Operation, Status, Turn};
use crate::interposer::behavior::Behavior;
use crate::interposer::context;
use crate::interposer::context::{AcceptCall, AcceptStep, InitCall, InitStep};
use crate::interposer::error;
use crate::interposer::handle::{CredHandle, CtxHandle, NameHandle};
use crate::proc::{ArgAcceptSecContext, ArgInitSecContext};

verus! {

// ---- attempts ----

/// An attempt has succeeded: it is complete or, in context initiation alone, to be
/// continued.
pub open spec fn went_well(rule: Operation, major: u32) -> bool {
    major == GSS_S_COMPLETE || (rule == Operation::Initiate && major == GSS_S_CONTINUE_NEEDED)
}

/// The local mechanism comes first under `LOCAL_ONLY` and `LOCAL_FIRST`, and the
/// daemon under `REMOTE_FIRST` and `REMOTE_ONLY`. Nothing has failed yet.
pub proof fn first_attempt(rule: Operation, behavior: Behavior, r: Attempt)
    requires
        call_ensures(Attempt::begin, (rule, behavior), r),
    ensures
        r.rule == rule,
        r.behavior == behavior,
        r.kept.0 == GSS_S_COMPLETE,
        behavior is LocalOnly || behavior is LocalFirst <==> r.turn is LocalFirst,
        behavior is RemoteOnly || behavior is RemoteFirst <==> r.turn is Remote,
{
}

/// A local attempt that went well is reported as it is. The first one that fails
/// gives way to the daemon, unless only local is to be tried, and its status is
/// kept. After that, or under `LOCAL_ONLY`, nothing is left to try.
pub proof fn after_a_local_attempt(a: &mut Attempt, s: Status)
    requires
        call_ensures(Attempt::local, (a, s), ()),
    ensures
        final(a).rule == old(a).rule,
        final(a).behavior == old(a).behavior,
        went_well(old(a).rule, s.0) ==> final(a).turn is Report,
        went_well(old(a).rule, s.0) ==> final(a).turn == Turn::Report(s),
        !went_well(old(a).rule, s.0) && old(a).turn is LocalFirst && !(old(a).behavior
            is LocalOnly) ==> final(a).turn is Remote && final(a).kept == s,
        old(a).behavior is LocalOnly ==> final(a).turn is Report,
        !(old(a).turn is LocalFirst) ==> final(a).turn is Report,
        final(a).turn is Report ==> final(a).kept == old(a).kept,
        old(a).kept.0 == GSS_S_COMPLETE && final(a).turn is Report ==> final(a).turn
            == Turn::Report(s),
        !(final(a).turn is LocalFirst) && !(final(a).turn is LocalLast),
{
}

/// An attempt with the daemon that went well is reported as it is. One that fails
/// gives way to the local mechanism under `REMOTE_FIRST`, and in inquiries also
/// under `LOCAL_FIRST`; under `REMOTE_ONLY` it never does. In acquiring, the
/// failure is then kept.
pub proof fn after_a_remote_attempt(a: &mut Attempt, s: Status)
    requires
        call_ensures(Attempt::remote, (a, s), ()),
    ensures
        final(a).rule == old(a).rule,
        final(a).behavior == old(a).behavior,
        went_well(old(a).rule, s.0) ==> final(a).turn == Turn::Report(s),
        old(a).behavior is RemoteOnly ==> final(a).turn is Report,
        !went_well(old(a).rule, s.0) && old(a).behavior is RemoteFirst ==> final(a).turn
            is LocalLast,
        !went_well(old(a).rule, s.0) && old(a).behavior is LocalFirst ==> (final(a).turn
            is LocalLast <==> old(a).rule is Inquire),
        final(a).turn is LocalLast && old(a).rule is Acquire ==> final(a).kept == s,
        !(old(a).rule is Acquire) ==> final(a).kept == old(a).kept,
        !(final(a).turn is LocalFirst) && !(final(a).turn is Remote),
{
}

/// Giving up is reported at once.
pub proof fn after_giving_up(a: &mut Attempt, s: Status)
    requires
        call_ensures(Attempt::abandon, (a, s), ()),
    ensures
        final(a).turn is Report,
        final(a).rule == old(a).rule,
        final(a).behavior == old(a).behavior,
        final(a).kept == old(a).kept,
        old(a).kept.0 == GSS_S_COMPLETE ==> final(a).turn == Turn::Report(s),
{
}

/// What is reported in the end is the last status or the one that was kept. The last
/// one counts where it is complete, where nothing had failed before, and where it
/// asks to be continued, but for default credentials and inquiries; any other
/// failure is reported as the one that was kept.
pub proof fn what_is_reported(rule: Operation, last: Status, kept: Status, r: Status)
    requires
        call_ensures(Operation::settle, (rule, last, kept), r),
    ensures
        last.0 == GSS_S_COMPLETE ==> r == last,
        kept.0 == GSS_S_COMPLETE ==> r == last,
        last.0 == GSS_S_CONTINUE_NEEDED && !(rule is Defaults) && !(rule is Inquire) ==> r == last,
        last.0 == GSS_S_CONTINUE_NEEDED && kept.0 != GSS_S_COMPLETE && (rule is Defaults
            || rule is Inquire) ==> r == kept,
        last.0 != GSS_S_COMPLETE && last.0 != GSS_S_CONTINUE_NEEDED && kept.0 != GSS_S_COMPLETE
            ==> r == kept,
{
}

/// A context is kept exactly with a complete status or one that asks to be
/// continued.
pub proof fn kept_statuses(major: u32, r: bool)
    requires
        call_ensures(attempt::keep, (major,), r),
    ensures
        r <==> major == GSS_S_COMPLETE || major == GSS_S_CONTINUE_NEEDED,
{
}

// ---- minor codes ----

/// A minor code other than 0 is reported 0x0420_0000 higher, and 0 as 0; nothing is
/// lost by it, and what is shown of a reported code is the code it stands for.
pub proof fn minor_codes_are_shifted(err: u32, r: u32, back: u32)
    requires
        call_ensures(error::map_error, (err,), r),
        call_ensures(error::unmap_error, (r,), back),
    ensures
        err == 0 ==> r == 0,
        0 < err < 0xfbe0_0000 ==> r == err + 0x0420_0000,
        err > 0xfbe0_0000 ==> r == err - 0xfbe0_0000,
        err != 0xfbe0_0000 ==> back == err,
{
}

// ---- initiation ----

/// A context is initiated for a target, and for a mechanism that does not begin
/// with the interposer's OID.
pub proof fn what_initiation_needs(target_given: bool, mech: Option<&[u8]>, r: Option<u32>)
    requires
        call_ensures(context::check_init, (target_given, mech), r),
    ensures
        !target_given ==> r == Some(GSS_S_CALL_INACCESSIBLE_READ),
        target_given && mech is None ==> r == Some(GSS_S_BAD_MECH),
        target_given && mech is Some && GSSPROXY_INTERPOSER_OID@.is_prefix_of(mech->Some_0@) ==> r
            == Some(GSS_S_BAD_MECH),
        r is None <==> target_given && mech is Some && !GSSPROXY_INTERPOSER_OID@.is_prefix_of(
            mech->Some_0@,
        ),
{
}

/// Where the daemon comes first, it is asked with the caller's own credential: default
/// credentials are asked for only where the caller has no remote credential. A
/// target that is only known locally is turned into a remote name before that.
pub proof fn daemon_is_asked_with_the_callers_credential(
    behavior: Behavior,
    ctx: Option<CtxHandle>,
    cred: Option<CredHandle>,
    name: NameHandle,
    r: (InitCall, InitStep),
)
    requires
        call_ensures(InitCall::gssi_init_sec_context, (behavior, ctx, cred, name), r),
        behavior is RemoteFirst || behavior is RemoteOnly,
        ctx matches Some(c) ==> c.local == 0,
        cred matches Some(c) ==> c.local == 0,
    ensures
        r.0.attempt.turn is Remote,
        r.0.attempt.behavior == behavior,
        name.local != 0 && name.remote is None ==> r.1 is LocalToName,
        !(name.local != 0 && name.remote is None) && cred is Some && cred->Some_0.remote is Some
            ==> r.1 is Remote,
        !(name.local != 0 && name.remote is None) && !(cred is Some && cred->Some_0.remote
            is Some) ==> r.1 is DefaultCreds,
        cred matches Some(c) ==> r.0.cred == c,
        cred is None ==> r.0.cred.local == 0 && r.0.cred.remote is None && r.0.cred.default_creds
            && r.0.cred.store@.len() == 0,
        ctx matches Some(c) ==> r.0.ctx == c,
        ctx is None ==> r.0.ctx.local == 0 && r.0.ctx.remote is None,
        r.0.output is None,
        r.0.name == name,
{
}

/// Where the local mechanism comes first, it is asked: for a target that is only known
/// remotely after that was turned into a local name, and at once for any other.
pub proof fn local_mechanism_is_asked_first(
    behavior: Behavior,
    ctx: Option<CtxHandle>,
    cred: Option<CredHandle>,
    name: NameHandle,
    r: (InitCall, InitStep),
)
    requires
        call_ensures(InitCall::gssi_init_sec_context, (behavior, ctx, cred, name), r),
        behavior is LocalFirst || behavior is LocalOnly,
        ctx matches Some(c) ==> c.local == 0,
    ensures
        r.0.attempt.turn is LocalFirst,
        name.local == 0 && name.remote is Some <==> r.1 is NameToLocal,
        !(name.local == 0 && name.remote is Some) <==> r.1 is Local,
        cred matches Some(c) ==> r.0.cred == c,
        cred is None ==> r.0.cred.local == 0 && r.0.cred.remote is None && r.0.cred.default_creds,
        r.0.name == name,
{
}

/// A local context or a local credential is carried on with the local mechanism
/// alone, whatever the behavior. A local context with a credential that is not local
/// is a defective credential.
pub proof fn local_objects_stay_local(
    behavior: Behavior,
    ctx: Option<CtxHandle>,
    cred: Option<CredHandle>,
    name: NameHandle,
    r: (InitCall, InitStep),
)
    requires
        call_ensures(InitCall::gssi_init_sec_context, (behavior, ctx, cred, name), r),
        (ctx is Some && ctx->Some_0.local != 0) || (cred is Some && cred->Some_0.local != 0),
    ensures
        r.0.attempt.behavior is LocalOnly,
        cred is Some && cred->Some_0.local == 0 ==> r.1 == InitStep::Done(
            GSS_S_DEFECTIVE_CREDENTIAL,
            0,
        ),
        cred is None || cred->Some_0.local != 0 ==> r.1 is Local || r.1 is NameToLocal,
{
}

/// Whatever a call has come to, it asks for default credentials exactly where it is
/// the daemon's turn, the target is known to the daemon or not known locally, and
/// there is no remote credential; it asks the daemon where there is one.
pub proof fn steps_of_initiation(call: InitCall)
    ensures
        call.step() is DefaultCreds ==> call.cred.remote is None && call.attempt.turn is Remote,
        call.step() is Remote ==> call.cred.remote is Some && call.attempt.turn is Remote,
        call.step() is LocalToName ==> call.attempt.turn is Remote && call.name.local != 0
            && call.name.remote is None,
        call.attempt.turn is Remote && call.name.local == 0 ==> (call.step() is Remote
            <==> call.cred.remote is Some),
        call.attempt.turn is Remote && call.name.remote is Some ==> (call.step() is Remote
            <==> call.cred.remote is Some),
        call.attempt.turn is Remote && call.name.local != 0 && call.name.remote is None
            ==> call.step() is LocalToName,
        call.at_local() && call.name.local != 0 ==> call.step() is Local,
        call.at_local() && call.name.remote is None ==> call.step() is Local,
        call.at_local() && call.name.local == 0 && call.name.remote is Some ==> call.step()
            is NameToLocal,
        call.attempt.turn matches Turn::Report(s) ==> (call.step() matches InitStep::Done(major, _)
            && major == s.0),
        call.step() is Done ==> call.attempt.turn is Report,
        !(call.step() is Store),
{
}

/// What is reported of a context that is kept has no minor status, and a failure has
/// its minor status mapped.
pub proof fn report_of_initiation(call: InitCall, s: Status, m: u32)
    requires
        call.attempt.turn == Turn::Report(s),
        call_ensures(error::map_error, (s.1,), m),
    ensures
        s.0 == GSS_S_COMPLETE || s.0 == GSS_S_CONTINUE_NEEDED ==> call.step() == InitStep::Done(
            s.0,
            0,
        ),
        s.0 != GSS_S_COMPLETE && s.0 != GSS_S_CONTINUE_NEEDED ==> call.step() == InitStep::Done(
            s.0,
            m,
        ),
{
}

/// A target that was turned into a local name is initiated for; where it could not
/// be, the local attempt has failed.
pub proof fn after_the_local_name(call: &mut InitCall, s: Status, local: usize, r: InitStep)
    requires
        call_ensures(InitCall::named, (call, s, local), r),
        old(call).attempt.turn is LocalFirst || old(call).attempt.turn is LocalLast,
        old(call).attempt.rule is Initiate,
    ensures
        s.0 == GSS_S_COMPLETE ==> r is Local && final(call).name.local == local
            && final(call).name.remote == old(call).name.remote && final(call).attempt
            == old(call).attempt,
        s.0 != GSS_S_COMPLETE ==> !(r is Local) && final(call).name == old(call).name,
        s.0 != GSS_S_COMPLETE && s.0 != GSS_S_CONTINUE_NEEDED && old(call).attempt.turn
            is LocalFirst && !(old(call).attempt.behavior is LocalOnly) ==> r is LocalToName
            || r is DefaultCreds || r is Remote,
        final(call).cred == old(call).cred,
        final(call).ctx == old(call).ctx,
{
}

/// The local context is whatever the local mechanism made of it. A success of the
/// local mechanism ends the call, with that status.
pub proof fn after_the_local_mechanism(call: &mut InitCall, s: Status, local: usize, r: InitStep)
    requires
        call_ensures(InitCall::local_done, (call, s, local), r),
        old(call).attempt.turn is LocalFirst || old(call).attempt.turn is LocalLast,
        old(call).attempt.rule is Initiate,
    ensures
        final(call).ctx.local == local,
        final(call).ctx.remote == old(call).ctx.remote,
        final(call).cred == old(call).cred,
        final(call).name == old(call).name,
        final(call).output == old(call).output,
        s.0 == GSS_S_COMPLETE || s.0 == GSS_S_CONTINUE_NEEDED ==> r == InitStep::Done(s.0, 0),
        s.0 != GSS_S_COMPLETE && s.0 != GSS_S_CONTINUE_NEEDED && old(call).attempt.turn
            is LocalFirst && !(old(call).attempt.behavior is LocalOnly) ==> r is LocalToName
            || r is DefaultCreds || r is Remote,
        old(call).attempt.behavior is LocalOnly || old(call).attempt.turn is LocalLast ==> r
            is Done,
{
}

/// A target that was turned into a remote name is asked for, with the credential of
/// the call where it has one; where it could not be, the call is over.
pub proof fn after_the_remote_name(
    call: &mut InitCall,
    told: (u32, u32, Option<GssxName>),
    r: InitStep,
)
    requires
        call_ensures(InitCall::told_name, (call, told), r),
    ensures
        told.0 == GSS_S_COMPLETE ==> final(call).name.remote == told.2 && final(call).name.local
            == old(call).name.local,
        told.0 == GSS_S_COMPLETE && old(call).cred.remote is Some ==> r is Remote,
        told.0 == GSS_S_COMPLETE && old(call).cred.remote is None ==> r is DefaultCreds,
        told.0 == GSS_S_COMPLETE ==> final(call).attempt == old(call).attempt,
        told.0 != GSS_S_COMPLETE ==> r is Done && final(call).name == old(call).name,
        told.0 != GSS_S_COMPLETE && old(call).attempt.kept.0 == GSS_S_COMPLETE ==> (r
            matches InitStep::Done(major, _) && major == told.0),
        final(call).cred == old(call).cred,
        final(call).ctx == old(call).ctx,
{
}

/// The daemon is asked once there are default credentials, or without any.
pub proof fn after_default_credentials(
    call: &mut InitCall,
    remote: Option<GssxCred>,
    r: InitStep,
)
    requires
        call_ensures(InitCall::defaulted, (call, remote), r),
    ensures
        r is Remote,
        final(call).cred.remote == remote,
        final(call).cred.local == old(call).cred.local,
        final(call).cred.default_creds == old(call).cred.default_creds,
        final(call).attempt == old(call).attempt,
        final(call).name == old(call).name,
        final(call).ctx == old(call).ctx,
{
}

/// With a context that is kept, the daemon's context is the caller's from then on, and
/// so is a credential that the daemon has modified, which is stored; without one,
/// nothing but the attempts changes.
pub proof fn after_the_daemon(call: &mut InitCall, res: InitSecContext, r: InitStep)
    requires
        call_ensures(InitCall::remote_done, (call, res), r),
        old(call).attempt.rule is Initiate,
    ensures
        final(call).name == old(call).name,
        final(call).ctx.local == old(call).ctx.local,
        final(call).cred.local == old(call).cred.local,
        res.major == GSS_S_COMPLETE || res.major == GSS_S_CONTINUE_NEEDED ==> {
            &&& final(call).ctx.remote == res.context
            &&& final(call).output is Some
            &&& final(call).output->Some_0.output_token == res.output_token
            &&& final(call).output->Some_0.actual_mech == res.actual_mech
            &&& res.out_cred is Some ==> r is Store && final(call).cred.remote == res.out_cred
            &&& res.out_cred is None ==> r == InitStep::Done(res.major, 0) && final(call).cred
                == old(call).cred
        },
        res.major != GSS_S_COMPLETE && res.major != GSS_S_CONTINUE_NEEDED ==> {
            &&& final(call).ctx == old(call).ctx
            &&& final(call).cred == old(call).cred
            &&& final(call).output == old(call).output
            &&& old(call).attempt.behavior is RemoteFirst ==> r is Local || r is NameToLocal
            &&& !(old(call).attempt.behavior is RemoteFirst) ==> r is Done
        },
{
}

/// After a credential was stored, the call is over with what it came to before.
pub proof fn after_storing(call: &InitCall, s: Status, m: u32, r: InitStep)
    requires
        call.attempt.turn == Turn::Report(s),
        call_ensures(InitCall::stored, (call,), r),
        call_ensures(error::map_error, (s.1,), m),
    ensures
        s.0 == GSS_S_COMPLETE || s.0 == GSS_S_CONTINUE_NEEDED ==> r == InitStep::Done(s.0, 0),
        s.0 != GSS_S_COMPLETE && s.0 != GSS_S_CONTINUE_NEEDED ==> r == InitStep::Done(s.0, m),
{
}

/// The daemon is asked with the context, the credential and the target of the call.
pub proof fn what_the_daemon_is_asked_for_initiation(
    call: &InitCall,
    mech: &[u8],
    req_flags: u32,
    time_req: u32,
    input_cb: Option<&GssxCb>,
    token: Option<&[u8]>,
    r: ArgInitSecContext,
)
    requires
        call_ensures(
            InitCall::remote_arg,
            (call, mech, req_flags, time_req, input_cb, token),
            r,
        ),
    ensures
        r.cred_handle is Some <==> call.cred.remote is Some,
        r.context_handle is Some <==> call.ctx.remote is Some,
        r.target_name is Some <==> call.name.remote is Some,
        r.mech_type@ == mech@,
        r.req_flags == req_flags,
        r.time_req == time_req,
        r.input_token is Some <==> token is Some,
        token matches Some(t) ==> r.input_token->Some_0@ == t@,
        r.input_cb is Some <==> input_cb is Some,
{
}

/// The context handle is given back to the caller with a success, and with a failure
/// only where there is a context behind it.
pub proof fn handle_of_a_failed_initiation(call: &InitCall, major: u32, r: bool)
    requires
        call_ensures(InitCall::keeps_handle, (call, major), r),
    ensures
        major == GSS_S_COMPLETE || major == GSS_S_CONTINUE_NEEDED ==> r,
        call.ctx.local != 0 || call.ctx.remote is Some ==> r,
        major != GSS_S_COMPLETE && major != GSS_S_CONTINUE_NEEDED && call.ctx.local == 0
            && call.ctx.remote is None ==> !r,
{
}

// ---- acceptance ----

/// A context that has begun on one side is accepted on that side.
pub proof fn side_of_acceptance(
    behavior: Behavior,
    ctx: Option<CtxHandle>,
    cred: Option<CredHandle>,
    wants_name: bool,
    wants_deleg: bool,
    r: (AcceptCall, AcceptStep),
)
    requires
        call_ensures(
            AcceptCall::gssi_accept_sec_context,
            (behavior, ctx, cred, wants_name, wants_deleg),
            r,
        ),
    ensures
        ctx is Some && ctx->Some_0.local != 0 ==> r.0.behavior is LocalOnly,
        ctx is Some && ctx->Some_0.local == 0 && ctx->Some_0.remote is Some ==> r.0.behavior
            is RemoteOnly,
        ctx is None ==> r.0.behavior == behavior,
        ctx is Some && ctx->Some_0.local == 0 && ctx->Some_0.remote is None ==> r.0.behavior
            == behavior,
        cred is None ==> r.1 == AcceptStep::DefaultCreds(r.0.behavior),
        r.1 is DefaultCreds ==> cred is None,
        cred matches Some(c) ==> r.0.cred == c && !r.0.owned,
        cred is None ==> r.0.owned && r.0.cred.default_creds && r.0.cred.store@.len() == 0
            && r.0.cred.remote is None && r.0.cred.local == 0,
        ctx is None ==> r.0.ctx.remote is None && r.0.ctx.local == 0,
        ctx matches Some(c) ==> r.0.ctx == c,
        r.0.name is Some <==> wants_name,
        r.0.deleg is Some <==> wants_deleg,
{
}

/// A local credential is refused only where the call may use the daemon alone, and is
/// used with the local mechanism otherwise; a remote credential is refused only where
/// the call may use the local mechanism alone, and is used with the daemon otherwise.
pub proof fn credentials_are_used_on_their_side(
    behavior: Behavior,
    ctx: Option<CtxHandle>,
    cred: CredHandle,
    wants_name: bool,
    wants_deleg: bool,
    r: (AcceptCall, AcceptStep),
)
    requires
        call_ensures(
            AcceptCall::gssi_accept_sec_context,
            (behavior, ctx, Some(cred), wants_name, wants_deleg),
            r,
        ),
    ensures
        cred.local != 0 && !(r.0.behavior is RemoteOnly) ==> r.1 is Local,
        cred.local != 0 && r.0.behavior is RemoteOnly ==> r.1 == AcceptStep::Done(
            GSS_S_DEFECTIVE_CREDENTIAL,
            0,
        ),
        cred.local == 0 && cred.remote is Some && !(r.0.behavior is LocalOnly) ==> r.1 is Remote,
        cred.local == 0 && cred.remote is Some && r.0.behavior is LocalOnly ==> r.1
            == AcceptStep::Done(GSS_S_DEFECTIVE_CREDENTIAL, 0),
        cred.local == 0 && cred.remote is None && r.0.behavior is LocalOnly ==> r.1 is Local,
        cred.local == 0 && cred.remote is None && r.0.behavior is RemoteOnly ==> r.1 is Remote,
        cred.local == 0 && cred.remote is None && (r.0.behavior is LocalFirst || r.0.behavior
            is RemoteFirst) ==> r.1 == AcceptStep::Done(GSS_S_FAILURE, 0),
{
}

/// Default credentials are used as the caller's own would be; without them the call is
/// over with the failure to find them.
pub proof fn after_defaults_for_acceptance(
    call: &mut AcceptCall,
    s: Status,
    cred: CredHandle,
    m: u32,
    r: AcceptStep,
)
    requires
        call_ensures(AcceptCall::defaulted, (call, s, cred), r),
        call_ensures(error::map_error, (s.1,), m),
    ensures
        final(call).cred == cred,
        final(call).behavior == old(call).behavior,
        final(call).ctx == old(call).ctx,
        s.0 != GSS_S_COMPLETE ==> r == AcceptStep::Done(s.0, m),
        s.0 == GSS_S_COMPLETE && cred.local != 0 && !(old(call).behavior is RemoteOnly) ==> r
            is Local,
        s.0 == GSS_S_COMPLETE && cred.local == 0 && cred.remote is Some && !(old(call).behavior
            is LocalOnly) ==> r is Remote,
{
}

/// What the local mechanism gave is the caller's: the context, and the name and the
/// delegated credential where they are wanted. Its status is reported, the minor one
/// mapped.
pub proof fn after_local_acceptance(
    call: &mut AcceptCall,
    s: Status,
    ctx: usize,
    name: usize,
    deleg: usize,
    m: u32,
    r: AcceptStep,
)
    requires
        call_ensures(AcceptCall::local_done, (call, s, ctx, name, deleg), r),
        call_ensures(error::map_error, (s.1,), m),
    ensures
        r == AcceptStep::Done(s.0, m),
        final(call).ctx.local == ctx,
        final(call).ctx.remote == old(call).ctx.remote,
        final(call).name is Some <==> old(call).name is Some,
        final(call).name matches Some(n) ==> n.local == name,
        final(call).deleg is Some <==> old(call).deleg is Some,
        final(call).deleg matches Some(d) ==> d.local == deleg,
        final(call).cred == old(call).cred,
{
}

/// What the daemon gave with a context that is kept is the caller's: the context, the
/// outputs, and the name and the delegated credential where they are wanted. With any
/// other status nothing changes. The status is reported, the minor one mapped.
pub proof fn after_remote_acceptance(
    call: &mut AcceptCall,
    res: AcceptSecContext,
    m: u32,
    r: AcceptStep,
)
    requires
        call_ensures(AcceptCall::remote_done, (call, res), r),
        call_ensures(error::map_error, (res.minor,), m),
    ensures
        r == AcceptStep::Done(res.major, m),
        final(call).cred == old(call).cred,
        final(call).ctx.local == old(call).ctx.local,
        res.major == GSS_S_COMPLETE || res.major == GSS_S_CONTINUE_NEEDED ==> {
            &&& final(call).ctx.remote == res.context
            &&& final(call).name matches Some(n) ==> n.remote == res.src_name
            &&& final(call).deleg matches Some(d) ==> d.remote == res.delegated_cred
            &&& final(call).output is Some
            &&& final(call).output->Some_0.output_token == res.output_token
            &&& final(call).output->Some_0.actual_mech == res.actual_mech
        },
        final(call).name is Some <==> old(call).name is Some,
        final(call).deleg is Some <==> old(call).deleg is Some,
        res.major != GSS_S_COMPLETE && res.major != GSS_S_CONTINUE_NEEDED ==> *final(call) == *old(
            call,
        ),
{
}

/// The daemon is asked with the context and the credential of the call, and for a
/// delegated credential where one is wanted.
pub proof fn what_the_daemon_is_asked_for_acceptance(
    call: &AcceptCall,
    token: &[u8],
    input_cb: Option<&GssxCb>,
    r: ArgAcceptSecContext,
)
    requires
        call_ensures(AcceptCall::remote_arg, (call, token, input_cb), r),
    ensures
        r.input_token@ == token@,
        r.ret_deleg_cred <==> call.deleg is Some,
        r.cred_handle is Some <==> call.cred.remote is Some,
        r.context_handle is Some <==> call.ctx.remote is Some,
        r.input_cb is Some <==> input_cb is Some,
{
}

/// Only default credentials are released after the call, never the caller's own.
pub proof fn callers_credential_is_not_released(call: &AcceptCall, r: Option<&GssxCred>)
    requires
        call_ensures(AcceptCall::to_release, (call,), r),
    ensures
        !call.owned ==> r is None,
        call.owned && call.cred.remote is Some ==> r is Some,
        r matches Some(c) ==> call.cred.remote == Some(*c),
{
}

/// The context handle is given back as in initiation.
pub proof fn handle_of_a_failed_acceptance(call: &AcceptCall, major: u32, r: bool)
    requires
        call_ensures(AcceptCall::keeps_handle, (call, major), r),
    ensures
        major == GSS_S_COMPLETE || major == GSS_S_CONTINUE_NEEDED ==> r,
        call.ctx.local != 0 || call.ctx.remote is Some ==> r,
        major != GSS_S_COMPLETE && major != GSS_S_CONTINUE_NEEDED && call.ctx.local == 0
            && call.ctx.remote is None ==> !r,
{
}

} // verus!
