//! What acquiring, inquiring and keeping credentials does, as the caller of each
//! step sees it.

use vstd::prelude::*;

use crate::consts::{
    EINVAL, EIO, GSS_C_ACCEPT, GSS_C_BOTH, GSS_C_INITIATE, GSS_S_BAD_NAME,
    GSS_S_CALL_INACCESSIBLE_READ, GSS_S_CALL_INACCESSIBLE_WRITE, GSS_S_COMPLETE,
    GSS_S_CRED_UNAVAIL, GSS_S_FAILURE, GSS_S_NO_CRED, GSS_S_UNAVAILABLE,
    GSSPROXY_INTERPOSER_OID,
};
use crate::gpm;
use crate::gpm::{AcquireCred, InquireCred, InquireCredByMech};
use crate::gssx::{GssxCred, GssxName};
use crate::interposer::attempt::{Status, Turn};
use crate::interposer::behavior::Behavior;
use crate::interposer::creds;
use crate::interposer::creds::{
    AcquireCall, AcquireStep, AddRequest, CredUse, Inquiry, PasswordStep,
};
use crate::interposer::error;
use crate::interposer::handle;
use crate::interposer::handle::{CredHandle, DefCreds, DefStep, NameHandle, StoredCred};
use crate::interposer::special::Registry;
use crate::proc::ArgAcquireCred;
use crate::wire_laws;
use crate::xdr;
use crate::xdr::Xdr;

verus! {

// ---- acquiring ----

/// Acquiring needs a place for the credential. Unless only the local mechanism is to be
/// tried, the credential cache is looked at first.
pub proof fn cache_is_looked_at_first(
    output_wanted: bool,
    behavior: Behavior,
    ccache: Option<&str>,
    name: Option<NameHandle>,
    m: u32,
    r: (AcquireCall, AcquireStep),
)
    requires
        call_ensures(
            AcquireCall::gssi_acquire_cred_from,
            (output_wanted, behavior, ccache, name),
            r,
        ),
        call_ensures(error::map_error, (EINVAL as u32,), m),
    ensures
        !output_wanted ==> r.1 == AcquireStep::Done(GSS_S_FAILURE, m),
        output_wanted && behavior is LocalOnly ==> r.1 is Prepare,
        output_wanted && !(behavior is LocalOnly) ==> r.1 is Retrieve,
        r.0.attempt.behavior == behavior,
        r.0.attempt.rule is Acquire,
        r.0.name == name,
        r.0.input is None,
        r.0.out.remote is None && r.0.out.local == 0,
        r.0.out.default_creds <==> ccache is None,
        r.0.out.store@.len() == (if ccache is Some {
            1int
        } else {
            0
        }),
{
    assert(crate::server::config::props_view(r.0.out.store@).len() == r.0.out.store@.len());
}

/// A credential that is found in the cache is worked on by the daemon, which is then
/// asked first. A cache that was named and holds none makes the local mechanism come
/// first, and otherwise the behavior decides.
pub proof fn what_the_cache_decides(
    call: &mut AcquireCall,
    found: (u32, u32, Option<GssxCred>),
    named: bool,
    r: AcquireStep,
)
    requires
        call_ensures(AcquireCall::retrieved, (call, found, named), r),
    ensures
        found.0 == GSS_S_COMPLETE ==> final(call).input == found.2 && (r is Remote || r
            is LocalToName) && final(call).attempt.behavior is RemoteFirst,
        found.0 != GSS_S_COMPLETE && named ==> r is Prepare && final(call).attempt.behavior
            is LocalFirst,
        found.0 != GSS_S_COMPLETE && !named ==> final(call).attempt.behavior == old(
            call,
        ).attempt.behavior,
        found.0 != GSS_S_COMPLETE ==> final(call).input == old(call).input,
        found.0 != GSS_S_COMPLETE && !named && old(call).attempt.behavior is LocalFirst ==> r
            is Prepare,
        found.0 != GSS_S_COMPLETE && !named && (old(call).attempt.behavior is RemoteFirst || old(
            call,
        ).attempt.behavior is RemoteOnly) ==> r is Remote || r is LocalToName,
        final(call).name == old(call).name,
        final(call).out == old(call).out,
        final(call).mechs == old(call).mechs,
        final(call).actual_mechs == old(call).actual_mechs,
        final(call).time_rec == old(call).time_rec,
{
}

/// Impersonating needs the credential of the impersonator, which the daemon is handed,
/// and a place for the credential. The cache is not looked at.
pub proof fn impersonation_begins(
    imp: Option<&CredHandle>,
    output_wanted: bool,
    behavior: Behavior,
    name: Option<NameHandle>,
    m: u32,
    r: (AcquireCall, AcquireStep),
)
    requires
        call_ensures(
            AcquireCall::gssi_acquire_cred_impersonate_name,
            (imp, output_wanted, behavior, name),
            r,
        ),
        call_ensures(error::map_error, (EINVAL as u32,), m),
    ensures
        imp is None ==> r.1 == AcquireStep::Done(GSS_S_NO_CRED, m),
        imp is Some && !output_wanted ==> r.1 == AcquireStep::Done(GSS_S_FAILURE, m),
        imp is Some && output_wanted && (behavior is LocalOnly || behavior is LocalFirst) ==> r.1
            is Prepare,
        imp is Some && output_wanted && (behavior is RemoteOnly || behavior is RemoteFirst)
            ==> r.1 is Remote || r.1 is LocalToName,
        imp matches Some(c) ==> (r.0.input is Some <==> c.remote is Some),
        imp is Some && imp->Some_0.remote is Some ==> r.0.input->Some_0.tree()
            == imp->Some_0.remote->Some_0.tree(),
        r.0.attempt.rule is Impersonate,
        !(r.1 is Retrieve),
        r.0.name == name,
        r.0.out.local == 0 && r.0.out.remote is None && !r.0.out.default_creds,
        r.0.out.store@.len() == 0,
{
}

/// Whatever a call has come to, the daemon is asked where it is its turn, after a name
/// that is only known locally was turned into a remote one; and the local attempt is
/// prepared where it is its turn.
pub proof fn steps_of_acquiring(call: AcquireCall)
    ensures
        call.step() is Remote ==> call.attempt.turn is Remote,
        call.step() is LocalToName <==> call.attempt.turn is Remote && call.name is Some
            && call.name->Some_0.local != 0 && call.name->Some_0.remote is None,
        call.attempt.turn is Remote && call.name is None ==> call.step() is Remote,
        call.attempt.turn is Remote && call.name is Some && call.name->Some_0.local == 0
            ==> call.step() is Remote,
        call.attempt.turn is Remote && call.name is Some && call.name->Some_0.remote is Some
            ==> call.step() is Remote,
        call.attempt.turn is LocalFirst || call.attempt.turn is LocalLast <==> call.step()
            is Prepare,
        call.attempt.turn is Report <==> call.step() is Done,
{
}

/// What is reported has its minor status mapped.
pub proof fn report_of_acquiring(call: AcquireCall, s: Status, m: u32)
    requires
        call.attempt.turn == Turn::Report(s),
        call_ensures(error::map_error, (s.1,), m),
    ensures
        call.step() == AcquireStep::Done(s.0, m),
{
}

/// The local attempt is made for every desired mechanism, each behind the
/// interposer's OID, and fails where there is none. A name that is only known remotely
/// is turned into a local one first.
pub proof fn local_attempt_is_for_special_mechanisms(
    call: &mut AcquireCall,
    reg: &mut Registry,
    desired: &[Vec<u8>],
    r: AcquireStep,
    i: int,
)
    requires
        call_ensures(AcquireCall::prepare, (call, reg, desired), r),
    ensures
        desired@.len() == 0 ==> !(r is Local) && !(r is NameToLocal),
        desired@.len() > 0 && old(call).name is Some && old(call).name->Some_0.local == 0 && old(
            call,
        ).name->Some_0.remote is Some ==> r is NameToLocal,
        desired@.len() > 0 && old(call).name is None ==> r is Local,
        desired@.len() > 0 && old(call).name is Some && old(call).name->Some_0.local != 0 ==> r
            is Local,
        desired@.len() > 0 ==> final(call).mechs@.len() == desired@.len(),
        0 <= i < desired@.len() ==> GSSPROXY_INTERPOSER_OID@.is_prefix_of(final(call).mechs@[i]@),
        0 <= i < desired@.len() && !GSSPROXY_INTERPOSER_OID@.is_prefix_of(desired@[i]@)
            ==> final(call).mechs@[i]@ == GSSPROXY_INTERPOSER_OID@ + desired@[i]@,
        0 <= i < desired@.len() && GSSPROXY_INTERPOSER_OID@.is_prefix_of(desired@[i]@)
            ==> final(call).mechs@[i]@ == desired@[i]@,
        final(call).name == old(call).name,
        final(call).input == old(call).input,
        final(call).out == old(call).out,
        final(call).input == old(call).input,
        final(call).actual_mechs == old(call).actual_mechs,
        final(call).time_rec == old(call).time_rec,
{
    if 0 <= i < desired@.len() {
        assert(final(call).mechs@[i]@ == crate::interposer::special::special_of(desired@[i]@));
        crate::interposer::special::special_form_is_special(desired@[i]@);
    }
}

/// A name that was turned into a local one is acquired for; where it could not be, the
/// local attempt has failed.
pub proof fn after_the_local_name(call: &mut AcquireCall, s: Status, local: usize, r: AcquireStep)
    requires
        call_ensures(AcquireCall::named, (call, s, local), r),
    ensures
        s.0 == GSS_S_COMPLETE ==> r is Local,
        s.0 == GSS_S_COMPLETE && old(call).name is Some ==> final(call).name is Some
            && final(call).name->Some_0.local == local && final(call).name->Some_0.remote == old(
            call,
        ).name->Some_0.remote,
        s.0 != GSS_S_COMPLETE ==> !(r is Local) && final(call).name == old(call).name,
        final(call).out == old(call).out,
        final(call).input == old(call).input,
        final(call).mechs == old(call).mechs,
        final(call).input == old(call).input,
        final(call).actual_mechs == old(call).actual_mechs,
        final(call).time_rec == old(call).time_rec,
{
}

/// The local credential is whatever the local mechanism gave; a success ends the call.
pub proof fn after_the_local_mechanism(
    call: &mut AcquireCall,
    s: Status,
    local: usize,
    m: u32,
    r: AcquireStep,
)
    requires
        call_ensures(AcquireCall::local_done, (call, s, local), r),
        call_ensures(error::map_error, (s.1,), m),
    ensures
        final(call).out.local == local,
        final(call).out.remote == old(call).out.remote,
        s.0 == GSS_S_COMPLETE ==> r == AcquireStep::Done(GSS_S_COMPLETE, m),
        s.0 != GSS_S_COMPLETE && !(old(call).attempt.rule is Initiate) && old(call).attempt.turn
            is LocalFirst && !(old(call).attempt.behavior is LocalOnly) ==> r is Remote || r
            is LocalToName,
        old(call).attempt.behavior is LocalOnly || !(old(call).attempt.turn is LocalFirst) ==> r
            is Done,
        final(call).input == old(call).input,
        final(call).name == old(call).name,
        final(call).mechs == old(call).mechs,
        final(call).input == old(call).input,
        final(call).actual_mechs == old(call).actual_mechs,
        final(call).time_rec == old(call).time_rec,
{
}

/// A name that was turned into a remote one is asked for; where it could not be, the
/// call is over.
pub proof fn after_the_remote_name(
    call: &mut AcquireCall,
    told: (u32, u32, Option<GssxName>),
    r: AcquireStep,
)
    requires
        call_ensures(AcquireCall::told_name, (call, told), r),
    ensures
        told.0 == GSS_S_COMPLETE ==> r is Remote,
        told.0 == GSS_S_COMPLETE && old(call).name is Some ==> final(call).name is Some
            && final(call).name->Some_0.remote == told.2 && final(call).name->Some_0.local == old(
            call,
        ).name->Some_0.local,
        told.0 != GSS_S_COMPLETE ==> r is Done && final(call).name == old(call).name,
        final(call).out == old(call).out,
        final(call).input == old(call).input,
        final(call).mechs == old(call).mechs,
        final(call).input == old(call).input,
        final(call).actual_mechs == old(call).actual_mechs,
        final(call).time_rec == old(call).time_rec,
{
}

/// The daemon is handed the credential to work on and the desired name, mechanisms,
/// lifetime and usage; only where it is to impersonate does it get an option.
pub proof fn what_the_daemon_is_asked(
    call: &AcquireCall,
    time_req: u32,
    desired: &[Vec<u8>],
    usage: i32,
    r: ArgAcquireCred,
    i: int,
)
    requires
        call_ensures(AcquireCall::remote_arg, (call, time_req, desired, usage), r),
    ensures
        r.input_cred_handle is Some <==> call.input is Some,
        r.desired_name is Some <==> call.name is Some && call.name->Some_0.remote is Some,
        r.time_req == time_req,
        r.initiator_time_req == 0 && r.acceptor_time_req == 0,
        !r.add_cred_to_input_handle,
        r.desired_mechs@.len() == desired@.len(),
        0 <= i < desired@.len() ==> r.desired_mechs@[i]@ == desired@[i]@,
        usage == GSS_C_INITIATE ==> r.cred_usage == 1,
        usage == GSS_C_ACCEPT ==> r.cred_usage == 2,
        usage == GSS_C_BOTH ==> r.cred_usage == 3,
        r.options@.len() == 1 <==> call.attempt.rule is Impersonate,
        r.options@.len() == 0 <==> !(call.attempt.rule is Impersonate),
{
    if 0 <= i < desired@.len() {
        assert(r.desired_mechs@[i]@ == desired@[i]@);
    }
}

/// With a success the credential is the caller's, and its lifetime is reported. One that
/// is new is stored, unless it is for another name. A failure gives way to the local
/// mechanism under `REMOTE_FIRST` alone.
pub proof fn after_the_daemon(call: &mut AcquireCall, acq: AcquireCred, r: AcquireStep)
    requires
        call_ensures(AcquireCall::remote_done, (call, acq), r),
        old(call).attempt.rule is Acquire || old(call).attempt.rule is Impersonate,
    ensures
        acq.major == GSS_S_COMPLETE ==> final(call).out.remote == acq.cred && final(call).time_rec
            == Some(acq.time_rec) && final(call).out.local == old(call).out.local,
        acq.major != GSS_S_COMPLETE ==> final(call).out == old(call).out && !(r is Store),
        acq.major == GSS_S_COMPLETE && acq.cred is Some && old(call).input is None && old(
            call,
        ).attempt.rule is Acquire ==> r is Store,
        acq.major == GSS_S_COMPLETE && acq.cred is Some && old(call).input is Some && old(
            call,
        ).attempt.rule is Acquire && old(call).input->Some_0.cred_handle_reference@
            != acq.cred->Some_0.cred_handle_reference@ ==> r is Store,
        old(call).input is Some && acq.cred == old(call).input ==> !(r is Store),
        acq.cred is None || old(call).attempt.rule is Impersonate ==> !(r is Store),
        acq.major == GSS_S_COMPLETE && !(r is Store) ==> (r matches AcquireStep::Done(major, _)
            && major == GSS_S_COMPLETE),
        acq.major != GSS_S_COMPLETE && old(call).attempt.behavior is RemoteFirst ==> r is Prepare,
        acq.major != GSS_S_COMPLETE && !(old(call).attempt.behavior is RemoteFirst) ==> r is Done,
        final(call).input == old(call).input,
        final(call).name == old(call).name,
        acq.major != GSS_S_COMPLETE ==> final(call).mechs == old(call).mechs,
        acq.major != GSS_S_COMPLETE ==> final(call).input == old(call).input,
        acq.major != GSS_S_COMPLETE ==> final(call).actual_mechs == old(call).actual_mechs,
        acq.major != GSS_S_COMPLETE ==> final(call).time_rec == old(call).time_rec,
{
}

/// A credential that could not be stored is a failure, and the call is over either way.
pub proof fn after_storing(call: &mut AcquireCall, s: Status, minor: u32, r: AcquireStep)
    requires
        call_ensures(AcquireCall::stored, (call, s, minor), r),
    ensures
        r is Done,
        s.0 == GSS_S_COMPLETE ==> (r matches AcquireStep::Done(major, _) && major
            == GSS_S_COMPLETE),
        old(call).attempt.kept.0 == GSS_S_COMPLETE ==> (r matches AcquireStep::Done(major, _)
            && major == s.0),
        final(call).out == old(call).out,
        final(call).mechs == old(call).mechs,
        final(call).input == old(call).input,
        final(call).actual_mechs == old(call).actual_mechs,
        final(call).time_rec == old(call).time_rec,
{
}

// ---- adding ----

/// A credential is added for its mechanism alone and, by its usage, for the lifetime of
/// the initiator, of the acceptor, or the longer one; there must be a place for it.
pub proof fn what_adding_acquires(
    output_wanted: bool,
    mech: Option<&[u8]>,
    usage: i32,
    initiator: u32,
    acceptor: u32,
    r: Result<AddRequest, u32>,
)
    requires
        call_ensures(
            creds::gssi_add_cred_from,
            (output_wanted, mech, usage, initiator, acceptor),
            r,
        ),
    ensures
        r is Ok <==> output_wanted,
        r matches Err(major) ==> major == GSS_S_CALL_INACCESSIBLE_WRITE,
        r matches Ok(q) ==> {
            &&& usage == GSS_C_INITIATE ==> q.time_req == initiator
            &&& usage == GSS_C_ACCEPT ==> q.time_req == acceptor
            &&& usage == GSS_C_BOTH ==> q.time_req >= initiator && q.time_req >= acceptor && (
            q.time_req == initiator || q.time_req == acceptor)
            &&& usage != GSS_C_INITIATE && usage != GSS_C_ACCEPT && usage != GSS_C_BOTH
                ==> q.time_req == 0
            &&& mech is None ==> q.desired_mechs@.len() == 0
            &&& mech matches Some(m) ==> q.desired_mechs@.len() == 1 && q.desired_mechs@[0]@ == m@
        },
{
    if let Ok(q) = r {
        let v = crate::octets::views(q.desired_mechs@);
        assert(v.len() == q.desired_mechs@.len());
        if mech is Some {
            assert(v[0] == q.desired_mechs@[0]@);
        }
    }
}

/// The lifetime is reported for the initiator unless the credential is for accepting,
/// and for the acceptor unless it is for initiating; with a failure for neither.
pub proof fn lifetimes_of_an_added_credential(
    major: u32,
    usage: i32,
    time: u32,
    r: (Option<u32>, Option<u32>),
)
    requires
        call_ensures(creds::added_times, (major, usage, time), r),
    ensures
        major != GSS_S_COMPLETE ==> r == (None::<u32>, None::<u32>),
        major == GSS_S_COMPLETE && usage == GSS_C_BOTH ==> r == (Some(time), Some(time)),
        major == GSS_S_COMPLETE && usage == GSS_C_INITIATE ==> r == (Some(time), None::<u32>),
        major == GSS_S_COMPLETE && usage == GSS_C_ACCEPT ==> r == (None::<u32>, Some(time)),
{
}

// ---- passwords ----

/// A password is never sent: acquiring with one fails under `REMOTE_ONLY`, and is for the
/// local mechanism otherwise. A name, a place for the credential and a mechanism must
/// be given.
pub proof fn passwords_stay_local(
    reg: &mut Registry,
    name: Option<&NameHandle>,
    output_wanted: bool,
    desired: Option<&[Vec<u8>]>,
    behavior: Behavior,
    m: u32,
    r: (PasswordStep, Vec<Vec<u8>>),
)
    requires
        call_ensures(
            creds::gssi_acquire_cred_with_password,
            (reg, name, output_wanted, desired, behavior),
            r,
        ),
        call_ensures(error::map_error, (EINVAL as u32,), m),
    ensures
        name is None ==> r.0 == PasswordStep::Done(GSS_S_BAD_NAME, Some(m)),
        name is Some && !output_wanted ==> r.0 == PasswordStep::Done(GSS_S_FAILURE, Some(m)),
        name is Some && output_wanted && desired is None ==> r.0 == PasswordStep::Done(
            GSS_S_CALL_INACCESSIBLE_READ,
            None,
        ),
        name is Some && output_wanted && desired is Some && behavior is RemoteOnly ==> r.0
            == PasswordStep::Done(GSS_S_FAILURE, Some(m)),
        name is Some && output_wanted && desired is Some && desired->Some_0@.len() == 0 ==> r.0
            == PasswordStep::Done(GSS_S_FAILURE, Some(m)),
        name is Some && output_wanted && desired is Some && desired->Some_0@.len() > 0
            && !(behavior is RemoteOnly) ==> {
            &&& name->Some_0.local == 0 && name->Some_0.remote is Some ==> r.0 is NameToLocal
            &&& name->Some_0.local != 0 || name->Some_0.remote is None ==> r.0 is Local
            &&& r.1@.len() == desired->Some_0@.len()
        },
        behavior is RemoteOnly ==> !(r.0 is Local) && !(r.0 is NameToLocal),
{
}

/// After the name was turned into a local one, the credential is acquired; where it could
/// not be, that is the failure.
pub proof fn after_the_name_for_a_password(s: Status, m: u32, r: PasswordStep)
    requires
        call_ensures(creds::password_named, (s,), r),
        call_ensures(error::map_error, (s.1,), m),
    ensures
        s.0 == GSS_S_COMPLETE ==> r is Local,
        s.0 != GSS_S_COMPLETE ==> r == PasswordStep::Done(s.0, Some(m)),
{
}

// ---- inquiries and other operations ----

/// A local credential is inquired locally, a remote one from what is known of it, and
/// one that is neither not at all.
pub proof fn where_credentials_are_inquired(cred: &CredHandle, r: Inquiry<InquireCred>)
    requires
        call_ensures(creds::gssi_inquire_cred, (cred,), r),
    ensures
        cred.local != 0 <==> r is Local,
        cred.local == 0 && cred.remote is Some <==> r is Remote,
        cred.local == 0 && cred.remote is None ==> r == Inquiry::<InquireCred>::Done(
            GSS_S_FAILURE,
            0,
        ),
{
}

/// The local mechanism is asked for the special form of the mechanism; a remote
/// credential is not asked under it.
pub proof fn where_credentials_are_inquired_by_mech(
    reg: &mut Registry,
    cred: &CredHandle,
    mech: Option<&[u8]>,
    r: (Inquiry<InquireCredByMech>, Option<Vec<u8>>),
)
    requires
        call_ensures(creds::gssi_inquire_cred_by_mech, (reg, cred, mech), r),
    ensures
        cred.local != 0 <==> r.0 is Local,
        cred.local == 0 && cred.remote is Some <==> r.0 is Remote,
        cred.local == 0 && cred.remote is None ==> r.0 == Inquiry::<InquireCredByMech>::Done(
            GSS_S_FAILURE,
            0,
        ),
        cred.local == 0 ==> r.1 is None && final(reg)@ == old(reg)@,
        cred.local != 0 && mech is Some ==> r.1 is Some && GSSPROXY_INTERPOSER_OID@.is_prefix_of(
            r.1->Some_0@,
        ),
{
    if mech is Some {
        crate::interposer::special::special_form_is_special(mech->Some_0@);
    }
}

/// Inquiries by OID, options and export are for local credentials; options are refused
/// also where there is a remote one.
pub proof fn operations_on_local_credentials(
    cred: Option<&CredHandle>,
    inquired: CredUse,
    optioned: CredUse,
    exported: CredUse,
)
    requires
        call_ensures(creds::gssi_inquire_cred_by_oid, (cred,), inquired),
        call_ensures(creds::gssi_set_cred_option, (cred,), optioned),
        call_ensures(creds::gssi_export_cred, (cred,), exported),
    ensures
        cred is None ==> {
            &&& inquired == CredUse::Refused(GSS_S_CALL_INACCESSIBLE_READ)
            &&& optioned == CredUse::Refused(GSS_S_CALL_INACCESSIBLE_READ)
            &&& exported == CredUse::Refused(GSS_S_CALL_INACCESSIBLE_READ)
        },
        cred is Some && cred->Some_0.local == 0 ==> {
            &&& inquired == CredUse::Refused(GSS_S_UNAVAILABLE)
            &&& optioned == CredUse::Refused(GSS_S_UNAVAILABLE)
            &&& exported == CredUse::Refused(GSS_S_CRED_UNAVAIL)
        },
        cred is Some && cred->Some_0.local != 0 ==> {
            &&& inquired == CredUse::Local(cred->Some_0.local)
            &&& exported == CredUse::Local(cred->Some_0.local)
            &&& cred->Some_0.remote is None ==> optioned == CredUse::Local(cred->Some_0.local)
            &&& cred->Some_0.remote is Some ==> optioned == CredUse::Refused(GSS_S_UNAVAILABLE)
        },
{
}

/// A remote credential is stored in a cache, and any other by the local mechanism.
pub proof fn where_credentials_are_stored(cred: Option<&CredHandle>, r: CredUse)
    requires
        call_ensures(creds::gssi_store_cred_into, (cred,), r),
    ensures
        cred is None ==> r == CredUse::Refused(GSS_S_CALL_INACCESSIBLE_READ),
        cred is Some && cred->Some_0.remote is Some ==> r is Remote,
        cred is Some && cred->Some_0.remote is None ==> r == CredUse::Local(cred->Some_0.local),
{
}

/// Releasing fails exactly where the daemon fails to, and with its status.
pub proof fn status_of_releasing(given: bool, released: Option<Status>, r: (u32, Option<u32>))
    requires
        call_ensures(creds::gssi_release_cred, (given, released), r),
    ensures
        !given ==> r == (GSS_S_CALL_INACCESSIBLE_READ, None::<u32>),
        given && released is None ==> r == (GSS_S_COMPLETE, Some(0u32)),
        given && released is Some ==> r.0 == released->Some_0.0,
        given && released is Some && released->Some_0.0 != GSS_S_COMPLETE ==> r.1 == Some(
            released->Some_0.1,
        ),
{
}

/// Credentials cannot be imported without a mechanism; with one, the token stands behind
/// the length of the whole and the mechanism behind the interposer's OID.
pub proof fn imported_credential_token(
    plain: u32,
    reg: &mut Registry,
    mech: &[u8],
    token: &[u8],
    r: Result<Vec<u8>, u32>,
)
    requires
        call_ensures(creds::gssi_import_cred, (), plain),
        call_ensures(creds::gssi_import_cred_by_mech, (reg, Some(mech), token), r),
        !GSSPROXY_INTERPOSER_OID@.is_prefix_of(mech@),
    ensures
        plain == GSS_S_UNAVAILABLE,
        r is Ok,
        r->Ok_0@ == wire_laws::word((15 + mech@.len() + token@.len()) as u32)
            + GSSPROXY_INTERPOSER_OID@ + mech@ + token@,
{
    let n = (15 + mech@.len() + token@.len()) as u32;
    assert(GSSPROXY_INTERPOSER_OID@.len() == 11);
    assert(xdr::be32(n) =~= wire_laws::word(n));
    assert(r->Ok_0@ =~= wire_laws::word(n) + GSSPROXY_INTERPOSER_OID@ + mech@ + token@);
}

// ---- the cache ----

/// Two credentials count as the same where both are absent, or where both are there and
/// agree in the desired name, the number of elements and the reference.
pub proof fn when_credentials_are_the_same(a: Option<&GssxCred>, b: Option<&GssxCred>, r: bool, s: bool)
    requires
        call_ensures(handle::creds_are_equal, (a, b), r),
        call_ensures(handle::creds_are_equal, (b, a), s),
    ensures
        r == s,
        a is None && b is None ==> r,
        a is Some != b is Some ==> !r,
        a is Some && b is Some && *a->Some_0 == *b->Some_0 ==> r,
        a is Some && b is Some && a->Some_0.cred_handle_reference@
            != b->Some_0.cred_handle_reference@ ==> !r,
        a is Some && b is Some && a->Some_0.elements@.len() != b->Some_0.elements@.len() ==> !r,
        a is Some && b is Some && a->Some_0.desired_name.display_name@
            != b->Some_0.desired_name.display_name@ ==> !r,
        a is Some && b is Some && !r ==> a->Some_0.cred_handle_reference@
            != b->Some_0.cred_handle_reference@ || a->Some_0.elements@.len()
            != b->Some_0.elements@.len() || a->Some_0.desired_name.display_name@
            != b->Some_0.desired_name.display_name@,
{
}

/// What is kept of a credential is its encoding, under the name that it is desired for.
pub proof fn what_is_kept(cred: &GssxCred, r: StoredCred)
    requires
        call_ensures(handle::store_remote_creds_arg, (cred,), r),
    ensures
        r.client@ == cred.desired_name.display_name@,
        r.ticket@ == wire_laws::wire(*cred),
{
}

/// The errno of a failure to keep a credential, or to find one, is the minor status of a
/// failure; bytes that are no credential are an I/O error.
pub proof fn statuses_of_the_cache(
    stored: Result<(), i32>,
    s: Status,
    found: Result<Vec<u8>, i32>,
    f: (u32, u32, Option<GssxCred>),
)
    requires
        call_ensures(handle::store_remote_creds, (stored,), s),
        call_ensures(handle::retrieve_remote_creds, (found,), f),
    ensures
        stored is Ok ==> s == (GSS_S_COMPLETE, 0u32),
        stored matches Err(e) ==> s == (GSS_S_FAILURE, e as u32),
        found matches Err(e) ==> f == (GSS_S_FAILURE, e as u32, None::<GssxCred>),
        f.0 == GSS_S_COMPLETE <==> f.2 is Some,
        f.0 != GSS_S_COMPLETE ==> f.0 == GSS_S_FAILURE,
        found is Ok && f.2 is None ==> f.1 == EIO as u32,
        f.2 is Some ==> f.1 == 0,
{
}

/// What was kept of a credential is found as the same credential.
pub proof fn kept_credential_is_found(
    cred: &GssxCred,
    kept: StoredCred,
    f: (u32, u32, Option<GssxCred>),
    same: bool,
    got: GssxCred,
)
    requires
        xdr::sized(cred.tree()),
        call_ensures(handle::store_remote_creds_arg, (cred,), kept),
        call_ensures(
            handle::retrieve_remote_creds,
            (Ok::<Vec<u8>, i32>(kept.ticket),),
            f,
        ),
        f.2 == Some(got),
        call_ensures(handle::creds_are_equal, (Some(cred), Some(&got)), same),
    ensures
        f.0 == GSS_S_COMPLETE,
        same,
{
    gpm::kept_cred_comes_back(*cred);
    handle::stored_cred_is_retrieved(*cred, got);
}

// ---- default credentials ----

/// Default credentials come from the local mechanism or, after a look at the cache, from
/// the daemon, in the order of the behavior.
pub proof fn order_of_default_credentials(
    behavior: Behavior,
    slot: Option<CredHandle>,
    r: (DefCreds, DefStep),
)
    requires
        call_ensures(DefCreds::get_def_creds, (behavior, slot), r),
    ensures
        behavior is LocalOnly || behavior is LocalFirst <==> r.1 is Local,
        behavior is RemoteOnly || behavior is RemoteFirst <==> r.1 is Retrieve,
        slot matches Some(c) ==> r.0.cred == c,
        slot is None ==> r.0.cred.default_creds && r.0.cred.remote is None && r.0.cred.local == 0,
        r.0.found is None,
{
}

/// A local attempt that went well is the result; a first one that fails gives way to the
/// cache and the daemon, unless only local is to be tried.
pub proof fn after_local_defaults(def: &mut DefCreds, s: Status, local: usize, r: DefStep)
    requires
        call_ensures(DefCreds::local_done, (def, s, local), r),
        old(def).attempt.rule is Defaults,
    ensures
        final(def).cred.local == local,
        final(def).cred.remote == old(def).cred.remote,
        s.0 == GSS_S_COMPLETE ==> r == DefStep::Done(s),
        s.0 != GSS_S_COMPLETE && old(def).attempt.turn is LocalFirst && !(old(def).attempt.behavior
            is LocalOnly) ==> r is Retrieve,
        old(def).attempt.behavior is LocalOnly || !(old(def).attempt.turn is LocalFirst) ==> r
            is Done,
{
}

/// The daemon is asked whatever the cache held; what was found is handed to it.
pub proof fn after_the_cache_for_defaults(
    def: &mut DefCreds,
    found: (u32, u32, Option<GssxCred>),
    r: DefStep,
)
    requires
        call_ensures(DefCreds::retrieved, (def, found), r),
    ensures
        r is Remote,
        found.0 == GSS_S_COMPLETE ==> final(def).found == found.2,
        found.0 != GSS_S_COMPLETE ==> final(def).found is None,
        final(def).cred == old(def).cred,
        final(def).attempt == old(def).attempt,
{
}

/// The daemon is asked for any name and mechanism, with what was found in the cache.
pub proof fn what_the_daemon_is_asked_for_defaults(def: &DefCreds, usage: i32, r: ArgAcquireCred)
    requires
        call_ensures(DefCreds::remote_arg, (def, usage), r),
    ensures
        r.input_cred_handle is Some <==> def.found is Some,
        r.desired_name is None,
        r.desired_mechs@.len() == 0,
        r.time_req == 0 && r.initiator_time_req == 0 && r.acceptor_time_req == 0,
        !r.add_cred_to_input_handle,
        r.options@.len() == 0,
        usage == GSS_C_INITIATE ==> r.cred_usage == 1,
        usage == GSS_C_ACCEPT ==> r.cred_usage == 2,
        usage == GSS_C_BOTH ==> r.cred_usage == 3,
{
}

/// The daemon's credential is the result, and replaces in the cache another one that was
/// found there. A failure gives way to the local mechanism under `REMOTE_FIRST` alone.
pub proof fn after_the_daemon_for_defaults(def: &mut DefCreds, acq: AcquireCred, r: DefStep)
    requires
        call_ensures(DefCreds::remote_done, (def, acq), r),
        old(def).attempt.rule is Defaults,
    ensures
        acq.major == GSS_S_COMPLETE ==> final(def).cred.remote == acq.cred && final(def).cred.local
            == old(def).cred.local,
        acq.major != GSS_S_COMPLETE ==> final(def).cred == old(def).cred && !(r is Store),
        old(def).found is None || acq.cred is None ==> !(r is Store),
        acq.cred == old(def).found ==> !(r is Store),
        acq.major == GSS_S_COMPLETE && old(def).found is Some && acq.cred is Some && old(
            def,
        ).found->Some_0.cred_handle_reference@ != acq.cred->Some_0.cred_handle_reference@ ==> r
            is Store,
        acq.major == GSS_S_COMPLETE && !(r is Store) ==> r == DefStep::Done(
            (acq.major, acq.minor),
        ),
        acq.major != GSS_S_COMPLETE && old(def).attempt.behavior is RemoteFirst ==> r is Local,
        acq.major != GSS_S_COMPLETE && !(old(def).attempt.behavior is RemoteFirst) ==> r is Done,
        final(def).found == old(def).found,
{
}

/// A credential that could not be stored is a failed attempt with the daemon.
pub proof fn after_storing_defaults(def: &mut DefCreds, s: Status, r: DefStep)
    requires
        call_ensures(DefCreds::stored, (def, s), r),
        old(def).attempt.rule is Defaults,
    ensures
        s.0 == GSS_S_COMPLETE ==> r == DefStep::Done(s),
        s.0 != GSS_S_COMPLETE && old(def).attempt.behavior is RemoteFirst ==> r is Local,
        s.0 != GSS_S_COMPLETE && !(old(def).attempt.behavior is RemoteFirst) ==> r is Done,
        final(def).cred == old(def).cred,
{
}

/// Default local credentials are acquired for the four mechanisms that the interposer
/// takes over, and only where it is active.
pub proof fn mechanisms_of_local_defaults(
    reg: &mut Registry,
    enabled: bool,
    r: Result<Vec<Vec<u8>>, Status>,
    i: int,
)
    requires
        call_ensures(handle::get_local_def_creds, (reg, enabled), r),
    ensures
        enabled <==> r is Ok,
        r matches Err(s) ==> s == (GSS_S_FAILURE, 0u32),
        r matches Ok(m) ==> m@.len() == 4,
        r is Ok && 0 <= i < 4 ==> GSSPROXY_INTERPOSER_OID@.is_prefix_of(r->Ok_0@[i]@),
{
    if r is Ok && 0 <= i < 4 {
        let t = crate::interposer::oids::taken_over()[i];
        assert(r->Ok_0@[i]@ == crate::interposer::special::special_of(t));
        crate::interposer::special::special_form_is_special(t);
    }
}

} // verus!
