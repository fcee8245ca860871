//! What is done with names and contexts, locally or from what is known of them.

use vstd::prelude::*;

use crate::consts::{
    ENOENT, ENOTSUP, GSSPROXY_INTERPOSER_OID, GSS_S_BAD_NAME, GSS_S_CALL_INACCESSIBLE_READ,
    GSS_S_COMPLETE, GSS_S_CONTEXT_EXPIRED, GSS_S_FAILURE, GSS_S_NO_CONTEXT, GSS_S_UNAVAILABLE,
    NT_EXPORT_NAME_OID,
};
use crate::gssx::{GssxCtx, GssxName};
use crate::interposer::attempt::Status;
use crate::interposer::convert;
use crate::interposer::ctxlife;
use crate::interposer::ctxlife::{ContextInquiry, ContextTime, OptionStep};
use crate::interposer::error;
use crate::interposer::handle;
use crate::interposer::handle::{CredHandle, CtxHandle, LocalCtx, NameHandle, NameStep, OwnedOid};
use crate::interposer::msgprot;
use crate::interposer::names;
use crate::interposer::names::{
    CompareStep, LocalnameStep, NameCopy, NameDisplay, NameInquiry, NameUse,
};
use crate::interposer::special;
use crate::interposer::special::Registry;
use crate::wire_laws;
use crate::xdr;
use crate::xdr::Xdr;

verus! {

// ---- handles ----

/// New handles hold nothing. A new credential handle remembers whether it stands for the
/// default credentials, and the cache that it is for.
pub proof fn new_handles(
    cred: CredHandle,
    default_creds: bool,
    ccache: Option<&str>,
    ctx: CtxHandle,
    name: NameHandle,
)
    requires
        call_ensures(CredHandle::new, (default_creds, ccache), cred),
        call_ensures(CtxHandle::empty, (), ctx),
        call_ensures(NameHandle::empty, (), name),
    ensures
        cred.remote is None && cred.local == 0 && cred.default_creds == default_creds,
        ccache is None ==> cred.store@.len() == 0,
        ccache matches Some(c) ==> cred.store@.len() == 1 && cred.store@[0].0@ == "ccache"@
            && cred.store@[0].1@ == c@,
        ctx.remote is None && ctx.local == 0,
        name.remote is None && name.local == 0 && name.mech_type is None,
{
    let p = crate::server::config::props_view(cred.store@);
    assert(p.len() == cred.store@.len());
    if ccache is Some {
        assert(p[0] == (cred.store@[0].0@, cred.store@[0].1@));
    }
}

/// A name handle can be used where it has a name, and tells its mechanism.
pub proof fn handles_of_names(name: &NameHandle, usable: bool, mech: Option<&[u8]>)
    requires
        call_ensures(NameHandle::is_usable, (name,), usable),
        call_ensures(NameHandle::mech_ptr, (name,), mech),
    ensures
        usable <==> name.local != 0 || name.remote is Some,
        mech is Some <==> name.mech_type is Some,
        mech is Some ==> mech->Some_0@ == name.mech_type->Some_0.bytes@,
{
}

/// An owned OID holds the bytes of the one that it was made of.
pub proof fn owned_oids(bytes: Vec<u8>, a: OwnedOid, oid: Option<&[u8]>, b: Option<OwnedOid>)
    requires
        call_ensures(OwnedOid::new, (bytes,), a),
        call_ensures(OwnedOid::from_oid, (oid,), b),
    ensures
        a.bytes@ == bytes@,
        b is Some <==> oid is Some,
        b is Some ==> b->Some_0.bytes@ == oid->Some_0@,
{
}

// ---- displaying ----

/// A local name is displayed by its mechanism. A remote one is displayed as its display
/// name and type, and where that is empty as its exported name; its type must be a known
/// one where it is wanted.
pub proof fn how_names_are_displayed(
    name: &mut NameHandle,
    wants_type: bool,
    r: NameDisplay,
    m: u32,
)
    requires
        call_ensures(names::gssi_display_name, (name, wants_type), r),
        call_ensures(error::map_error, (ENOENT as u32,), m),
    ensures
        old(name).local != 0 ==> r == NameDisplay::Local(old(name).local),
        old(name).local == 0 && old(name).remote is None ==> r == NameDisplay::Refused(
            GSS_S_BAD_NAME,
            None,
        ),
        old(name).local == 0 && old(name).remote is Some ==> {
            let g = old(name).remote->Some_0;
            &&& g.display_name@.len() == 0 && g.exported_name@.len() == 0 ==> r
                == NameDisplay::Refused(GSS_S_BAD_NAME, Some(0))
            &&& g.display_name@.len() > 0 && !wants_type ==> r is Known && r->Known_0@
                == g.display_name@ && r->Known_1 is None
            &&& g.display_name@.len() > 0 && wants_type && convert::is_known_name_type(
                g.name_type@,
            ) ==> r is Known && r->Known_0@ == g.display_name@ && r->Known_1 is Some
                && r->Known_1->Some_0@ == g.name_type@
            &&& g.display_name@.len() > 0 && wants_type && !convert::is_known_name_type(
                g.name_type@,
            ) ==> r == NameDisplay::Refused(GSS_S_FAILURE, Some(m))
            &&& g.display_name@.len() == 0 && g.exported_name@.len() > 0 ==> r is Known
                && r->Known_0@ == g.exported_name@
            &&& g.display_name@.len() == 0 && g.exported_name@.len() > 0 && wants_type
                ==> r->Known_1 is Some && r->Known_1->Some_0@ == NT_EXPORT_NAME_OID@
        },
        final(name).local == old(name).local,
        final(name).mech_type == old(name).mech_type,
{
}

/// A remote name is imported locally as it is displayed, and canonicalized for the
/// mechanism under its special form where there is one.
pub proof fn how_names_become_local(
    remote: &mut GssxName,
    r: NameStep,
    reg: &mut Registry,
    s: Status,
    imported: usize,
    mech: Option<&[u8]>,
    q: NameStep,
)
    requires
        call_ensures(handle::name_to_local, (remote,), r),
        call_ensures(handle::name_imported, (reg, s, imported, mech), q),
    ensures
        old(remote).display_name@.len() > 0 && convert::is_known_name_type(
            old(remote).name_type@,
        ) ==> r is Import && r->display@ == old(remote).display_name@ && r->name_type@ == old(
            remote,
        ).name_type@,
        old(remote).display_name@.len() > 0 && !convert::is_known_name_type(
            old(remote).name_type@,
        ) ==> r == (NameStep::Done { status: (GSS_S_FAILURE, ENOENT as u32), name: 0 }),
        old(remote).display_name@.len() == 0 && old(remote).exported_name@.len() > 0 ==> r
            is Import && r->display@ == old(remote).exported_name@ && r->name_type@
            == NT_EXPORT_NAME_OID@,
        old(remote).display_name@.len() == 0 && old(remote).exported_name@.len() == 0 ==> r == (
        NameStep::Done { status: (GSS_S_BAD_NAME, 0), name: 0 }),
        s.0 != GSS_S_COMPLETE ==> q == (NameStep::Done { status: s, name: 0 }),
        s.0 == GSS_S_COMPLETE && mech is None ==> q == (NameStep::Done {
            status: (GSS_S_COMPLETE, 0),
            name: imported,
        }),
        s.0 == GSS_S_COMPLETE && mech is Some ==> q is Canonicalize && q->Canonicalize_name
            == imported && GSSPROXY_INTERPOSER_OID@.is_prefix_of(q->mech@),
        s.0 == GSS_S_COMPLETE && mech is Some && !GSSPROXY_INTERPOSER_OID@.is_prefix_of(
            mech->Some_0@,
        ) ==> q->mech@ == GSSPROXY_INTERPOSER_OID@ + mech->Some_0@,
        s.0 != GSS_S_COMPLETE || mech is None ==> final(reg)@ == old(reg)@,
        s.0 == GSS_S_COMPLETE && mech is Some && !GSSPROXY_INTERPOSER_OID@.is_prefix_of(
            mech->Some_0@,
        ) ==> final(reg)@.contains(mech->Some_0@),
{
    if mech is Some {
        let m = mech->Some_0@;
        if !old(reg)@.contains(m) && !special::is_special(m) {
            assert(special::with_mech(old(reg)@, m).last() == m);
        }
        special::special_form_is_special(mech->Some_0@);
    }
}

/// A local name is told to the daemon as its display name and type, and nothing else.
pub proof fn how_names_become_remote(
    s: Status,
    display: &[u8],
    name_type: Option<&[u8]>,
    r: (u32, u32, Option<GssxName>),
)
    requires
        call_ensures(handle::local_to_name, (s, display, name_type), r),
    ensures
        s.0 != GSS_S_COMPLETE ==> r == (s.0, s.1, None::<GssxName>),
        s.0 == GSS_S_COMPLETE ==> r.0 == GSS_S_COMPLETE && r.1 == 0 && r.2 is Some
            && r.2->Some_0.display_name@ == display@ && r.2->Some_0.exported_name@.len() == 0
            && r.2->Some_0.name_attributes@.len() == 0,
        s.0 == GSS_S_COMPLETE && name_type is Some ==> r.2->Some_0.name_type@
            == name_type->Some_0@,
        s.0 == GSS_S_COMPLETE && name_type is None ==> r.2->Some_0.name_type@.len() == 0,
{
}

// ---- using names ----

/// Some operations are for local names alone, others make a name local first, and releasing
/// a mapping asks for a local name without making one.
pub proof fn what_names_are_used(
    name: Option<&NameHandle>,
    only: NameUse,
    wanted: NameUse,
    release: NameUse,
    freed: u32,
)
    requires
        call_ensures(names::local_names_only, (name,), only),
        call_ensures(names::local_name_wanted, (name,), wanted),
        call_ensures(names::gssi_release_any_name_mapping, (name,), release),
        call_ensures(names::gssi_release_name, (name,), freed),
    ensures
        name is None ==> {
            &&& only == NameUse::Refused(GSS_S_BAD_NAME, None)
            &&& wanted == NameUse::Refused(GSS_S_CALL_INACCESSIBLE_READ, Some(0))
            &&& release == NameUse::Refused(GSS_S_CALL_INACCESSIBLE_READ, Some(0))
            &&& freed == GSS_S_BAD_NAME
        },
        name matches Some(n) ==> {
            &&& n.local != 0 ==> only == NameUse::Local(n.local) && wanted == NameUse::Local(
                n.local,
            ) && release == NameUse::Local(n.local) && freed == GSS_S_COMPLETE
            &&& n.local == 0 && n.remote is Some ==> only == NameUse::Refused(
                GSS_S_UNAVAILABLE,
                Some(0),
            ) && wanted is ToLocal && freed == GSS_S_COMPLETE
            &&& n.local == 0 && n.remote is None ==> only == NameUse::Refused(
                GSS_S_BAD_NAME,
                None,
            ) && wanted == NameUse::Local(0) && freed == GSS_S_BAD_NAME
            &&& n.local == 0 ==> release == NameUse::Refused(GSS_S_UNAVAILABLE, Some(0))
        },
{
}

/// A name that was made local is used; the failure to make it local is reported with its
/// status mapped, and the name stays as it was.
pub proof fn after_a_name_was_made_local(
    name: &mut NameHandle,
    s: Status,
    local: usize,
    r: NameUse,
    m: u32,
)
    requires
        call_ensures(names::name_made_local, (name, s, local), r),
        call_ensures(error::map_error, (s.1,), m),
    ensures
        s.0 == GSS_S_COMPLETE ==> r == NameUse::Local(local) && final(name).local == local,
        s.0 != GSS_S_COMPLETE ==> r == NameUse::Refused(s.0, Some(m)) && final(name).local == old(
            name,
        ).local,
        final(name).remote == old(name).remote,
        final(name).mech_type == old(name).mech_type,
{
}

/// An imported name is a remote one, with the given bytes, type and mechanism. All three
/// must be given.
pub proof fn what_is_imported(
    plain: u32,
    mech: Option<&[u8]>,
    name: Option<&[u8]>,
    name_type: Option<&[u8]>,
    r: Result<NameHandle, (u32, Option<u32>)>,
)
    requires
        call_ensures(names::gssi_import_name, (), plain),
        call_ensures(names::gssi_import_name_by_mech, (mech, name, name_type), r),
    ensures
        plain == GSS_S_UNAVAILABLE,
        r is Ok <==> mech is Some && name is Some && name_type is Some,
        r matches Err(e) ==> e.0 == GSS_S_CALL_INACCESSIBLE_READ && (e.1 is None <==> mech
            is None),
        r is Ok ==> {
            let h = r->Ok_0;
            &&& h.local == 0
            &&& h.mech_type is Some && h.mech_type->Some_0.bytes@ == mech->Some_0@
            &&& h.remote is Some
            &&& h.remote->Some_0.display_name@ == name->Some_0@
            &&& h.remote->Some_0.name_type@ == name_type->Some_0@
            &&& h.remote->Some_0.exported_name@.len() == 0
            &&& h.remote->Some_0.exported_composite_name@.len() == 0
            &&& h.remote->Some_0.name_attributes@.len() == 0
            &&& h.remote->Some_0.extensions@.len() == 0
        },
{
}

/// A copy of a remote name is the same on the wire, for the same mechanism, and not local; a
/// name that is local alone is duplicated by its mechanism.
pub proof fn what_is_copied(name: Option<&NameHandle>, r: NameCopy)
    requires
        call_ensures(names::gssi_duplicate_name, (name,), r),
    ensures
        name is None ==> r == NameCopy::Refused(GSS_S_BAD_NAME),
        name matches Some(n) ==> {
            &&& n.local == 0 && n.remote is None ==> r == NameCopy::Refused(GSS_S_BAD_NAME)
            &&& n.remote is Some ==> r is Copied && r->Copied_0.local == 0
                && r->Copied_0.remote is Some && wire_laws::wire(r->Copied_0.remote->Some_0)
                == wire_laws::wire(n.remote->Some_0) && r->Copied_0.mech() == n.mech()
            &&& n.local != 0 && n.remote is None ==> r is Local && r->Local_0 == n.local
                && r->Local_1.local == 0 && r->Local_1.remote is None && r->Local_1.mech()
                == n.mech()
        },
{
}

/// A name is a mechanism name where it has an exported form; its attributes are told by
/// their keys, in order.
pub proof fn what_is_known_of_a_name(
    name: Option<&NameHandle>,
    wants_type: bool,
    r: NameInquiry,
    i: int,
)
    requires
        call_ensures(names::gssi_inquire_name, (name, wants_type), r),
    ensures
        name is None ==> r == NameInquiry::Refused(GSS_S_BAD_NAME, None),
        name matches Some(n) ==> {
            &&& n.local != 0 ==> r == NameInquiry::Local(n.local)
            &&& n.local == 0 && n.remote is None ==> r == NameInquiry::Refused(
                GSS_S_BAD_NAME,
                None,
            )
            &&& n.local == 0 && n.remote is Some && !wants_type ==> r is Known && r->Known_1
                is None
            &&& n.local == 0 && n.remote is Some && wants_type && convert::is_known_name_type(
                n.remote->Some_0.name_type@,
            ) ==> r is Known && r->Known_1 is Some && r->Known_1->Some_0@
                == n.remote->Some_0.name_type@
            &&& n.local == 0 && n.remote is Some && wants_type && !convert::is_known_name_type(
                n.remote->Some_0.name_type@,
            ) ==> r is Untyped && r->Untyped_0 == (n.remote->Some_0.exported_name@.len() > 0)
                && r->Untyped_1 == GSS_S_FAILURE
            &&& r is Known ==> {
                &&& r->Known_0 == (n.remote->Some_0.exported_name@.len() > 0)
                &&& r->Known_2@.len() == n.remote->Some_0.name_attributes@.len()
                &&& 0 <= i < r->Known_2@.len() ==> r->Known_2@[i]@
                    == n.remote->Some_0.name_attributes@[i].attr@
            }
        },
{
}

// ---- comparing ----

/// Names are compared locally where one of them is local, after the other was made local;
/// remote names are compared as they are displayed.
pub proof fn how_names_are_compared(a: &NameHandle, b: &NameHandle, r: CompareStep)
    requires
        call_ensures(names::gssi_compare_name, (Some(a), Some(b)), r),
    ensures
        a.local != 0 && b.local != 0 ==> r == CompareStep::Local(a.local, b.local),
        a.local == 0 && b.local != 0 && a.remote is Some ==> r is FirstToLocal,
        a.local != 0 && b.local == 0 && b.remote is Some ==> r is SecondToLocal,
        a.local != 0 && b.local == 0 && b.remote is None ==> r == CompareStep::Done(
            GSS_S_CALL_INACCESSIBLE_READ,
            None,
            None,
        ),
        a.local == 0 && b.local != 0 && a.remote is None ==> r == CompareStep::Done(
            GSS_S_CALL_INACCESSIBLE_READ,
            None,
            None,
        ),
        a.local == 0 && b.local == 0 && a.remote is Some && b.remote is Some ==> {
            let x = a.remote->Some_0;
            let y = b.remote->Some_0;
            &&& x.display_name@.len() == 0 && x.exported_name@.len() == 0 ==> r
                == CompareStep::Done(GSS_S_BAD_NAME, Some(0), Some(false))
            &&& y.display_name@.len() == 0 && y.exported_name@.len() == 0 ==> r
                == CompareStep::Done(GSS_S_BAD_NAME, Some(0), Some(false))
            &&& x.display_name@.len() > 0 && x.display_name@ == y.display_name@ && x.name_type@
                == y.name_type@ ==> r == CompareStep::Done(GSS_S_COMPLETE, Some(0), Some(true))
            &&& x.display_name@.len() > 0 && x.display_name@ == y.display_name@ && x.name_type@
                != y.name_type@ ==> r == CompareStep::Done(GSS_S_COMPLETE, Some(0), Some(false))
        },
        a.local == 0 && b.local == 0 && a.remote is None ==> r == CompareStep::Done(
            GSS_S_CALL_INACCESSIBLE_READ,
            None,
            None,
        ),
{
}

/// Without both names nothing is compared, and the failure to make one local is the result.
pub proof fn comparisons_that_fail(
    a: Option<&NameHandle>,
    b: Option<&NameHandle>,
    r: CompareStep,
    s: Status,
    m: u32,
    f: CompareStep,
)
    requires
        a is None || b is None,
        call_ensures(names::gssi_compare_name, (a, b), r),
        call_ensures(error::map_error, (s.1,), m),
        call_ensures(names::compare_failed, (s,), f),
    ensures
        r == CompareStep::Done(GSS_S_CALL_INACCESSIBLE_READ, None, None),
        f == CompareStep::Done(s.0, Some(m), None),
{
}

// ---- local user names ----

/// The daemon is asked for the user of a remote name, the local mechanism for that of a
/// name that is local alone.
pub proof fn who_knows_the_user(name: Option<&NameHandle>, r: LocalnameStep)
    requires
        call_ensures(names::gssi_localname, (name,), r),
    ensures
        name is None ==> r == LocalnameStep::Done(GSS_S_CALL_INACCESSIBLE_READ, 0, None),
        name matches Some(n) ==> {
            &&& n.remote is Some ==> r is Remote
            &&& n.remote is None && n.local != 0 ==> r == LocalnameStep::Local(n.local)
            &&& n.remote is None && n.local == 0 ==> r == LocalnameStep::Done(
                GSS_S_CALL_INACCESSIBLE_READ,
                0,
                None,
            )
        },
{
}

/// What the daemon answers is the result; only where it cannot tell is the local mechanism
/// asked, after the name was made local.
pub proof fn after_the_user_was_asked_for(
    name: &NameHandle,
    answer: (u32, u32, Option<Vec<u8>>),
    r: LocalnameStep,
    m: u32,
)
    requires
        call_ensures(names::localname_answered, (name, answer), r),
        call_ensures(error::map_error, (answer.1,), m),
    ensures
        answer.0 == GSS_S_COMPLETE ==> r == LocalnameStep::Done(GSS_S_COMPLETE, m, answer.2),
        answer.0 == GSS_S_FAILURE && answer.1 == ENOTSUP as u32 && name.local != 0 ==> r
            == LocalnameStep::Local(name.local),
        answer.0 == GSS_S_FAILURE && answer.1 == ENOTSUP as u32 && name.local == 0
            && name.remote is Some ==> r is ToLocal,
        answer.0 == GSS_S_FAILURE && answer.1 == ENOTSUP as u32 && name.local == 0
            && name.remote is None ==> r == LocalnameStep::Done(GSS_S_COMPLETE, 0, None),
        answer.0 != GSS_S_COMPLETE && (answer.0 != GSS_S_FAILURE || answer.1 != ENOTSUP as u32)
            ==> r == LocalnameStep::Done(answer.0, m, None),
{
}

/// A name that was made local for this is asked about; a failure is reported.
pub proof fn after_the_name_for_a_user(
    name: &mut NameHandle,
    s: Status,
    local: usize,
    r: LocalnameStep,
    m: u32,
)
    requires
        call_ensures(names::localname_named, (name, s, local), r),
        call_ensures(error::map_error, (s.1,), m),
    ensures
        s.0 == GSS_S_COMPLETE && local != 0 ==> r == LocalnameStep::Local(local)
            && final(name).local == local,
        s.0 != GSS_S_COMPLETE ==> r == LocalnameStep::Done(s.0, m, None) && final(name).local
            == old(name).local,
        final(name).remote == old(name).remote,
{
}

// ---- contexts ----

/// An exported context token: the length of the mechanism, the mechanism, and what the
/// mechanism itself wrote.
pub open spec fn context_export(mech: Seq<u8>, inner: Seq<u8>) -> Seq<u8> {
    wire_laws::word(mech.len() as u32) + mech + inner
}

proof fn lemma_export(mech: Seq<u8>, inner: Seq<u8>)
    ensures
        handle::wrapped(mech, inner) == context_export(mech, inner),
{
    assert(xdr::be32(mech.len() as u32) =~= wire_laws::word(mech.len() as u32));
}

/// A remote context becomes local by way of its exported token, with its mechanism under
/// the special form. A token that is no exported context cannot be imported.
pub proof fn how_contexts_become_local(
    reg: &mut Registry,
    ctx: &GssxCtx,
    r: Result<Vec<u8>, Status>,
    mech: Seq<u8>,
    inner: Seq<u8>,
)
    requires
        call_ensures(handle::context_token, (reg, Some(ctx)), r),
        mech.len() <= u32::MAX,
    ensures
        ctx.exported_context_token@ == context_export(mech, inner) && inner.len() > 0
            && !GSSPROXY_INTERPOSER_OID@.is_prefix_of(mech) ==> r is Ok && r->Ok_0@
            == context_export(GSSPROXY_INTERPOSER_OID@ + mech, inner),
        ctx.exported_context_token@ == context_export(mech, inner) && inner.len() > 0
            && GSSPROXY_INTERPOSER_OID@.is_prefix_of(mech) ==> r is Ok && r->Ok_0@
            == context_export(mech, inner),
        ctx.exported_context_token@.len() <= 4 ==> r == Err::<Vec<u8>, Status>((GSS_S_FAILURE, 0)),
        r is Err ==> final(reg)@ == old(reg)@,
        ctx.exported_context_token@ == context_export(mech, Seq::empty()) ==> r == Err::<
            Vec<u8>,
            Status,
        >((GSS_S_FAILURE, 0)),
{
    lemma_export(mech, inner);
    lemma_export(mech, Seq::empty());
    lemma_export(special::special_of(mech), inner);
    if inner.len() > 0 {
        handle::wrapped_token_reads_back(mech, inner);
    }
    if ctx.exported_context_token@ == context_export(mech, Seq::empty()) {
        let t = ctx.exported_context_token@;
        let byte = seq![0u8];
        handle::wrapped_token_reads_back(mech, byte);
        let w = handle::wrapped(mech, byte);
        assert(t.len() == 4 + mech.len());
        assert(forall|i: int| 0 <= i < t.len() ==> t[i] == w[i]);
        if t.len() > 4 {
            assert(xdr::word_at(t, 0) == xdr::word_at(w, 0)) by {
                assert(t[0] == w[0] && t[1] == w[1] && t[2] == w[2] && t[3] == w[3]);
            }
            let parts = handle::exported_parts(w)->Some_0;
            assert(parts.0 == mech);
            assert(w.subrange(4, 4 + xdr::word_at(w, 0)).len() == mech.len());
        }
    }
}

/// A token for a mechanism: its special form stands in front of what is to be wrapped.
pub proof fn how_tokens_are_wrapped(
    reg: &mut Registry,
    mech: &[u8],
    token: &[u8],
    r: Option<Vec<u8>>,
    q: Result<Vec<u8>, u32>,
)
    requires
        call_ensures(handle::wrap_sec_ctx_token, (reg, Some(mech), token), r),
        call_ensures(ctxlife::gssi_import_sec_context_by_mech, (reg, Some(mech), token), q),
        !GSSPROXY_INTERPOSER_OID@.is_prefix_of(mech@),
    ensures
        r is Some,
        r->Some_0@ == context_export(GSSPROXY_INTERPOSER_OID@ + mech@, token@),
        q is Ok,
        q->Ok_0@ == context_export(GSSPROXY_INTERPOSER_OID@ + mech@, token@),
{
    lemma_export(special::special_of(mech@), token@);
}

/// Without a mechanism a token is wrapped for the first one that is known, and where none is
/// known the import fails. The registry stays as it is.
pub proof fn tokens_without_a_mechanism(
    reg: &mut Registry,
    token: &[u8],
    r: Option<Vec<u8>>,
    q: Result<Vec<u8>, u32>,
)
    requires
        special::well_formed(old(reg)@),
        call_ensures(handle::wrap_sec_ctx_token, (reg, None::<&[u8]>, token), r),
        call_ensures(ctxlife::gssi_import_sec_context_by_mech, (reg, None::<&[u8]>, token), q),
    ensures
        final(reg)@ == old(reg)@,
        old(reg)@.len() > 0 ==> r is Some && r->Some_0@ == context_export(
            GSSPROXY_INTERPOSER_OID@ + old(reg)@[0],
            token@,
        ) && q is Ok && q->Ok_0@ == r->Some_0@,
        old(reg)@.len() == 0 ==> r is None && q == Err::<Vec<u8>, u32>(GSS_S_FAILURE),
{
    if old(reg)@.len() > 0 {
        assert(!special::is_special(old(reg)@[0]));
        lemma_export(special::special_of(old(reg)@[0]), token@);
    }
}

/// A local context is there where there is one, or where there is nothing to make it of; a
/// context that is remote alone is imported first.
pub proof fn when_contexts_are_local(
    reg: &mut Registry,
    ctx: Option<&CtxHandle>,
    r: Result<LocalCtx, Status>,
    q: Result<LocalCtx, (u32, Option<u32>)>,
)
    requires
        call_ensures(handle::ensure_local_ctx, (reg, ctx), r),
        call_ensures(msgprot::ensure_local, (reg, ctx), q),
    ensures
        ctx is None ==> r == Err::<LocalCtx, Status>((GSS_S_CALL_INACCESSIBLE_READ, 0)) && q
            == Err::<LocalCtx, (u32, Option<u32>)>((GSS_S_CALL_INACCESSIBLE_READ, None)),
        ctx matches Some(c) ==> {
            &&& c.local != 0 || c.remote is None ==> r == Ok::<LocalCtx, Status>(
                LocalCtx::Ready(c.local),
            ) && q == Ok::<LocalCtx, (u32, Option<u32>)>(LocalCtx::Ready(c.local))
            &&& c.local == 0 && c.remote is Some ==> !(r is Ok && r->Ok_0 is Ready)
                && !(q is Ok && q->Ok_0 is Ready)
            &&& r is Err && c.remote is Some ==> r->Err_0 == (GSS_S_FAILURE, 0u32)
            &&& q is Err && c.remote is Some ==> q->Err_0 == (GSS_S_FAILURE, None::<u32>)
        },
        r is Err || r->Ok_0 is Ready || q is Err || q->Ok_0 is Ready ==> final(reg)@ == old(reg)@,
{
}

/// A context that was imported is local, and no longer remote.
pub proof fn after_a_context_was_imported(ctx: &mut CtxHandle, s: Status, local: usize, r: Status)
    requires
        call_ensures(handle::remote_to_local_ctx, (ctx, s, local), r),
    ensures
        r == s,
        final(ctx).local == local,
        final(ctx).remote is None,
{
}

/// A refused operation reports the status, mapped, and leaves a zero unsaid where messages
/// are protected.
pub proof fn how_refusals_are_reported(
    s: Status,
    m: u32,
    plain: (u32, u32),
    protection: (u32, Option<u32>),
)
    requires
        call_ensures(error::map_error, (s.1,), m),
        call_ensures(ctxlife::no_local_context, (s,), plain),
        call_ensures(msgprot::refuse, (s,), protection),
    ensures
        plain == (s.0, m),
        s.1 != 0 ==> protection == (s.0, Some(m)),
        s.1 == 0 ==> protection == (s.0, None::<u32>),
{
}

/// An exported context is gone from the handle, and its remote part is handed over; a
/// failure leaves the remote part.
pub proof fn what_exporting_leaves(
    ctx: &mut CtxHandle,
    major: u32,
    local: usize,
    r: Option<GssxCtx>,
    import: u32,
)
    requires
        call_ensures(ctxlife::gssi_export_sec_context, (ctx, major, local), r),
        call_ensures(ctxlife::gssi_import_sec_context, (), import),
    ensures
        major == GSS_S_COMPLETE ==> final(ctx).remote is None && r == old(ctx).remote,
        major != GSS_S_COMPLETE ==> final(ctx).remote == old(ctx).remote && r is None,
        final(ctx).local == local,
        import == GSS_S_UNAVAILABLE,
{
}

/// The lifetime of a remote context is known, and it has expired where none is left; that
/// of a local one is asked for.
pub proof fn how_long_contexts_live(ctx: Option<&CtxHandle>, r: ContextTime)
    requires
        call_ensures(ctxlife::gssi_context_time, (ctx,), r),
    ensures
        ctx is None ==> r == ContextTime::Refused(GSS_S_CALL_INACCESSIBLE_READ),
        ctx matches Some(c) ==> {
            &&& c.remote is Some && 0 < c.remote->Some_0.lifetime <= u32::MAX ==> r
                == ContextTime::Known(GSS_S_COMPLETE, c.remote->Some_0.lifetime as u32)
            &&& c.remote is Some && c.remote->Some_0.lifetime == 0 ==> r == ContextTime::Known(
                GSS_S_CONTEXT_EXPIRED,
                0,
            )
            &&& c.remote is None && c.local != 0 ==> r == ContextTime::Local(c.local)
            &&& c.remote is None && c.local == 0 ==> r == ContextTime::Refused(GSS_S_NO_CONTEXT)
        },
{
}

/// What is known of a remote context: each answer comes from the part that is meant for it,
/// and names are given only where they are wanted.
pub proof fn what_is_known_of_a_context(
    ctx: Option<&CtxHandle>,
    wants_src: bool,
    wants_targ: bool,
    r: ContextInquiry,
)
    requires
        call_ensures(ctxlife::gssi_inquire_context, (ctx, wants_src, wants_targ), r),
    ensures
        ctx is None ==> r == ContextInquiry::Refused(GSS_S_CALL_INACCESSIBLE_READ),
        ctx matches Some(c) ==> {
            &&& c.local != 0 ==> r == ContextInquiry::Local(c.local)
            &&& c.local == 0 && c.remote is None ==> r == ContextInquiry::Refused(
                GSS_S_CALL_INACCESSIBLE_READ,
            )
            &&& c.local == 0 && c.remote is Some ==> r is Remote && {
                let g = c.remote->Some_0;
                let i = r->Remote_0;
                &&& i.src_name is Some <==> wants_src
                &&& i.targ_name is Some <==> wants_targ
                &&& wants_src ==> i.src_name->Some_0.remote is Some && wire_laws::wire(
                    i.src_name->Some_0.remote->Some_0,
                ) == wire_laws::wire(g.src_name) && i.src_name->Some_0.local == 0
                    && i.src_name->Some_0.mech() == Some(g.mech@)
                &&& wants_targ ==> i.targ_name->Some_0.remote is Some && wire_laws::wire(
                    i.targ_name->Some_0.remote->Some_0,
                ) == wire_laws::wire(g.targ_name) && i.targ_name->Some_0.local == 0
                    && i.targ_name->Some_0.mech() == Some(g.mech@)
                &&& i.mech@ == g.mech@
                &&& g.lifetime <= u32::MAX ==> i.lifetime == g.lifetime
                &&& g.ctx_flags <= u32::MAX ==> i.ctx_flags == g.ctx_flags
                &&& g.locally_initiated ==> i.locally_initiated == 1
                &&& !g.locally_initiated ==> i.locally_initiated == 0
                &&& g.open ==> i.open == 1
                &&& !g.open ==> i.open == 0
            }
        },
{
}

/// The name of a local context is local, and for the mechanism of the context.
pub proof fn name_of_a_local_context(local: usize, mech: Option<&[u8]>, r: NameHandle)
    requires
        call_ensures(ctxlife::local_context_name, (local, mech), r),
    ensures
        r.local == local,
        r.remote is None,
        r.mech_type is Some,
        mech is Some ==> r.mech_type->Some_0.bytes@ == mech->Some_0@,
        mech is None ==> r.mech_type->Some_0.bytes@.len() == 0,
{
}

/// An option is set on the local context, which is made of the remote one where there is
/// only that. A failure is reported, with its minor status where it was in making it.
pub proof fn how_options_are_set(
    reg: &mut Registry,
    ctx: &CtxHandle,
    r: OptionStep,
    s: Status,
    importing: bool,
    m: u32,
    f: Option<(u32, Option<u32>)>,
)
    requires
        call_ensures(ctxlife::gssi_set_sec_context_option, (reg, ctx), r),
        call_ensures(error::map_error, (s.1,), m),
        call_ensures(ctxlife::option_failed, (s, importing), f),
    ensures
        ctx.local != 0 || ctx.remote is None ==> r == OptionStep::Local(ctx.local),
        ctx.local == 0 && ctx.remote is Some ==> r is Import || r == OptionStep::Delete(
            GSS_S_FAILURE,
            0,
        ),
        s.0 == GSS_S_COMPLETE ==> f is None,
        s.0 != GSS_S_COMPLETE && importing ==> f == Some((s.0, Some(m))),
        s.0 != GSS_S_COMPLETE && !importing ==> f == Some((s.0, None::<u32>)),
{
}

/// Deleting reports the failure of the local mechanism, and otherwise that of the daemon.
pub proof fn how_deleting_is_reported(
    local: Option<Status>,
    remote: Option<Status>,
    r: (u32, Option<u32>),
    ml: u32,
    mr: u32,
)
    requires
        call_ensures(ctxlife::gssi_delete_sec_context, (local, remote), r),
        local is Some ==> call_ensures(error::map_error, (local->Some_0.1,), ml),
        remote is Some ==> call_ensures(error::map_error, (remote->Some_0.1,), mr),
    ensures
        local is Some && local->Some_0.0 != GSS_S_COMPLETE ==> r == (local->Some_0.0, Some(ml)),
        (local is None || local->Some_0.0 == GSS_S_COMPLETE) && remote is Some && remote->Some_0.0
            != GSS_S_COMPLETE ==> r == (remote->Some_0.0, Some(mr)),
        (local is None || local->Some_0.0 == GSS_S_COMPLETE) && (remote is None
            || remote->Some_0.0 == GSS_S_COMPLETE) ==> r == (GSS_S_COMPLETE, None::<u32>),
{
}

} // verus!
