//! Which mechanisms the interposer takes over, how it disguises them, and what it knows of
//! them.

use vstd::prelude::*;

use crate::consts::{
    EINVAL, EIO, GSSPROXY_INTERPOSER_OID, GSS_C_MECH_CODE, GSS_S_BAD_MECH,
    GSS_S_BAD_STATUS, GSS_S_COMPLETE, GSS_S_CONTINUE_NEEDED, GSS_S_FAILURE, GSS_S_UNAVAILABLE,
    IAKERB_MECH_OID, KRB5_MECH_OID, KRB5_NT_PRINCIPAL_NAME_OID, KRB5_OLD_MECH_OID,
    KRB5_WRONG_MECH_OID, NT_ANONYMOUS_OID, NT_COMPOSITE_EXPORT_OID, NT_EXPORT_NAME_OID,
    NT_HOSTBASED_SERVICE_OID, NT_HOSTBASED_SERVICE_X_OID, NT_MACHINE_UID_NAME_OID,
    NT_STRING_UID_NAME_OID, NT_USER_NAME_OID,
};
use crate::gssx::{GssxCb, GssxCred, GssxStatus};
use crate::interposer::attempt::Status;
use crate::interposer::behavior;
use crate::interposer::behavior::Behavior;
use crate::interposer::convert;
use crate::interposer::convert::{ChannelBindings, OidTable};
use crate::interposer::error;
use crate::interposer::mechstatus;
use crate::interposer::mechstatus::{MechCache, MechInfo, MechInquiry, MechStep, StatusText};
use crate::interposer::oids;
use crate::interposer::oids::BaseOids;
use crate::interposer::special;
use crate::interposer::special::{Descriptor, Registry};
use crate::proc::ResIndicateMechs;
use crate::server::config;
use crate::server::config_laws;
use crate::text_laws;

verus! {

// ---- behavior ----

/// A behavior goes by its name, written in capitals; whatever is no name of one is
/// `LOCAL_FIRST`.
pub proof fn behaviors_by_name(value: Option<&str>, r: Behavior)
    requires
        call_ensures(behavior::parse_behavior, (value,), r),
    ensures
        value is None ==> r is LocalFirst,
        value is Some && value->Some_0@ == "LOCAL_ONLY"@ ==> r is LocalOnly,
        value is Some && value->Some_0@ == "LOCAL_FIRST"@ ==> r is LocalFirst,
        value is Some && value->Some_0@ == "REMOTE_FIRST"@ ==> r is RemoteFirst,
        value is Some && value->Some_0@ == "REMOTE_ONLY"@ ==> r is RemoteOnly,
        r is LocalOnly ==> value is Some && value->Some_0@ == "LOCAL_ONLY"@,
        r is RemoteFirst ==> value is Some && value->Some_0@ == "REMOTE_FIRST"@,
        r is RemoteOnly ==> value is Some && value->Some_0@ == "REMOTE_ONLY"@,
{
    reveal_strlit("LOCAL_ONLY");
    reveal_strlit("LOCAL_FIRST");
    reveal_strlit("REMOTE_FIRST");
    reveal_strlit("REMOTE_ONLY");
    assert("LOCAL_ONLY"@.len() == 10 && "LOCAL_FIRST"@.len() == 11 && "REMOTE_FIRST"@.len() == 12
        && "REMOTE_ONLY"@.len() == 11);
    assert("LOCAL_FIRST"@[0] != "REMOTE_ONLY"@[0]);
}

/// A behavior is settled by the first look at it.
pub proof fn behavior_is_settled_once(
    resolved: &mut Option<Behavior>,
    value: Option<&str>,
    r: Behavior,
    parsed: Behavior,
)
    requires
        call_ensures(behavior::get, (resolved, value), r),
        call_ensures(behavior::parse_behavior, (value,), parsed),
    ensures
        *old(resolved) is Some ==> r == (*old(resolved))->Some_0,
        *old(resolved) is None ==> r == parsed,
        *final(resolved) == Some(r),
{
}

/// The interposer is active only where it is switched on.
pub proof fn when_the_interposer_is_active(
    value: Option<&str>,
    r: bool,
    t: Seq<char>,
    i: int,
)
    requires
        call_ensures(behavior::enabled_from, (value,), r),
        value is Some ==> text_laws::surrounded(value->Some_0@, t, i),
        t.len() > 0 ==> !crate::text::is_space(t[0]) && !crate::text::is_space(t.last()),
    ensures
        value is None ==> !r,
        value is Some ==> (r <==> t == seq!['1'] || text_laws::same_word(t, seq!['o', 'n'])
            || text_laws::same_word(t, seq!['t', 'r', 'u', 'e']) || text_laws::same_word(
            t,
            seq!['y', 'e', 's'],
        )),
{
    if value is Some {
        text_laws::truth_in_text(value->Some_0@, t, i);
    }
}

// ---- OIDs ----

/// The interposer answers for itself alone and where it is active, and takes over the four
/// krb5 mechanisms.
pub proof fn what_is_taken_over(enabled: bool, mech: Option<&[u8]>, r: Option<Vec<Vec<u8>>>)
    requires
        call_ensures(oids::gss_mech_interposer, (enabled, mech), r),
    ensures
        !enabled ==> r is None,
        mech is None ==> r is None,
        enabled && mech is Some && mech->Some_0@ == GSSPROXY_INTERPOSER_OID@ ==> r is Some,
        mech is Some && mech->Some_0@ != GSSPROXY_INTERPOSER_OID@ ==> r is None,
        r matches Some(m) ==> m@.len() == 4 && m@[0]@ == KRB5_MECH_OID@ && m@[1]@
            == KRB5_OLD_MECH_OID@ && m@[2]@ == KRB5_WRONG_MECH_OID@ && m@[3]@ == IAKERB_MECH_OID@,
{
    if let Some(m) = r {
        let v = crate::octets::views(m@);
        assert(v.len() == m@.len());
        assert(v[0] == m@[0]@ && v[1] == m@[1]@ && v[2] == m@[2]@ && v[3] == m@[3]@);
    }
}

/// Krb5 goes by four OIDs, and OIDs are equal where both are there and have the same bytes.
pub proof fn oids_of_krb5(
    mech: Option<&[u8]>,
    r: bool,
    other: Option<&[u8]>,
    eq: bool,
    b: BaseOids,
    own: Vec<u8>,
)
    requires
        call_ensures(oids::is_krb5_oid, (mech,), r),
        call_ensures(oids::oid_equal, (mech, other), eq),
        call_ensures(oids::base, (), b),
        call_ensures(oids::interposer, (), own),
    ensures
        mech is None ==> !r && !eq,
        mech is Some && (mech->Some_0@ == KRB5_MECH_OID@ || mech->Some_0@ == KRB5_OLD_MECH_OID@
            || mech->Some_0@ == KRB5_WRONG_MECH_OID@ || mech->Some_0@ == IAKERB_MECH_OID@) ==> r,
        r ==> mech->Some_0@ == KRB5_MECH_OID@ || mech->Some_0@ == KRB5_OLD_MECH_OID@
            || mech->Some_0@ == KRB5_WRONG_MECH_OID@ || mech->Some_0@ == IAKERB_MECH_OID@,
        mech is Some && other is Some ==> (eq <==> mech->Some_0@ =~= other->Some_0@),
        other is None ==> !eq,
        b.interposer@ == GSSPROXY_INTERPOSER_OID@ && own@ == GSSPROXY_INTERPOSER_OID@,
        b.krb5@ == KRB5_MECH_OID@ && b.krb5_old@ == KRB5_OLD_MECH_OID@,
        b.krb5_wrong@ == KRB5_WRONG_MECH_OID@ && b.iakerb@ == IAKERB_MECH_OID@,
{
}

// ---- special forms ----

/// A special form is the interposer's OID with the mechanism behind it, and is told by it.
pub proof fn what_is_special(mech: Option<&[u8]>, r: bool, tail: Seq<u8>)
    requires
        call_ensures(special::is_special_oid, (mech,), r),
    ensures
        mech is None ==> !r,
        mech is Some && mech->Some_0@ == GSSPROXY_INTERPOSER_OID@ + tail ==> r,
        r ==> mech->Some_0@ == GSSPROXY_INTERPOSER_OID@ + mech->Some_0@.skip(11),
{
    let p = GSSPROXY_INTERPOSER_OID@;
    assert(p.len() == 11);
    if mech is Some && mech->Some_0@ == p + tail {
        assert((p + tail).subrange(0, 11) =~= p);
    }
    if r {
        assert(mech->Some_0@ =~= p + mech->Some_0@.skip(11));
    }
}

/// A mechanism is disguised behind the interposer's OID and is remembered, so that its
/// special form leads back to it. One that is disguised already is left as it is.
pub proof fn disguise_comes_off(
    reg: &mut Registry,
    mech: &[u8],
    r: Option<Vec<u8>>,
    disguised: &[u8],
    back: Option<Vec<u8>>,
)
    requires
        call_ensures(Registry::special_bytes, (reg, Some(mech)), r),
        r is Some && disguised@ == r->Some_0@,
        call_ensures(Registry::unspecial_bytes, (&*final(reg), Some(disguised)), back),
    ensures
        GSSPROXY_INTERPOSER_OID@.is_prefix_of(r->Some_0@),
        back is Some,
        !GSSPROXY_INTERPOSER_OID@.is_prefix_of(mech@) ==> r->Some_0@ == GSSPROXY_INTERPOSER_OID@
            + mech@ && back->Some_0@ == mech@ && final(reg)@.contains(mech@),
        GSSPROXY_INTERPOSER_OID@.is_prefix_of(mech@) ==> r->Some_0@ == mech@ && final(reg)@
            == old(reg)@,
{
    special::special_form_is_special(mech@);
    if !special::is_special(mech@) {
        let later = special::with_mech(old(reg)@, mech@);
        assert(later.is_prefix_of(later)) by {
            assert(later.subrange(0, later.len() as int) =~= later);
        }
        special::special_strips_back(old(reg)@, later, mech@);
        if !old(reg)@.contains(mech@) {
            assert(later.last() == mech@);
        }
    }
}

/// Without a mechanism the first one that is known is meant, if any.
pub proof fn no_mechanism_is_the_first(reg: &mut Registry, r: Option<Vec<u8>>, d: Descriptor)
    requires
        call_ensures(Registry::special_bytes, (reg, None::<&[u8]>), r),
        call_ensures(Registry::special_mech, (reg, None::<&[u8]>), d),
        special::well_formed(old(reg)@),
    ensures
        old(reg)@.len() == 0 ==> r is None && d is Absent,
        old(reg)@.len() > 0 ==> r is Some && r->Some_0@ == GSSPROXY_INTERPOSER_OID@ + old(reg)@[0]
            && d == Descriptor::Entry(0),
        final(reg)@ == old(reg)@,
{
    if old(reg)@.len() > 0 {
        assert(!special::is_special(old(reg)@[0]));
    }
}

/// A mechanism that is not special gets the entry that holds it, and a special one stands
/// for itself. Nothing else in the registry changes.
pub proof fn entries_of_mechanisms(reg: &mut Registry, mech: &[u8], d: Descriptor, i: int)
    requires
        call_ensures(Registry::special_mech, (reg, Some(mech)), d),
    ensures
        GSSPROXY_INTERPOSER_OID@.is_prefix_of(mech@) ==> d is Given && final(reg)@ == old(reg)@,
        !GSSPROXY_INTERPOSER_OID@.is_prefix_of(mech@) ==> d is Entry && d->Entry_0
            < final(reg)@.len() && final(reg)@[d->Entry_0 as int] == mech@,
        0 <= i < old(reg)@.len() ==> i < final(reg)@.len() && final(reg)@[i] == old(reg)@[i],
        final(reg)@.len() <= old(reg)@.len() + 1,
        old(reg)@.contains(mech@) ==> final(reg)@ == old(reg)@,
{
}

/// A special form of a known mechanism leads to its entry; anything else is what was given.
pub proof fn entries_of_special_forms(
    reg: &Registry,
    mech: Option<&[u8]>,
    d: Descriptor,
    b: Option<Vec<u8>>,
    i: int,
    tail: Seq<u8>,
)
    requires
        special::well_formed(reg@),
        call_ensures(Registry::unspecial_mech, (reg, mech), d),
        call_ensures(Registry::unspecial_bytes, (reg, mech), b),
        0 <= i < reg@.len(),
    ensures
        mech is None ==> d is Given && b is None,
        mech is Some && mech->Some_0@ == GSSPROXY_INTERPOSER_OID@ + reg@[i] ==> d is Entry
            && d->Entry_0 == i && b is Some && b->Some_0@ == reg@[i],
        mech is Some && !GSSPROXY_INTERPOSER_OID@.is_prefix_of(mech->Some_0@) ==> d is Given
            && b is Some && b->Some_0@ == mech->Some_0@,
        mech is Some && mech->Some_0@ == GSSPROXY_INTERPOSER_OID@ + tail && !reg@.contains(tail)
            ==> d is Given && b is Some && b->Some_0@ == mech->Some_0@,
{
    let p = GSSPROXY_INTERPOSER_OID@;
    if mech is Some && mech->Some_0@ == p + reg@[i] {
        let m = mech->Some_0@;
        assert(m.subrange(0, p.len() as int) =~= p);
        assert(special::stripped(m) =~= reg@[i]);
        assert(reg@.contains(reg@[i]));
        assert(d is Entry);
        assert(reg@[d->Entry_0 as int] == reg@[i]);
    }
    if mech is Some && mech->Some_0@ == p + tail {
        assert(special::stripped(mech->Some_0@) =~= tail);
    }
}

/// The registry tells how many mechanisms it holds, each as it is and in its special form;
/// a new one holds none.
pub proof fn contents_of_the_registry(
    fresh: Registry,
    reg: &Registry,
    n: usize,
    i: usize,
    plain: &[u8],
    disguised: Vec<u8>,
)
    requires
        call_ensures(Registry::new, (), fresh),
        call_ensures(Registry::len, (reg,), n),
        i < reg@.len(),
        call_ensures(Registry::regular, (reg, i), plain),
        call_ensures(Registry::special, (reg, i), disguised),
    ensures
        fresh@.len() == 0,
        n == reg@.len(),
        plain@ == reg@[i as int],
        disguised@ == GSSPROXY_INTERPOSER_OID@ + plain@,
{
}

proof fn lemma_with_mechs(mechs: Seq<Seq<u8>>, more: Seq<Seq<u8>>, n: int, i: int)
    requires
        0 <= n <= more.len(),
    ensures
        mechs.is_prefix_of(special::with_mechs(mechs, more, n)),
        0 <= i < n && !special::is_special(more[i]) ==> special::with_mechs(
            mechs,
            more,
            n,
        ).contains(more[i]),
    decreases n,
{
    if n > 0 {
        lemma_with_mechs(mechs, more, n - 1, i);
        let before = special::with_mechs(mechs, more, n - 1);
        let after = special::with_mechs(mechs, more, n);
        special::registry_only_grows(before, more[n - 1], more[i]);
        assert(mechs =~= after.subrange(0, mechs.len() as int)) by {
            assert(before.subrange(0, mechs.len() as int) =~= mechs);
            assert(after.subrange(0, before.len() as int) =~= before);
        }
        if i == n - 1 && !special::is_special(more[i]) && !before.contains(more[i]) {
            assert(after.last() == more[i]);
        }
    } else {
        assert(mechs.subrange(0, mechs.len() as int) =~= mechs);
    }
}

/// Each of several mechanisms is remembered, and what was remembered stays. Their special
/// forms come in the same order, and there are none for none.
pub proof fn mechanisms_are_remembered(
    reg: &mut Registry,
    mechs: &[Vec<u8>],
    r: Option<Vec<Vec<u8>>>,
    i: int,
)
    requires
        call_ensures(Registry::special_available_mechs, (reg, mechs), r),
    ensures
        r is None <==> mechs@.len() == 0,
        r is Some ==> r->Some_0@.len() == mechs@.len(),
        old(reg)@.is_prefix_of(final(reg)@),
        0 <= i < mechs@.len() && !GSSPROXY_INTERPOSER_OID@.is_prefix_of(mechs@[i]@)
            ==> r->Some_0@[i]@ == GSSPROXY_INTERPOSER_OID@ + mechs@[i]@ && final(reg)@.contains(
            mechs@[i]@,
        ),
        0 <= i < mechs@.len() && GSSPROXY_INTERPOSER_OID@.is_prefix_of(mechs@[i]@)
            ==> r->Some_0@[i]@ == mechs@[i]@,
{
    let v = crate::octets::views(mechs@);
    lemma_with_mechs(old(reg)@, v, mechs@.len() as int, i);
    if 0 <= i < mechs@.len() {
        assert(v[i] == mechs@[i]@);
        assert(r->Some_0@[i]@ == special::special_of(mechs@[i]@));
    }
}

/// Mechanisms can be remembered without asking for their special forms.
pub proof fn available_mechanisms_are_remembered(reg: &mut Registry, mechs: &[Vec<u8>], i: int)
    requires
        call_ensures(Registry::init_special_available_mechs, (reg, mechs), ()),
    ensures
        old(reg)@.is_prefix_of(final(reg)@),
        0 <= i < mechs@.len() && !GSSPROXY_INTERPOSER_OID@.is_prefix_of(mechs@[i]@)
            ==> final(reg)@.contains(mechs@[i]@),
{
    let v = crate::octets::views(mechs@);
    lemma_with_mechs(old(reg)@, v, mechs@.len() as int, i);
    if 0 <= i < mechs@.len() {
        assert(v[i] == mechs@[i]@);
    }
}

/// An OID is not released where it is the interposer's own or stands in the registry.
pub proof fn which_oids_are_released(
    addresses: &[(usize, usize)],
    oid: usize,
    interposer: usize,
    known: bool,
    r: u32,
    none: u32,
    i: int,
)
    requires
        call_ensures(special::is_registered_ptr, (addresses, oid), known),
        call_ensures(
            special::gssi_internal_release_oid,
            (Some(oid), interposer, addresses),
            r,
        ),
        call_ensures(
            special::gssi_internal_release_oid,
            (None::<usize>, interposer, addresses),
            none,
        ),
    ensures
        0 <= i < addresses@.len() && (addresses@[i].0 == oid || addresses@[i].1 == oid) ==> known,
        known ==> exists|k: int|
            0 <= k < addresses@.len() && ((#[trigger] addresses@[k]).0 == oid || addresses@[k].1
                == oid),
        oid == interposer || known ==> r == GSS_S_COMPLETE,
        oid != interposer && !known ==> r == GSS_S_CONTINUE_NEEDED,
        none == GSS_S_CONTINUE_NEEDED,
{
    if 0 <= i < addresses@.len() && (addresses@[i].0 == oid || addresses@[i].1 == oid) {
        assert(special::is_registered(addresses@, oid));
    }
}

// ---- conversions ----

/// Nine types of names are known.
pub proof fn which_name_types_are_known(bytes: &[u8], r: bool)
    requires
        call_ensures(convert::known_name_type, (bytes,), r),
    ensures
        bytes@ == NT_USER_NAME_OID@ || bytes@ == NT_MACHINE_UID_NAME_OID@ || bytes@
            == NT_STRING_UID_NAME_OID@ ==> r,
        bytes@ == NT_HOSTBASED_SERVICE_OID@ || bytes@ == NT_HOSTBASED_SERVICE_X_OID@ || bytes@
            == NT_ANONYMOUS_OID@ ==> r,
        bytes@ == NT_EXPORT_NAME_OID@ || bytes@ == NT_COMPOSITE_EXPORT_OID@ || bytes@
            == KRB5_NT_PRINCIPAL_NAME_OID@ ==> r,
        r ==> bytes@ == NT_USER_NAME_OID@ || bytes@ == NT_MACHINE_UID_NAME_OID@ || bytes@
            == NT_STRING_UID_NAME_OID@ || bytes@ == NT_HOSTBASED_SERVICE_OID@ || bytes@
            == NT_HOSTBASED_SERVICE_X_OID@ || bytes@ == NT_ANONYMOUS_OID@ || bytes@
            == NT_EXPORT_NAME_OID@ || bytes@ == NT_COMPOSITE_EXPORT_OID@ || bytes@
            == KRB5_NT_PRINCIPAL_NAME_OID@,
{
}

/// The same OID gets the same place whenever it is interned, and places of others stay.
pub proof fn interned_oids(table: &mut OidTable, bytes: &[u8], r: usize, i: int)
    requires
        old(table)@.no_duplicates(),
        call_ensures(convert::intern_oid, (table, bytes), r),
    ensures
        r < final(table)@.len(),
        final(table)@[r as int] == bytes@,
        0 <= i < old(table)@.len() ==> i < final(table)@.len() && final(table)@[i] == old(
            table,
        )@[i],
        0 <= i < old(table)@.len() && old(table)@[i] == bytes@ ==> r == i && final(table)@ == old(
            table,
        )@,
        final(table)@.no_duplicates(),
{
    if 0 <= i < old(table)@.len() && old(table)@[i] == bytes@ {
        assert(old(table)@.contains(bytes@));
    }
}

/// Only known name types get a place, and a place holds what was put there.
pub proof fn places_of_name_types(
    fresh: OidTable,
    table: &mut OidTable,
    bytes: &[u8],
    known: bool,
    r: Option<usize>,
    other: &OidTable,
    i: usize,
    oid: &[u8],
    k: int,
)
    requires
        call_ensures(OidTable::new, (), fresh),
        call_ensures(convert::known_name_type, (bytes,), known),
        call_ensures(convert::name_type_static, (table, bytes), r),
        call_ensures(OidTable::oid, (other, i), oid),
    ensures
        fresh@.len() == 0,
        r is Some <==> known,
        r matches Some(k) ==> k < final(table)@.len() && final(table)@[k as int] == bytes@,
        !known ==> final(table)@ == old(table)@,
        0 <= k < old(table)@.len() ==> k < final(table)@.len() && final(table)@[k] == old(
            table,
        )@[k],
        oid@ == other@[i as int],
{
}

/// Channel bindings go over the wire part by part.
pub proof fn channel_bindings_are_converted(cb: Option<ChannelBindings>, r: Option<GssxCb>)
    requires
        call_ensures(convert::cb_to_gssx, (cb,), r),
    ensures
        r is Some <==> cb is Some,
        cb matches Some(c) ==> {
            let g = r->Some_0;
            &&& g.initiator_addrtype == c.initiator_addrtype
            &&& g.initiator_address@ == c.initiator_address@
            &&& g.acceptor_addrtype == c.acceptor_addrtype
            &&& g.acceptor_address@ == c.acceptor_address@
            &&& g.application_data@ == c.application_data@
        },
{
}

/// The mechanisms of a credential are those of its elements, in order; a credential without
/// elements has none.
pub proof fn mechanisms_of_a_credential(cred: Option<&GssxCred>, r: Option<Vec<Vec<u8>>>, i: int)
    requires
        call_ensures(convert::actual_mechs, (cred,), r),
    ensures
        r is Some <==> cred is Some && cred->Some_0.elements@.len() > 0,
        r is Some ==> r->Some_0@.len() == cred->Some_0.elements@.len(),
        r is Some && 0 <= i < r->Some_0@.len() ==> r->Some_0@[i]@
            == cred->Some_0.elements@[i].mech@,
{
    if r is Some {
        let v = crate::octets::views(r->Some_0@);
        assert(v.len() == r->Some_0@.len());
        if 0 <= i < v.len() {
            assert(v[i] == r->Some_0@[i]@);
        }
    }
}

/// The cache of a store is its first entry that is called so.
pub proof fn cache_of_a_store(store: &Vec<(String, String)>, r: Option<String>, i: int)
    requires
        call_ensures(convert::ccache_from_store, (store,), r),
    ensures
        config_laws::gives(config::props_view(store@), "ccache"@, i) ==> r is Some && r->Some_0@
            == store@[i].1@,
        config_laws::lacks(config::props_view(store@), "ccache"@) <==> r is None,
{
    config_laws::first_value_counts(config::props_view(store@), "ccache"@, i);
}

// ---- the table of mechanisms ----

/// The table is what the daemon answered, part by part; a failed answer gives an empty one.
pub proof fn table_of_mechanisms(answer: &(u32, u32, ResIndicateMechs), r: MechCache, i: int, k: int)
    requires
        call_ensures(mechstatus::cache, (answer,), r),
    ensures
        r.ok <==> answer.0 == GSS_S_COMPLETE,
        !r.ok ==> r.info@.len() == 0,
        r.ok ==> r.info@.len() == answer.2.mechs@.len(),
        r.ok && 0 <= i < r.info@.len() ==> {
            let a = r.info@[i];
            let b = answer.2.mechs@[i];
            &&& a.mech@ == b.mech@
            &&& a.name_types@.len() == b.name_types@.len()
            &&& a.mech_attrs@.len() == b.mech_attrs@.len()
            &&& a.known_mech_attrs@.len() == b.known_mech_attrs@.len()
            &&& 0 <= k < a.name_types@.len() ==> a.name_types@[k]@ == b.name_types@[k]@
            &&& 0 <= k < a.mech_attrs@.len() ==> a.mech_attrs@[k]@ == b.mech_attrs@[k]@
            &&& 0 <= k < a.known_mech_attrs@.len() ==> a.known_mech_attrs@[k]@
                == b.known_mech_attrs@[k]@
            &&& a.saslname_sasl_mech_name@ == b.saslname_sasl_mech_name@
            &&& a.saslname_mech_name@ == b.saslname_mech_name@
            &&& a.saslname_mech_desc@ == b.saslname_mech_desc@
        },
{
    if r.ok && 0 <= i < r.info@.len() {
        let a = r.info@[i];
        let b = answer.2.mechs@[i];
        assert(mechstatus::is_info(a, b));
        let x = crate::octets::views(a.name_types@);
        let y = crate::octets::views(a.mech_attrs@);
        let z = crate::octets::views(a.known_mech_attrs@);
        let p = mechstatus::opaque_views(b.name_types@);
        let q = mechstatus::opaque_views(b.mech_attrs@);
        let s = mechstatus::opaque_views(b.known_mech_attrs@);
        assert(x == p && y == q && z == s);
        assert(x.len() == a.name_types@.len() && p.len() == b.name_types@.len());
        assert(y.len() == a.mech_attrs@.len() && q.len() == b.mech_attrs@.len());
        assert(z.len() == a.known_mech_attrs@.len() && s.len() == b.known_mech_attrs@.len());
        if 0 <= k < x.len() {
            assert(x[k] == p[k]);
        }
        if 0 <= k < y.len() {
            assert(y[k] == q[k]);
        }
        if 0 <= k < z.len() {
            assert(z[k] == s[k]);
        }
    }
}

/// Entry `i` is the first for a mechanism.
pub open spec fn first_for(c: MechCache, mech: Seq<u8>, i: int) -> bool {
    &&& 0 <= i < c.info@.len()
    &&& c.info@[i].mech@ == mech
    &&& forall|j: int| 0 <= j < i ==> (#[trigger] c.info@[j]).mech@ != mech
}

/// What is found for a mechanism is its first entry. Without a table there is an I/O error,
/// and a mechanism that is not in it, or none, is a bad one.
pub proof fn mechanisms_are_found(
    c: &MechCache,
    mech: Option<&[u8]>,
    r: Result<&MechInfo, Status>,
    i: int,
)
    requires
        call_ensures(mechstatus::find_mech, (c, mech), r),
    ensures
        !c.ok ==> r is Err && r->Err_0 == (GSS_S_FAILURE, EIO as u32),
        c.ok && mech is None ==> r is Err && r->Err_0 == (GSS_S_BAD_MECH, 0u32),
        c.ok && mech is Some && first_for(*c, mech->Some_0@, i) ==> r is Ok && *r->Ok_0
            == c.info@[i],
        c.ok && mech is Some && (forall|j: int|
            0 <= j < c.info@.len() ==> (#[trigger] c.info@[j]).mech@ != mech->Some_0@) ==> r is Err
            && r->Err_0 == (GSS_S_BAD_MECH, 0u32),
{
    if mech is Some {
        let m = mech->Some_0@;
        if first_for(*c, m, i) {
            assert(mechstatus::first_entry(c.info@, m, i));
            assert(mechstatus::has_entry(c.info@, m));
            if let Ok(x) = r {
                let j = choose|j: int|
                    mechstatus::first_entry(c.info@, m, j) && *x == #[trigger] c.info@[j];
                assert(i == j);
            }
        }
        if forall|j: int| 0 <= j < c.info@.len() ==> (#[trigger] c.info@[j]).mech@ != m {
            assert(!mechstatus::has_entry(c.info@, m));
        }
    }
}

/// Inquiries go to the local mechanism or to the table, in the order of the behavior.
pub proof fn order_of_inquiries(behavior: Behavior, r: (MechInquiry, MechStep))
    requires
        call_ensures(MechInquiry::begin, (behavior,), r),
    ensures
        behavior is LocalOnly || behavior is LocalFirst <==> r.1 is Local,
        behavior is RemoteOnly || behavior is RemoteFirst <==> r.1 is Remote,
{
}

/// A local answer ends an inquiry; a first one that fails gives way to the table, unless
/// only the local mechanism is to be asked.
pub proof fn after_a_local_inquiry(q: &mut MechInquiry, s: Status, m: u32, r: MechStep)
    requires
        call_ensures(MechInquiry::local_done, (q, s), r),
        call_ensures(error::map_error, (s.1,), m),
        !(old(q).attempt.rule is Initiate),
    ensures
        s.0 == GSS_S_COMPLETE ==> r == MechStep::Done(GSS_S_COMPLETE, m),
        s.0 != GSS_S_COMPLETE && old(q).attempt.turn is LocalFirst && !(old(q).attempt.behavior
            is LocalOnly) ==> r is Remote,
        old(q).attempt.behavior is LocalOnly || !(old(q).attempt.turn is LocalFirst) ==> r
            is Done,
{
}

/// The names, the attributes and the SASL names of a mechanism are those of its first entry
/// in the table.
pub proof fn what_the_table_tells(
    q: &mut MechInquiry,
    c: &MechCache,
    mech: &[u8],
    n: (MechStep, Option<Vec<Vec<u8>>>),
    a: (MechStep, Option<(Vec<Vec<u8>>, Vec<Vec<u8>>)>),
    s: (MechStep, Option<(Vec<u8>, Vec<u8>, Vec<u8>)>),
    i: int,
    k: int,
)
    requires
        c.ok,
        first_for(*c, mech@, i),
        call_ensures(MechInquiry::gssi_inquire_names_for_mech, (q, c, Some(mech)), n),
        call_ensures(MechInquiry::gssi_inquire_attrs_for_mech, (q, c, Some(mech)), a),
        call_ensures(MechInquiry::gssi_inquire_saslname_for_mech, (q, c, Some(mech)), s),
        !(old(q).attempt.rule is Initiate),
    ensures
        n.0 == MechStep::Done(GSS_S_COMPLETE, 0) && a.0 == n.0 && s.0 == n.0,
        n.1 is Some && a.1 is Some && s.1 is Some,
        n.1->Some_0@.len() == c.info@[i].name_types@.len(),
        0 <= k < n.1->Some_0@.len() ==> n.1->Some_0@[k]@ == c.info@[i].name_types@[k]@,
        a.1->Some_0.0@.len() == c.info@[i].mech_attrs@.len(),
        0 <= k < a.1->Some_0.0@.len() ==> a.1->Some_0.0@[k]@ == c.info@[i].mech_attrs@[k]@,
        a.1->Some_0.1@.len() == c.info@[i].known_mech_attrs@.len(),
        0 <= k < a.1->Some_0.1@.len() ==> a.1->Some_0.1@[k]@ == c.info@[i].known_mech_attrs@[k]@,
        s.1->Some_0.0@ == c.info@[i].saslname_sasl_mech_name@,
        s.1->Some_0.1@ == c.info@[i].saslname_mech_name@,
        s.1->Some_0.2@ == c.info@[i].saslname_mech_desc@,
{
    assert(mechstatus::first_entry(c.info@, mech@, i));
    assert(mechstatus::has_entry(c.info@, mech@));
    let names = n.1->Some_0;
    let j = choose|j: int|
        mechstatus::first_entry(c.info@, mech@, j) && crate::octets::views(names@)
            == crate::octets::views((#[trigger] c.info@[j]).name_types@);
    assert(i == j);
    lemma_same_items(names@, c.info@[i].name_types@, k);
    let attrs = a.1->Some_0;
    let j2 = choose|j: int|
        mechstatus::first_entry(c.info@, mech@, j) && crate::octets::views(attrs.0@)
            == crate::octets::views((#[trigger] c.info@[j]).mech_attrs@) && crate::octets::views(
            attrs.1@,
        ) == crate::octets::views(c.info@[j].known_mech_attrs@);
    assert(i == j2);
    lemma_same_items(attrs.0@, c.info@[i].mech_attrs@, k);
    lemma_same_items(attrs.1@, c.info@[i].known_mech_attrs@, k);
    let sasl = s.1->Some_0;
    let j3 = choose|j: int|
        mechstatus::first_entry(c.info@, mech@, j) && sasl.0@ == (
        #[trigger] c.info@[j]).saslname_sasl_mech_name@ && sasl.1@
            == c.info@[j].saslname_mech_name@ && sasl.2@ == c.info@[j].saslname_mech_desc@;
    assert(i == j3);
}

proof fn lemma_same_items(a: Seq<Vec<u8>>, b: Seq<Vec<u8>>, k: int)
    requires
        crate::octets::views(a) == crate::octets::views(b),
    ensures
        a.len() == b.len(),
        0 <= k < a.len() ==> a[k]@ == b[k]@,
{
    let x = crate::octets::views(a);
    let y = crate::octets::views(b);
    assert(x.len() == a.len() && y.len() == b.len());
    if 0 <= k < a.len() {
        assert(x[k] == a[k]@ && y[k] == b[k]@);
    }
}

/// A mechanism that is not in the table is asked about locally after all, unless only the
/// table is to be asked.
pub proof fn mechanisms_that_are_not_known(
    q: &mut MechInquiry,
    c: &MechCache,
    mech: &[u8],
    n: (MechStep, Option<Vec<Vec<u8>>>),
)
    requires
        forall|j: int| 0 <= j < c.info@.len() ==> (#[trigger] c.info@[j]).mech@ != mech@,
        call_ensures(MechInquiry::gssi_inquire_names_for_mech, (q, c, Some(mech)), n),
        old(q).attempt.rule is Inquire,
    ensures
        n.1 is None,
        !(old(q).attempt.behavior is RemoteOnly) ==> n.0 is Local,
        old(q).attempt.behavior is RemoteOnly ==> n.0 is Done,
{
    assert(!mechstatus::has_entry(c.info@, mech@));
}

/// The mechglue does not ask the interposer for the mechanisms there are, nor for one by its
/// SASL name.
pub proof fn what_is_not_offered(s: Status, u: u32)
    requires
        call_ensures(mechstatus::gssi_indicate_mechs, (), s),
        call_ensures(mechstatus::gssi_inquire_mech_for_saslname, (), u),
    ensures
        s == (GSS_S_FAILURE, 0u32),
        u == GSS_S_UNAVAILABLE,
{
}

/// A mapped minor status has the text that was saved for it, once; the text of any other
/// one is asked for locally, unmapped. Major statuses are not displayed.
pub proof fn texts_of_statuses(
    saved: &Option<GssxStatus>,
    value: u32,
    kind: i32,
    context: u32,
    code: u32,
    r: StatusText,
)
    requires
        call_ensures(mechstatus::gssi_display_status, (saved, value, kind, context), r),
        call_ensures(error::unmap_error, (value,), code),
    ensures
        kind != GSS_C_MECH_CODE ==> r == StatusText::Refused(GSS_S_BAD_STATUS, None),
        kind == GSS_C_MECH_CODE && *saved is None ==> r == StatusText::Local(code),
        kind == GSS_C_MECH_CODE && *saved is Some && (*saved)->Some_0.minor_status != code ==> r
            == StatusText::Local(code),
        kind == GSS_C_MECH_CODE && *saved is Some
            && (*saved)->Some_0.minor_status_string@.len() == 0 ==> r == StatusText::Local(code),
        kind == GSS_C_MECH_CODE && *saved is Some && (*saved)->Some_0.minor_status == code
            && (*saved)->Some_0.minor_status_string@.len() > 0 && context == 0 ==> r is Text
            && r->Text_0@ == (*saved)->Some_0.minor_status_string@,
        kind == GSS_C_MECH_CODE && *saved is Some && (*saved)->Some_0.minor_status == code
            && (*saved)->Some_0.minor_status_string@.len() > 0 && context != 0 ==> r
            == StatusText::Refused(GSS_S_FAILURE, Some(EINVAL as u32)),
{
}

} // verus!
