//! The mechanism OIDs that the interposer takes over, and its own.
//!
//! An OID is its DER body; an absent one is `None`.

use vstd::prelude::*;

use crate::consts::{
    GSSPROXY_INTERPOSER_OID, IAKERB_MECH_OID, KRB5_MECH_OID, KRB5_OLD_MECH_OID,
    KRB5_WRONG_MECH_OID,
};
use crate::octets;

verus! {

/// The base OIDs.
#[derive(Debug)]
pub struct BaseOids {
    pub interposer: Vec<u8>,
    pub krb5: Vec<u8>,
    pub krb5_old: Vec<u8>,
    pub krb5_wrong: Vec<u8>,
    pub iakerb: Vec<u8>,
}

/// The base OIDs.
pub fn base() -> (r: BaseOids)
    ensures
        r.interposer@ == GSSPROXY_INTERPOSER_OID@,
        r.krb5@ == KRB5_MECH_OID@,
        r.krb5_old@ == KRB5_OLD_MECH_OID@,
        r.krb5_wrong@ == KRB5_WRONG_MECH_OID@,
        r.iakerb@ == IAKERB_MECH_OID@,
{
    let interposer = GSSPROXY_INTERPOSER_OID;
    let krb5 = KRB5_MECH_OID;
    let krb5_old = KRB5_OLD_MECH_OID;
    let krb5_wrong = KRB5_WRONG_MECH_OID;
    let iakerb = IAKERB_MECH_OID;
    BaseOids {
        interposer: octets::copy(interposer.as_slice()),
        krb5: octets::copy(krb5.as_slice()),
        krb5_old: octets::copy(krb5_old.as_slice()),
        krb5_wrong: octets::copy(krb5_wrong.as_slice()),
        iakerb: octets::copy(iakerb.as_slice()),
    }
}

/// The interposer's own OID.
pub fn interposer() -> (r: Vec<u8>)
    ensures
        r@ == GSSPROXY_INTERPOSER_OID@,
{
    let oid = GSSPROXY_INTERPOSER_OID;
    octets::copy(oid.as_slice())
}

/// The bytes of an optional OID.
pub open spec fn oid_view(oid: Option<&[u8]>) -> Option<Seq<u8>> {
    match oid {
        Some(b) => Some(b@),
        None => None,
    }
}

/// Whether two OIDs are the same; an absent one is not equal to any.
pub fn oid_equal(a: Option<&[u8]>, b: Option<&[u8]>) -> (r: bool)
    ensures
        r == (a is Some && oid_view(a) == oid_view(b)),
{
    match (a, b) {
        (Some(x), Some(y)) => octets::same(x, y),
        _ => false,
    }
}

/// One of the krb5 or IAKERB mechanisms.
pub open spec fn is_krb5(mech: Seq<u8>) -> bool {
    ||| mech == KRB5_MECH_OID@
    ||| mech == KRB5_OLD_MECH_OID@
    ||| mech == KRB5_WRONG_MECH_OID@
    ||| mech == IAKERB_MECH_OID@
}

/// Whether a mechanism is one that the interposer takes over.
pub fn is_krb5_oid(mech: Option<&[u8]>) -> (r: bool)
    ensures
        r == (mech is Some && is_krb5(mech->Some_0@)),
{
    let b = base();
    oid_equal(mech, Some(b.krb5.as_slice())) || oid_equal(mech, Some(b.krb5_old.as_slice()))
        || oid_equal(mech, Some(b.krb5_wrong.as_slice())) || oid_equal(
        mech,
        Some(b.iakerb.as_slice()),
    )
}

/// The mechanisms that the interposer takes over: the krb5 family and IAKERB.
pub open spec fn taken_over() -> Seq<Seq<u8>> {
    seq![KRB5_MECH_OID@, KRB5_OLD_MECH_OID@, KRB5_WRONG_MECH_OID@, IAKERB_MECH_OID@]
}

/// The mechanisms that the interposer takes over when it is asked under its own
/// OID and is active.
pub fn gss_mech_interposer(enabled: bool, mech_type: Option<&[u8]>) -> (r: Option<Vec<Vec<u8>>>)
    ensures
        r is Some <==> enabled && oid_view(mech_type) == Some(GSSPROXY_INTERPOSER_OID@),
        r matches Some(mechs) ==> octets::views(mechs@) == taken_over(),
{
    if !enabled {
        return None;
    }
    let b = base();
    if !oid_equal(Some(b.interposer.as_slice()), mech_type) {
        return None;
    }
    let mut mechs: Vec<Vec<u8>> = Vec::new();
    mechs.push(b.krb5);
    mechs.push(b.krb5_old);
    mechs.push(b.krb5_wrong);
    mechs.push(b.iakerb);
    assert(octets::views(mechs@) =~= taken_over());
    Some(mechs)
}

} // verus!
