//! Names.

use vstd::prelude::*;

use crate::consts::{
    ENOENT, ENOTSUP, GSS_S_BAD_NAME, GSS_S_CALL_INACCESSIBLE_READ, GSS_S_COMPLETE, GSS_S_FAILURE,
    GSS_S_UNAVAILABLE,
};
use crate::gpm;
use crate::gpm::InquireName;
use crate::gssx::GssxName;
use crate::interposer::attempt::Status;
use crate::interposer::convert;
use crate::interposer::error;
use crate::interposer::handle::{NameHandle, OwnedOid};
use crate::interposer::oids;
use crate::octets;
use crate::xdr::Xdr;

verus! {

/// A name that an operation can work on.
pub open spec fn has_name(name: Option<NameHandle>) -> bool {
    name is Some && name->Some_0.usable()
}

// ---- display ----

/// How a name is displayed.
#[derive(Debug)]
pub enum NameDisplay {
    /// By the local mechanism.
    Local(usize),
    /// As this, of this name type where it is wanted.
    Known(Vec<u8>, Option<Vec<u8>>),
    /// Not at all: report this major status, and this minor status where one is
    /// set.
    Refused(u32, Option<u32>),
}

/// Display a name. A name type that is wanted must be a known one. A remote name
/// that only has an exported form keeps it as its display name.
pub fn gssi_display_name(name: &mut NameHandle, wants_type: bool) -> (r: NameDisplay)
    ensures
        final(name).mech_type == old(name).mech_type,
        final(name).local == old(name).local,
        if old(name).local != 0 {
            r == NameDisplay::Local(old(name).local) && *final(name) == *old(name)
        } else {
            match old(name).remote {
                None => {
                    &&& r == NameDisplay::Refused(GSS_S_BAD_NAME, None)
                    &&& final(name).remote is None
                },
                Some(g) => {
                    &&& final(name).remote matches Some(after) && gpm::after_display(g, after)
                    &&& match gpm::displayed(g) {
                        None => r == NameDisplay::Refused(GSS_S_BAD_NAME, Some(0)),
                        Some((d, t)) => if wants_type && !convert::is_known_name_type(t) {
                            r == NameDisplay::Refused(
                                GSS_S_FAILURE,
                                Some(error::mapped(ENOENT as u32)),
                            )
                        } else {
                            r matches NameDisplay::Known(display, name_type) && display@ == d && if
                            wants_type {
                                name_type matches Some(x) && x@ == t
                            } else {
                                name_type is None
                            }
                        },
                    }
                },
            }
        },
{
    if name.local != 0 {
        return NameDisplay::Local(name.local);
    }
    let mut remote = match name.remote.take() {
        None => {
            return NameDisplay::Refused(GSS_S_BAD_NAME, None);
        },
        Some(g) => g,
    };
    let (maj, min, display, name_type) = gpm::display_name(&mut remote);
    name.remote = Some(remote);
    if maj != GSS_S_COMPLETE {
        return NameDisplay::Refused(maj, Some(error::map_error(min)));
    }
    if wants_type {
        if !convert::known_name_type(name_type.as_slice()) {
            return NameDisplay::Refused(GSS_S_FAILURE, Some(error::map_error(ENOENT as u32)));
        }
        NameDisplay::Known(display, Some(name_type))
    } else {
        NameDisplay::Known(display, None)
    }
}

// ---- operations that only the local mechanism has ----

/// What an operation does with the name that it is given.
#[derive(Debug, Clone, Copy, PartialEq, Eq)]
pub enum NameUse {
    /// It is done with the local name.
    Local(usize),
    /// The remote name is first turned into a local one, for its own mechanism.
    ToLocal,
    /// It is refused with this major status, and this minor status where one is
    /// set.
    Refused(u32, Option<u32>),
}

/// Displaying a name under another type, and the name attributes, are for local
/// names.
pub fn local_names_only(name: Option<&NameHandle>) -> (r: NameUse)
    ensures
        r == match name {
            None => NameUse::Refused(GSS_S_BAD_NAME, None),
            Some(n) => if !n.usable() {
                NameUse::Refused(GSS_S_BAD_NAME, None)
            } else if n.local == 0 {
                NameUse::Refused(GSS_S_UNAVAILABLE, Some(0))
            } else {
                NameUse::Local(n.local)
            },
        },
{
    match name {
        None => NameUse::Refused(GSS_S_BAD_NAME, None),
        Some(n) => {
            if !n.is_usable() {
                NameUse::Refused(GSS_S_BAD_NAME, None)
            } else if n.local == 0 {
                NameUse::Refused(GSS_S_UNAVAILABLE, Some(0))
            } else {
                NameUse::Local(n.local)
            }
        },
    }
}

/// Authorizing a local user and mapping a name work on the local name, which is
/// made from a remote one where there is one.
pub fn local_name_wanted(name: Option<&NameHandle>) -> (r: NameUse)
    ensures
        r == match name {
            None => NameUse::Refused(GSS_S_CALL_INACCESSIBLE_READ, Some(0)),
            Some(n) => if n.local == 0 && n.remote is Some {
                NameUse::ToLocal
            } else {
                NameUse::Local(n.local)
            },
        },
{
    match name {
        None => NameUse::Refused(GSS_S_CALL_INACCESSIBLE_READ, Some(0)),
        Some(n) => {
            if n.local == 0 && n.remote.is_some() {
                NameUse::ToLocal
            } else {
                NameUse::Local(n.local)
            }
        },
    }
}

/// After a remote name was turned into a local one, or not.
pub fn name_made_local(name: &mut NameHandle, s: Status, local: usize) -> (r: NameUse)
    ensures
        final(name).mech_type == old(name).mech_type,
        final(name).remote == old(name).remote,
        if s.0 == GSS_S_COMPLETE {
            final(name).local == local && r == NameUse::Local(local)
        } else {
            final(name).local == old(name).local && r == NameUse::Refused(
                s.0,
                Some(error::mapped(s.1)),
            )
        },
{
    if s.0 != GSS_S_COMPLETE {
        return NameUse::Refused(s.0, Some(error::map_error(s.1)));
    }
    name.local = local;
    NameUse::Local(local)
}

/// A mapping is released by the local mechanism.
pub fn gssi_release_any_name_mapping(name: Option<&NameHandle>) -> (r: NameUse)
    ensures
        r == match name {
            None => NameUse::Refused(GSS_S_CALL_INACCESSIBLE_READ, Some(0)),
            Some(n) => if n.local == 0 {
                NameUse::Refused(GSS_S_UNAVAILABLE, Some(0))
            } else {
                NameUse::Local(n.local)
            },
        },
{
    match name {
        None => NameUse::Refused(GSS_S_CALL_INACCESSIBLE_READ, Some(0)),
        Some(n) => if n.local == 0 {
            NameUse::Refused(GSS_S_UNAVAILABLE, Some(0))
        } else {
            NameUse::Local(n.local)
        },
    }
}

// ---- import, duplication, release ----

/// Names cannot be imported without a mechanism.
pub fn gssi_import_name() -> (r: u32)
    ensures
        r == GSS_S_UNAVAILABLE,
{
    GSS_S_UNAVAILABLE
}

/// Import a name for a mechanism: it becomes a remote name. All three of the
/// mechanism, the name and its type must be given.
pub fn gssi_import_name_by_mech(
    mech_type: Option<&[u8]>,
    name: Option<&[u8]>,
    name_type: Option<&[u8]>,
) -> (r: Result<NameHandle, (u32, Option<u32>)>)
    ensures
        match (mech_type, name, name_type) {
            (Some(m), Some(v), Some(t)) => r matches Ok(h) && {
                &&& h.local == 0
                &&& h.mech() == Some(m@)
                &&& h.remote matches Some(g) && {
                    &&& g.display_name@ == v@
                    &&& g.name_type@ == t@
                    &&& g.exported_name@.len() == 0
                    &&& g.exported_composite_name@.len() == 0
                    &&& g.name_attributes@.len() == 0
                    &&& g.extensions@.len() == 0
                }
            },
            (None, _, _) => r == Err::<NameHandle, (u32, Option<u32>)>(
                (GSS_S_CALL_INACCESSIBLE_READ, None),
            ),
            _ => r == Err::<NameHandle, (u32, Option<u32>)>(
                (GSS_S_CALL_INACCESSIBLE_READ, Some(0)),
            ),
        },
{
    let m = match mech_type {
        Some(m) => m,
        None => {
            return Err((GSS_S_CALL_INACCESSIBLE_READ, None));
        },
    };
    match (name, name_type) {
        (Some(v), Some(t)) => {
            let mut h = NameHandle::empty();
            h.mech_type = OwnedOid::from_oid(Some(m));
            h.remote = Some(gpm::import_name(v, t));
            Ok(h)
        },
        _ => Err((GSS_S_CALL_INACCESSIBLE_READ, Some(0))),
    }
}

/// How a name is duplicated.
pub enum NameCopy {
    /// This is the copy of a remote name.
    Copied(NameHandle),
    /// The local mechanism duplicates this name into the handle.
    Local(usize, NameHandle),
    /// Not at all: this is the major status.
    Refused(u32),
}

/// A handle for the same mechanism.
pub open spec fn same_mech(a: NameHandle, b: NameHandle) -> bool {
    a.mech() == b.mech()
}

/// Duplicate a name.
pub fn gssi_duplicate_name(name: Option<&NameHandle>) -> (r: NameCopy)
    ensures
        match name {
            None => r == NameCopy::Refused(GSS_S_BAD_NAME),
            Some(n) => match (n.remote, n.local == 0) {
                (None, true) => r == NameCopy::Refused(GSS_S_BAD_NAME),
                (Some(g), _) => r matches NameCopy::Copied(c) && {
                    &&& same_mech(c, *n)
                    &&& c.local == 0
                    &&& c.remote matches Some(x) && x.tree() == g.tree()
                },
                (None, false) => r matches NameCopy::Local(l, c) && {
                    &&& l == n.local
                    &&& same_mech(c, *n)
                    &&& c.local == 0
                    &&& c.remote is None
                },
            },
        },
{
    let n = match name {
        None => {
            return NameCopy::Refused(GSS_S_BAD_NAME);
        },
        Some(n) => n,
    };
    if !n.is_usable() {
        return NameCopy::Refused(GSS_S_BAD_NAME);
    }
    let mut out = NameHandle::empty();
    out.mech_type = OwnedOid::from_oid(n.mech_ptr());
    match &n.remote {
        Some(g) => {
            out.remote = Some(g.clone());
            NameCopy::Copied(out)
        },
        None => NameCopy::Local(n.local, out),
    }
}

/// Whether a name handle can be released: there must be a name behind it.
pub fn gssi_release_name(name: Option<&NameHandle>) -> (r: u32)
    ensures
        r == if has_name(crate::interposer::handle::by_value(name)) {
            GSS_S_COMPLETE
        } else {
            GSS_S_BAD_NAME
        },
{
    match name {
        Some(n) => if n.is_usable() {
            GSS_S_COMPLETE
        } else {
            GSS_S_BAD_NAME
        },
        None => GSS_S_BAD_NAME,
    }
}

// ---- inquiry ----

/// What is known of a name.
#[derive(Debug)]
pub enum NameInquiry {
    /// The local mechanism is asked about it.
    Local(usize),
    /// Whether it is a mechanism name, its type where that is wanted, and the
    /// keys of its attributes.
    Known(bool, Option<Vec<u8>>, Vec<Vec<u8>>),
    /// Only whether it is a mechanism name, since its type is not a known one:
    /// report this major and this minor status.
    Untyped(bool, u32, u32),
    /// Nothing: report this major status, and this minor status where one is set.
    Refused(u32, Option<u32>),
}

/// Inquire about a name. A name type that is wanted must be a known one.
pub fn gssi_inquire_name(name: Option<&NameHandle>, wants_type: bool) -> (r: NameInquiry)
    ensures
        match name {
            None => r == NameInquiry::Refused(GSS_S_BAD_NAME, None),
            Some(n) => if n.local != 0 {
                r == NameInquiry::Local(n.local)
            } else {
                match n.remote {
                    None => r == NameInquiry::Refused(GSS_S_BAD_NAME, None),
                    Some(g) => if wants_type && !convert::is_known_name_type(g.name_type@) {
                        r == NameInquiry::Untyped(
                            g.exported_name@.len() > 0,
                            GSS_S_FAILURE,
                            error::mapped(ENOENT as u32),
                        )
                    } else {
                        r matches NameInquiry::Known(mn, name_type, attrs) && {
                            &&& mn == (g.exported_name@.len() > 0)
                            &&& if wants_type {
                                name_type matches Some(t) && t@ == g.name_type@
                            } else {
                                name_type is None
                            }
                            &&& attrs@.len() == g.name_attributes@.len()
                            &&& forall|i: int|
                                0 <= i < attrs@.len() ==> (#[trigger] attrs@[i])@
                                    == g.name_attributes@[i].attr@
                        }
                    },
                }
            },
        },
{
    let n = match name {
        None => {
            return NameInquiry::Refused(GSS_S_BAD_NAME, None);
        },
        Some(n) => n,
    };
    if n.local != 0 {
        return NameInquiry::Local(n.local);
    }
    let g = match &n.remote {
        None => {
            return NameInquiry::Refused(GSS_S_BAD_NAME, None);
        },
        Some(g) => g,
    };
    let info: InquireName = gpm::inquire_name(g);
    proof {
        assert(octets::views(info.attrs@).len() == g.name_attributes@.len());
        assert forall|i: int| 0 <= i < info.attrs@.len() implies (#[trigger] info.attrs@[i])@
            == g.name_attributes@[i].attr@ by {
            assert(info.attrs@[i]@ == octets::views(info.attrs@)[i]);
        }
    }
    if wants_type {
        if !convert::known_name_type(info.name_type.as_slice()) {
            return NameInquiry::Untyped(
                info.name_is_mn,
                GSS_S_FAILURE,
                error::map_error(ENOENT as u32),
            );
        }
        NameInquiry::Known(info.name_is_mn, Some(info.name_type), info.attrs)
    } else {
        NameInquiry::Known(info.name_is_mn, None, info.attrs)
    }
}

// ---- comparison ----

/// What a step of a comparison asks for.
#[derive(Debug, Clone, Copy, PartialEq, Eq)]
pub enum CompareStep {
    /// Turn the first name into a local one, for its own mechanism.
    FirstToLocal,
    /// Turn the second name into a local one, for its own mechanism.
    SecondToLocal,
    /// Let the local mechanism compare these names.
    Local(usize, usize),
    /// Report this major status, this minor status where one is set, and this
    /// answer where there is one.
    Done(u32, Option<u32>, Option<bool>),
}

/// The step for two names. Two remote names are compared as they are displayed;
/// as soon as one of them is local, the local mechanism compares them.
pub open spec fn compare_step(a: NameHandle, b: NameHandle) -> CompareStep {
    if a.local != 0 || b.local != 0 {
        if a.local == 0 {
            if a.remote is Some {
                CompareStep::FirstToLocal
            } else {
                CompareStep::Done(GSS_S_CALL_INACCESSIBLE_READ, None, None)
            }
        } else if b.local == 0 {
            if b.remote is Some {
                CompareStep::SecondToLocal
            } else {
                CompareStep::Done(GSS_S_CALL_INACCESSIBLE_READ, None, None)
            }
        } else {
            CompareStep::Local(a.local, b.local)
        }
    } else {
        match (a.remote, b.remote) {
            (Some(x), Some(y)) => match (gpm::displayed(x), gpm::displayed(y)) {
                (Some((d1, t1)), Some((d2, t2))) => CompareStep::Done(
                    GSS_S_COMPLETE,
                    Some(0),
                    Some(!(d1 == d2 && t1 != t2)),
                ),
                _ => CompareStep::Done(GSS_S_BAD_NAME, Some(0), Some(false)),
            },
            _ => CompareStep::Done(GSS_S_CALL_INACCESSIBLE_READ, None, None),
        }
    }
}

/// Begin to compare two names. A remote name cannot be compared with a handle
/// that holds no name at all.
pub fn gssi_compare_name(a: Option<&NameHandle>, b: Option<&NameHandle>) -> (r: CompareStep)
    requires
        a is Some && b is Some && a->Some_0.local == 0 && b->Some_0.local == 0 ==> (
        a->Some_0.remote is Some) == (b->Some_0.remote is Some),
    ensures
        r == match (a, b) {
            (Some(x), Some(y)) => compare_step(*x, *y),
            _ => CompareStep::Done(GSS_S_CALL_INACCESSIBLE_READ, None, None),
        },
{
    let (x, y) = match (a, b) {
        (Some(x), Some(y)) => (x, y),
        _ => {
            return CompareStep::Done(GSS_S_CALL_INACCESSIBLE_READ, None, None);
        },
    };
    if x.local != 0 || y.local != 0 {
        if x.local == 0 {
            return if x.remote.is_some() {
                CompareStep::FirstToLocal
            } else {
                CompareStep::Done(GSS_S_CALL_INACCESSIBLE_READ, None, None)
            };
        }
        if y.local == 0 {
            return if y.remote.is_some() {
                CompareStep::SecondToLocal
            } else {
                CompareStep::Done(GSS_S_CALL_INACCESSIBLE_READ, None, None)
            };
        }
        return CompareStep::Local(x.local, y.local);
    }
    match (&x.remote, &y.remote) {
        (Some(g), Some(h)) => {
            let (maj, min, equal) = gpm::compare_name(g, h);
            CompareStep::Done(maj, Some(error::map_error(min)), Some(equal))
        },
        _ => CompareStep::Done(GSS_S_CALL_INACCESSIBLE_READ, None, None),
    }
}

/// The status with which a name could not be turned into a local one ends the
/// comparison.
pub fn compare_failed(s: Status) -> (r: CompareStep)
    ensures
        r == CompareStep::Done(s.0, Some(error::mapped(s.1)), None),
{
    CompareStep::Done(s.0, Some(error::map_error(s.1)), None)
}

// ---- local user names ----

/// What a step of finding the local user name asks for.
#[derive(Debug)]
pub enum LocalnameStep {
    /// Ask the daemon.
    Remote,
    /// Turn the remote name into a local one, for the mechanism.
    ToLocal,
    /// Ask the local mechanism about this name.
    Local(usize),
    /// Report this major and this minor status, and this name where there is
    /// one.
    Done(u32, u32, Option<Vec<u8>>),
}

/// Begin: the daemon is asked first about a remote name.
pub fn gssi_localname(name: Option<&NameHandle>) -> (r: LocalnameStep)
    ensures
        match name {
            Some(n) => if n.remote is Some {
                r is Remote
            } else if n.local != 0 {
                r == LocalnameStep::Local(n.local)
            } else {
                r == LocalnameStep::Done(GSS_S_CALL_INACCESSIBLE_READ, 0, None)
            },
            None => r == LocalnameStep::Done(GSS_S_CALL_INACCESSIBLE_READ, 0, None),
        },
{
    match name {
        Some(n) => if n.remote.is_some() {
            LocalnameStep::Remote
        } else if n.local != 0 {
            LocalnameStep::Local(n.local)
        } else {
            LocalnameStep::Done(GSS_S_CALL_INACCESSIBLE_READ, 0, None)
        },
        None => LocalnameStep::Done(GSS_S_CALL_INACCESSIBLE_READ, 0, None),
    }
}

/// The daemon has answered. Where it does not support the mapping, the local
/// mechanism is asked instead.
pub fn localname_answered(name: &NameHandle, answer: (u32, u32, Option<Vec<u8>>)) -> (r:
    LocalnameStep)
    ensures
        if answer.0 == GSS_S_COMPLETE {
            r == LocalnameStep::Done(answer.0, error::mapped(answer.1), answer.2)
        } else if answer.0 == GSS_S_FAILURE && answer.1 == ENOTSUP as u32 {
            if name.local != 0 {
                r == LocalnameStep::Local(name.local)
            } else if name.remote is Some {
                r is ToLocal
            } else {
                r == LocalnameStep::Done(GSS_S_COMPLETE, 0, None)
            }
        } else {
            r == LocalnameStep::Done(answer.0, error::mapped(answer.1), None)
        },
{
    let (maj, min, out) = answer;
    if maj == GSS_S_COMPLETE {
        return LocalnameStep::Done(maj, error::map_error(min), out);
    }
    if maj != GSS_S_FAILURE || min != ENOTSUP as u32 {
        return LocalnameStep::Done(maj, error::map_error(min), None);
    }
    if name.local != 0 {
        LocalnameStep::Local(name.local)
    } else if name.remote.is_some() {
        LocalnameStep::ToLocal
    } else {
        LocalnameStep::Done(GSS_S_COMPLETE, 0, None)
    }
}

/// The remote name was turned into this local one, or not.
pub fn localname_named(name: &mut NameHandle, s: Status, local: usize) -> (r: LocalnameStep)
    ensures
        final(name).mech_type == old(name).mech_type,
        final(name).remote == old(name).remote,
        if s.0 == GSS_S_COMPLETE {
            &&& final(name).local == local
            &&& r == if local != 0 {
                LocalnameStep::Local(local)
            } else {
                LocalnameStep::Done(GSS_S_COMPLETE, 0, None)
            }
        } else {
            &&& final(name).local == old(name).local
            &&& r == LocalnameStep::Done(s.0, error::mapped(s.1), None)
        },
{
    if s.0 != GSS_S_COMPLETE {
        return LocalnameStep::Done(s.0, error::map_error(s.1), None);
    }
    name.local = local;
    if local != 0 {
        LocalnameStep::Local(local)
    } else {
        LocalnameStep::Done(GSS_S_COMPLETE, 0, None)
    }
}

/// Comparing is symmetric: which name comes first does not matter for what is
/// answered about two remote names.
pub proof fn comparison_is_symmetric(a: NameHandle, b: NameHandle)
    requires
        a.local == 0,
        b.local == 0,
    ensures
        compare_step(a, b) == compare_step(b, a),
{
}

} // verus!
