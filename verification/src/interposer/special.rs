//! Special mechanisms.
//!
//! A mechanism is hidden from the local mechglue by putting the interposer's
//! OID in front of its own: that is its special OID. The registry holds the
//! mechanisms that were made special; it only grows, so that the place of an
//! entry names a descriptor that stays valid.

use vstd::prelude::*;

use crate::consts::{GSSPROXY_INTERPOSER_OID, GSS_S_COMPLETE, GSS_S_CONTINUE_NEEDED};
use crate::interposer::oids;
use crate::octets;
use crate::xdr;

verus! {

/// The OID begins with the interposer's.
pub open spec fn is_special(mech: Seq<u8>) -> bool {
    GSSPROXY_INTERPOSER_OID@.is_prefix_of(mech)
}

/// The special form of a mechanism; a special one is its own.
pub open spec fn special_of(mech: Seq<u8>) -> Seq<u8> {
    if is_special(mech) {
        mech
    } else {
        GSSPROXY_INTERPOSER_OID@ + mech
    }
}

/// What follows the interposer's OID.
pub open spec fn stripped(mech: Seq<u8>) -> Seq<u8> {
    mech.skip(GSSPROXY_INTERPOSER_OID@.len() as int)
}

/// The registered mechanisms are regular, and each stands there once.
pub open spec fn well_formed(mechs: Seq<Seq<u8>>) -> bool {
    &&& forall|i: int| 0 <= i < mechs.len() ==> !is_special(#[trigger] mechs[i])
    &&& mechs.no_duplicates()
}

/// The registry after a mechanism was looked up.
pub open spec fn with_mech(mechs: Seq<Seq<u8>>, mech: Seq<u8>) -> Seq<Seq<u8>> {
    if is_special(mech) || mechs.contains(mech) {
        mechs
    } else {
        mechs.push(mech)
    }
}

/// The registry after the first `n` of some mechanisms were looked up.
pub open spec fn with_mechs(mechs: Seq<Seq<u8>>, more: Seq<Seq<u8>>, n: int) -> Seq<Seq<u8>>
    decreases n,
{
    if n <= 0 {
        mechs
    } else {
        with_mech(with_mechs(mechs, more, n - 1), more[n - 1])
    }
}

/// The regular form of a mechanism: a special one that is registered loses the
/// interposer's OID, and any other is its own.
pub open spec fn regular_of(mechs: Seq<Seq<u8>>, mech: Seq<u8>) -> Seq<u8> {
    if is_special(mech) && mechs.contains(stripped(mech)) {
        stripped(mech)
    } else {
        mech
    }
}

/// Whether a mechanism is special; an absent one is not.
pub fn is_special_oid(mech: Option<&[u8]>) -> (r: bool)
    ensures
        r == (mech is Some && is_special(mech->Some_0@)),
{
    let prefix = GSSPROXY_INTERPOSER_OID;
    match mech {
        Some(m) => octets::starts_with(m, prefix.as_slice()),
        None => false,
    }
}

/// The special OID of a mechanism that is not special yet.
fn prefixed(mech: &[u8]) -> (r: Vec<u8>)
    ensures
        r@ == GSSPROXY_INTERPOSER_OID@ + mech@,
{
    let mut out = oids::interposer();
    xdr::append_bytes(&mut out, mech);
    out
}

/// Which descriptor an OID is handed out as.
#[derive(Debug, Clone, Copy, PartialEq, Eq, Structural)]
pub enum Descriptor {
    /// The one that was given.
    Given,
    /// The one of this entry of the registry.
    Entry(usize),
    /// None.
    Absent,
}

/// The mechanisms that were made special.
pub struct Registry {
    mechs: Vec<Vec<u8>>,
}

impl View for Registry {
    type V = Seq<Seq<u8>>;

    closed spec fn view(&self) -> Seq<Seq<u8>> {
        octets::views(self.mechs@)
    }
}

impl Registry {
    pub fn new() -> (r: Self)
        ensures
            r@ == Seq::<Seq<u8>>::empty(),
            well_formed(r@),
    {
        let r = Registry { mechs: Vec::new() };
        assert(r@ =~= Seq::empty());
        r
    }

    /// The number of entries.
    pub fn len(&self) -> (r: usize)
        ensures
            r == self@.len(),
    {
        self.mechs.len()
    }

    /// The regular OID of an entry.
    pub fn regular(&self, i: usize) -> (r: &[u8])
        requires
            i < self@.len(),
        ensures
            r@ == self@[i as int],
    {
        self.mechs[i].as_slice()
    }

    /// The special OID of an entry.
    pub fn special(&self, i: usize) -> (r: Vec<u8>)
        requires
            i < self@.len(),
        ensures
            r@ == GSSPROXY_INTERPOSER_OID@ + self@[i as int],
    {
        prefixed(self.mechs[i].as_slice())
    }

    fn position(&self, mech: &[u8]) -> (r: Option<usize>)
        ensures
            match r {
                Some(i) => i < self@.len() && self@[i as int] == mech@,
                None => !self@.contains(mech@),
            },
    {
        let mut i: usize = 0;
        while i < self.mechs.len()
            invariant
                i <= self.mechs@.len(),
                forall|j: int| 0 <= j < i ==> (#[trigger] self@[j]) != mech@,
            decreases self.mechs@.len() - i,
        {
            if octets::same(self.mechs[i].as_slice(), mech) {
                assert(self@[i as int] == mech@);
                return Some(i);
            }
            assert(self@[i as int] != mech@);
            i += 1;
        }
        None
    }

    /// The place of a regular mechanism, which is registered where it is new.
    fn place(&mut self, mech: &[u8]) -> (r: usize)
        requires
            well_formed(old(self)@),
            !is_special(mech@),
        ensures
            well_formed(final(self)@),
            final(self)@ == with_mech(old(self)@, mech@),
            r < final(self)@.len(),
            final(self)@[r as int] == mech@,
    {
        match self.position(mech) {
            Some(i) => {
                assert(self@.contains(mech@));
                i
            },
            None => {
                let ghost before = self@;
                let i: usize = self.mechs.len();
                self.mechs.push(octets::copy(mech));
                assert(self@ =~= before.push(mech@));
                assert forall|a: int, b: int| 0 <= a < self@.len() && 0 <= b < self@.len() && a != b
                    implies self@[a] != self@[b] by {
                    if a < before.len() {
                        assert(before.contains(before[a]));
                    }
                    if b < before.len() {
                        assert(before.contains(before[b]));
                    }
                }
                i
            },
        }
    }

    /// Map a mechanism to its special form, registering it where it is new. An
    /// absent mechanism means the first registered one.
    pub fn special_mech(&mut self, mech_type: Option<&[u8]>) -> (r: Descriptor)
        requires
            well_formed(old(self)@),
        ensures
            well_formed(final(self)@),
            match mech_type {
                None => {
                    &&& final(self)@ == old(self)@
                    &&& r == if old(self)@.len() > 0 {
                        Descriptor::Entry(0)
                    } else {
                        Descriptor::Absent
                    }
                },
                Some(m) => {
                    &&& final(self)@ == with_mech(old(self)@, m@)
                    &&& if is_special(m@) {
                        r == Descriptor::Given
                    } else {
                        r matches Descriptor::Entry(i) && i < final(self)@.len()
                            && final(self)@[i as int] == m@
                    }
                },
            },
    {
        match mech_type {
            None => {
                if self.mechs.len() > 0 {
                    Descriptor::Entry(0)
                } else {
                    Descriptor::Absent
                }
            },
            Some(m) => {
                if is_special_oid(mech_type) {
                    Descriptor::Given
                } else {
                    Descriptor::Entry(self.place(m))
                }
            },
        }
    }

    /// The bytes of the special form of a mechanism.
    pub fn special_bytes(&mut self, mech_type: Option<&[u8]>) -> (r: Option<Vec<u8>>)
        requires
            well_formed(old(self)@),
        ensures
            well_formed(final(self)@),
            match mech_type {
                None => {
                    &&& final(self)@ == old(self)@
                    &&& if old(self)@.len() > 0 {
                        r matches Some(b) && b@ == special_of(old(self)@[0])
                    } else {
                        r is None
                    }
                },
                Some(m) => {
                    &&& final(self)@ == with_mech(old(self)@, m@)
                    &&& r matches Some(b) && b@ == special_of(m@)
                },
            },
    {
        match self.special_mech(mech_type) {
            Descriptor::Given => match mech_type {
                Some(m) => Some(octets::copy(m)),
                None => None,
            },
            Descriptor::Entry(i) => Some(self.special(i)),
            Descriptor::Absent => None,
        }
    }

    /// Map a special mechanism back to its regular form; one that is not
    /// special, or not registered, is handed back.
    pub fn unspecial_mech(&self, mech_type: Option<&[u8]>) -> (r: Descriptor)
        requires
            well_formed(self@),
        ensures
            match r {
                Descriptor::Entry(i) => {
                    &&& i < self@.len()
                    &&& mech_type matches Some(m) && is_special(m@) && self@[i as int] == stripped(
                        m@,
                    ) && regular_of(self@, m@) == self@[i as int]
                },
                Descriptor::Given => mech_type matches Some(m) ==> regular_of(self@, m@) == m@ && !(
                is_special(m@) && self@.contains(stripped(m@))),
                Descriptor::Absent => false,
            },
    {
        match mech_type {
            Some(m) => {
                if !is_special_oid(mech_type) {
                    return Descriptor::Given;
                }
                let prefix = GSSPROXY_INTERPOSER_OID;
                let rest = vstd::slice::slice_subrange(m, prefix.as_slice().len(), m.len());
                assert(rest@ =~= stripped(m@));
                match self.position(rest) {
                    Some(i) => {
                        assert(self@.contains(stripped(m@)));
                        Descriptor::Entry(i)
                    },
                    None => Descriptor::Given,
                }
            },
            None => Descriptor::Given,
        }
    }

    /// The bytes of the regular form of a mechanism.
    pub fn unspecial_bytes(&self, mech_type: Option<&[u8]>) -> (r: Option<Vec<u8>>)
        requires
            well_formed(self@),
        ensures
            match mech_type {
                Some(m) => r matches Some(b) && b@ == regular_of(self@, m@),
                None => r is None,
            },
    {
        match self.unspecial_mech(mech_type) {
            Descriptor::Entry(i) => Some(octets::copy(self.mechs[i].as_slice())),
            _ => match mech_type {
                Some(m) => Some(octets::copy(m)),
                None => None,
            },
        }
    }

    /// Register every regular mechanism of a set.
    pub fn init_special_available_mechs(&mut self, mechs: &[Vec<u8>])
        requires
            well_formed(old(self)@),
        ensures
            well_formed(final(self)@),
            final(self)@ == with_mechs(old(self)@, octets::views(mechs@), mechs@.len() as int),
    {
        let ghost more = octets::views(mechs@);
        let mut i: usize = 0;
        while i < mechs.len()
            invariant
                i <= mechs@.len(),
                more == octets::views(mechs@),
                well_formed(self@),
                self@ == with_mechs(old(self)@, more, i as int),
            decreases mechs@.len() - i,
        {
            let m = mechs[i].as_slice();
            assert(more[i as int] == m@);
            if !is_special_oid(Some(m)) {
                self.place(m);
            }
            i += 1;
        }
    }

    /// The special forms of every mechanism of a set, registering new ones; an
    /// empty set has none.
    pub fn special_available_mechs(&mut self, mechs: &[Vec<u8>]) -> (r: Option<Vec<Vec<u8>>>)
        requires
            well_formed(old(self)@),
        ensures
            well_formed(final(self)@),
            final(self)@ == with_mechs(old(self)@, octets::views(mechs@), mechs@.len() as int),
            r is None <==> mechs@.len() == 0,
            r matches Some(out) ==> {
                &&& out@.len() == mechs@.len()
                &&& forall|i: int|
                    0 <= i < mechs@.len() ==> (#[trigger] out@[i])@ == special_of(mechs@[i]@)
            },
    {
        let ghost more = octets::views(mechs@);
        let mut out: Vec<Vec<u8>> = Vec::new();
        let mut i: usize = 0;
        while i < mechs.len()
            invariant
                i <= mechs@.len(),
                more == octets::views(mechs@),
                well_formed(self@),
                self@ == with_mechs(old(self)@, more, i as int),
                out@.len() == i,
                forall|j: int| 0 <= j < i ==> (#[trigger] out@[j])@ == special_of(mechs@[j]@),
            decreases mechs@.len() - i,
        {
            let m = mechs[i].as_slice();
            assert(more[i as int] == m@);
            match self.special_bytes(Some(m)) {
                Some(sp) => {
                    out.push(sp);
                },
                None => {},
            }
            i += 1;
        }
        if out.len() == 0 {
            None
        } else {
            Some(out)
        }
    }
}

/// A descriptor is the regular or the special one of an entry, the entries'
/// descriptors being given by their addresses.
pub open spec fn is_registered(addresses: Seq<(usize, usize)>, oid: usize) -> bool {
    exists|i: int|
        0 <= i < addresses.len() && ((#[trigger] addresses[i]).0 == oid || addresses[i].1 == oid)
}

/// Whether a descriptor is one of the registry's, by identity.
pub fn is_registered_ptr(addresses: &[(usize, usize)], oid: usize) -> (r: bool)
    ensures
        r == is_registered(addresses@, oid),
{
    let mut i: usize = 0;
    while i < addresses.len()
        invariant
            i <= addresses@.len(),
            forall|j: int|
                0 <= j < i ==> (#[trigger] addresses@[j]).0 != oid && addresses@[j].1 != oid,
        decreases addresses@.len() - i,
    {
        if addresses[i].0 == oid || addresses[i].1 == oid {
            assert(addresses@[i as int].0 == oid || addresses@[i as int].1 == oid);
            return true;
        }
        i += 1;
    }
    false
}

/// Whether an OID that the mechglue wants released is the interposer's: the
/// interposer's own descriptor or one of the registry's. Then it is complete,
/// and the caller forgets the OID; otherwise the mechglue looks on.
pub fn gssi_internal_release_oid(
    oid: Option<usize>,
    interposer: usize,
    addresses: &[(usize, usize)],
) -> (r: u32)
    ensures
        r == match oid {
            Some(cur) => if cur == interposer || is_registered(addresses@, cur) {
                GSS_S_COMPLETE
            } else {
                GSS_S_CONTINUE_NEEDED
            },
            None => GSS_S_CONTINUE_NEEDED,
        },
{
    match oid {
        Some(cur) => {
            if cur == interposer || is_registered_ptr(addresses, cur) {
                GSS_S_COMPLETE
            } else {
                GSS_S_CONTINUE_NEEDED
            }
        },
        None => GSS_S_CONTINUE_NEEDED,
    }
}

// ---- laws ----

/// The special form of any mechanism is special, and is its own special form.
pub proof fn special_form_is_special(mech: Seq<u8>)
    ensures
        is_special(special_of(mech)),
        special_of(special_of(mech)) == special_of(mech),
{
    assert(GSSPROXY_INTERPOSER_OID@.is_prefix_of(GSSPROXY_INTERPOSER_OID@ + mech));
}

/// A regular mechanism that was made special strips back to itself, however the
/// registry has grown since.
pub proof fn special_strips_back(mechs: Seq<Seq<u8>>, later: Seq<Seq<u8>>, mech: Seq<u8>)
    requires
        !is_special(mech),
        with_mech(mechs, mech).is_prefix_of(later),
    ensures
        regular_of(later, special_of(mech)) == mech,
{
    special_form_is_special(mech);
    assert(stripped(GSSPROXY_INTERPOSER_OID@ + mech) =~= mech);
    let now = with_mech(mechs, mech);
    assert(now.contains(mech)) by {
        if !mechs.contains(mech) {
            assert(now[now.len() - 1] == mech);
        }
    }
    let i = choose|i: int| 0 <= i < now.len() && now[i] == mech;
    assert(later[i] == mech);
}

/// The bytes of any mechanism survive being made special and regular again,
/// but for a special one whose regular form is registered.
pub proof fn special_keeps_bytes(mechs: Seq<Seq<u8>>, mech: Seq<u8>)
    requires
        !(is_special(mech) && mechs.contains(stripped(mech))),
    ensures
        regular_of(with_mech(mechs, mech), special_of(mech)) == mech,
{
    if !is_special(mech) {
        special_strips_back(mechs, with_mech(mechs, mech), mech);
    }
}

/// Different regular mechanisms have different special forms.
pub proof fn specials_are_distinct(a: Seq<u8>, b: Seq<u8>)
    requires
        !is_special(a),
        !is_special(b),
        special_of(a) == special_of(b),
    ensures
        a == b,
{
    assert(stripped(GSSPROXY_INTERPOSER_OID@ + a) =~= a);
    assert(stripped(GSSPROXY_INTERPOSER_OID@ + b) =~= b);
}

/// The registry only grows, and a mechanism is registered once: looking it up
/// again changes nothing, and it keeps its place.
pub proof fn registry_only_grows(mechs: Seq<Seq<u8>>, mech: Seq<u8>, other: Seq<u8>)
    ensures
        mechs.is_prefix_of(with_mech(mechs, mech)),
        with_mech(with_mech(mechs, mech), mech) == with_mech(mechs, mech),
        well_formed(mechs) ==> well_formed(with_mech(mechs, mech)),
        mechs.contains(other) ==> with_mech(mechs, mech).contains(other),
{
    let now = with_mech(mechs, mech);
    if !is_special(mech) && !mechs.contains(mech) {
        assert(now[now.len() - 1] == mech);
        if mechs.contains(other) {
            let i = choose|i: int| 0 <= i < mechs.len() && mechs[i] == other;
            assert(now[i] == other);
        }
        if well_formed(mechs) {
            assert forall|a: int, b: int| 0 <= a < now.len() && 0 <= b < now.len() && a != b implies
                now[a] != now[b] by {
                if a < mechs.len() {
                    assert(mechs.contains(mechs[a]));
                }
                if b < mechs.len() {
                    assert(mechs.contains(mechs[b]));
                }
            }
        }
    }
}

} // verus!
