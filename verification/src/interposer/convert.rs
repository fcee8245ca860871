//! Conversions between what the mechglue hands over and what the daemon is sent.

use vstd::prelude::*;

use crate::server::config;
use crate::consts::{
    KRB5_NT_PRINCIPAL_NAME_OID, NT_ANONYMOUS_OID, NT_COMPOSITE_EXPORT_OID, NT_EXPORT_NAME_OID,
    NT_HOSTBASED_SERVICE_OID, NT_HOSTBASED_SERVICE_X_OID, NT_MACHINE_UID_NAME_OID,
    NT_STRING_UID_NAME_OID, NT_USER_NAME_OID,
};
use crate::gssx::{GssxCb, GssxCred, Opaque};
use crate::octets;

verus! {

// ---- interned OIDs ----

/// The OIDs that were handed out with a descriptor that stays valid. The place
/// of an OID in the table names its descriptor.
pub struct OidTable {
    oids: Vec<Vec<u8>>,
}

impl View for OidTable {
    type V = Seq<Seq<u8>>;

    closed spec fn view(&self) -> Seq<Seq<u8>> {
        octets::views(self.oids@)
    }
}

impl OidTable {
    pub fn new() -> (r: Self)
        ensures
            r@ == Seq::<Seq<u8>>::empty(),
            r@.no_duplicates(),
    {
        let r = OidTable { oids: Vec::new() };
        assert(r@ =~= Seq::empty());
        r
    }

    /// The OID at a place.
    pub fn oid(&self, i: usize) -> (r: &[u8])
        requires
            i < self@.len(),
        ensures
            r@ == self@[i as int],
    {
        self.oids[i].as_slice()
    }
}

/// The table with an OID in it.
pub open spec fn interned(table: Seq<Seq<u8>>, oid: Seq<u8>) -> Seq<Seq<u8>> {
    if table.contains(oid) {
        table
    } else {
        table.push(oid)
    }
}

/// The place of an OID, which is put into the table on first use.
pub fn intern_oid(table: &mut OidTable, bytes: &[u8]) -> (r: usize)
    requires
        old(table)@.no_duplicates(),
    ensures
        final(table)@.no_duplicates(),
        final(table)@ == interned(old(table)@, bytes@),
        r < final(table)@.len(),
        final(table)@[r as int] == bytes@,
{
    let mut i: usize = 0;
    let n: usize = table.oids.len();
    while i < n
        invariant
            n == table.oids@.len(),
            i <= n,
            table@ == old(table)@,
            old(table)@.no_duplicates(),
            forall|j: int| 0 <= j < i ==> (#[trigger] table@[j]) != bytes@,
        decreases n - i,
    {
        if octets::same(table.oids[i].as_slice(), bytes) {
            assert(table@[i as int] == bytes@);
            assert(table@.contains(bytes@));
            return i;
        }
        assert(table@[i as int] != bytes@);
        i += 1;
    }
    let ghost before = table@;
    assert(!before.contains(bytes@));
    table.oids.push(octets::copy(bytes));
    assert(table@ =~= before.push(bytes@));
    n
}

/// Interning an OID again finds the same place, also after others were
/// interned, and different OIDs have different places.
pub proof fn interned_places_are_stable(
    table: Seq<Seq<u8>>,
    i: int,
    oid: Seq<u8>,
    other: Seq<u8>,
    j: int,
)
    requires
        table.no_duplicates(),
        0 <= i < table.len(),
        table[i] == oid,
        0 <= j < interned(table, other).len(),
        interned(table, other)[j] == oid,
    ensures
        j == i,
        other != oid ==> forall|k: int|
            0 <= k < interned(table, other).len() && (#[trigger] interned(table, other)[k]) == other
                ==> k != i,
{
    let after = interned(table, other);
    if !table.contains(other) {
        if j == table.len() {
            assert(table.contains(table[i]));
        }
    }
}

/// The name types that are handed out.
pub open spec fn is_known_name_type(oid: Seq<u8>) -> bool {
    ||| oid == NT_USER_NAME_OID@
    ||| oid == NT_MACHINE_UID_NAME_OID@
    ||| oid == NT_STRING_UID_NAME_OID@
    ||| oid == NT_HOSTBASED_SERVICE_X_OID@
    ||| oid == NT_HOSTBASED_SERVICE_OID@
    ||| oid == NT_ANONYMOUS_OID@
    ||| oid == NT_EXPORT_NAME_OID@
    ||| oid == NT_COMPOSITE_EXPORT_OID@
    ||| oid == KRB5_NT_PRINCIPAL_NAME_OID@
}

/// Whether a name type is one that is handed out.
pub fn known_name_type(bytes: &[u8]) -> (r: bool)
    ensures
        r == is_known_name_type(bytes@),
{
    let user = NT_USER_NAME_OID;
    let machine = NT_MACHINE_UID_NAME_OID;
    let string = NT_STRING_UID_NAME_OID;
    let service_x = NT_HOSTBASED_SERVICE_X_OID;
    let service = NT_HOSTBASED_SERVICE_OID;
    let anonymous = NT_ANONYMOUS_OID;
    let export = NT_EXPORT_NAME_OID;
    let composite = NT_COMPOSITE_EXPORT_OID;
    let principal = KRB5_NT_PRINCIPAL_NAME_OID;
    octets::same(bytes, user.as_slice()) || octets::same(bytes, machine.as_slice())
        || octets::same(bytes, string.as_slice()) || octets::same(bytes, service_x.as_slice())
        || octets::same(bytes, service.as_slice()) || octets::same(bytes, anonymous.as_slice())
        || octets::same(bytes, export.as_slice()) || octets::same(bytes, composite.as_slice())
        || octets::same(bytes, principal.as_slice())
}

/// The place of a known name type; another name type has none, and is not
/// interned.
pub fn name_type_static(table: &mut OidTable, bytes: &[u8]) -> (r: Option<usize>)
    requires
        old(table)@.no_duplicates(),
    ensures
        final(table)@.no_duplicates(),
        if is_known_name_type(bytes@) {
            &&& final(table)@ == interned(old(table)@, bytes@)
            &&& r matches Some(i) && i < final(table)@.len() && final(table)@[i as int] == bytes@
        } else {
            final(table)@ == old(table)@ && r is None
        },
{
    if known_name_type(bytes) {
        Some(intern_oid(table, bytes))
    } else {
        None
    }
}

// ---- channel bindings ----

/// Channel bindings; an absent buffer is empty.
#[derive(Debug)]
pub struct ChannelBindings {
    pub initiator_addrtype: u32,
    pub initiator_address: Vec<u8>,
    pub acceptor_addrtype: u32,
    pub acceptor_address: Vec<u8>,
    pub application_data: Vec<u8>,
}

/// Channel bindings as they are sent.
pub fn cb_to_gssx(cb: Option<ChannelBindings>) -> (r: Option<GssxCb>)
    ensures
        match cb {
            None => r is None,
            Some(c) => r matches Some(g) && {
                &&& g.initiator_addrtype == c.initiator_addrtype
                &&& g.initiator_address@ == c.initiator_address@
                &&& g.acceptor_addrtype == c.acceptor_addrtype
                &&& g.acceptor_address@ == c.acceptor_address@
                &&& g.application_data@ == c.application_data@
            },
        },
{
    match cb {
        None => None,
        Some(c) => Some(
            GssxCb {
                initiator_addrtype: c.initiator_addrtype as u64,
                initiator_address: Opaque::new(c.initiator_address),
                acceptor_addrtype: c.acceptor_addrtype as u64,
                acceptor_address: Opaque::new(c.acceptor_address),
                application_data: Opaque::new(c.application_data),
            },
        ),
    }
}

// ---- credentials ----

/// The mechanisms of the elements of a credential, in order.
pub open spec fn element_mechs(cred: GssxCred) -> Seq<Seq<u8>> {
    Seq::new(cred.elements@.len(), |i: int| cred.elements@[i].mech@)
}

/// The mechanisms that a credential was acquired for; none where it has no
/// elements.
pub fn actual_mechs(cred: Option<&GssxCred>) -> (r: Option<Vec<Vec<u8>>>)
    ensures
        match cred {
            Some(c) => if c.elements@.len() > 0 {
                r matches Some(m) && octets::views(m@) == element_mechs(*c)
            } else {
                r is None
            },
            None => r is None,
        },
{
    match cred {
        None => None,
        Some(c) => {
            if c.elements.len() == 0 {
                return None;
            }
            let mut out: Vec<Vec<u8>> = Vec::new();
            let mut i: usize = 0;
            while i < c.elements.len()
                invariant
                    i <= c.elements@.len(),
                    out@.len() == i,
                    forall|j: int| 0 <= j < i ==> (#[trigger] out@[j])@ == c.elements@[j].mech@,
                decreases c.elements@.len() - i,
            {
                out.push(octets::copy(c.elements[i].mech.as_slice()));
                i += 1;
            }
            assert(octets::views(out@) =~= element_mechs(*c));
            Some(out)
        },
    }
}

/// The `ccache` entry of a credential store: the first one.
pub fn ccache_from_store(store: &Vec<(String, String)>) -> (r: Option<String>)
    ensures
        config::opt_view(r) == config::lookup(config::props_view(store@), "ccache"@),
{
    match config::get(store, "ccache") {
        Some(v) => Some(v.as_str().to_owned()),
        None => None,
    }
}

} // verus!
