//! Acquiring credentials for a service.

use vstd::prelude::*;

use crate::consts::{
    EACCES, EINVAL, ENOMEM, ENOSYS, GSS_C_ACCEPT, GSS_C_BOTH, GSS_C_INITIATE,
    GSS_S_CREDENTIALS_EXPIRED, GSS_S_CRED_UNAVAIL, GSS_S_DEFECTIVE_CREDENTIAL, GSS_S_FAILURE, GSS_S_NO_CRED, KRB5_MECH_OID,
    KRB5_NT_PRINCIPAL_NAME_OID, NT_MACHINE_UID_NAME_OID, NT_STRING_UID_NAME_OID,
};
use crate::gssapi::seal::CredHandle;
use crate::gssx::GssxName;
use crate::octets;
use crate::server::config;
use crate::server::config::{Service, ServiceModel, GP_CRED_KRB5};
use crate::server::conv;
use crate::server::conv::NameImport;
use crate::text;

verus! {

/// How a credential is acquired.
#[derive(Debug, Clone, Copy, PartialEq, Eq, Structural)]
pub enum AcquireType {
    Normal,
    ImpName,
}

/// The major and the minor status of a failed acquisition.
#[derive(Debug, Clone, Copy, PartialEq, Eq, Structural)]
pub struct AcqError {
    pub major: u32,
    pub minor: u32,
}

// ---- sealing keys ----

/// The sealing keys of the services, by name.
pub struct CredsRegistry {
    handles: Vec<(String, CredHandle)>,
}

/// What a registry holds: the names, with the handles.
pub open spec fn handles_view(s: Seq<(String, CredHandle)>) -> Seq<(Seq<char>, CredHandle)> {
    Seq::new(s.len(), |i: int| (s[i].0@, s[i].1))
}

/// A name is in a registry.
pub open spec fn holds(entries: Seq<(Seq<char>, CredHandle)>, name: Seq<char>) -> bool {
    exists|i: int| 0 <= i < entries.len() && (#[trigger] entries[i]).0 == name
}

/// No name is in a registry twice.
pub open spec fn names_once(entries: Seq<(Seq<char>, CredHandle)>) -> bool {
    forall|i: int, j: int|
        0 <= i < j < entries.len() ==> (#[trigger] entries[i]).0 != (#[trigger] entries[j]).0
}

impl View for CredsRegistry {
    type V = Seq<(Seq<char>, CredHandle)>;

    closed spec fn view(&self) -> Seq<(Seq<char>, CredHandle)> {
        handles_view(self.handles@)
    }
}

impl CredsRegistry {
    pub fn new() -> (r: CredsRegistry)
        ensures
            r@.len() == 0,
            names_once(r@),
    {
        CredsRegistry { handles: Vec::new() }
    }

    fn position(&self, name: &str) -> (r: Option<usize>)
        ensures
            match r {
                Some(i) => i < self@.len() && self@[i as int].0 == name@,
                None => !holds(self@, name@),
            },
    {
        let mut i: usize = 0;
        while i < self.handles.len()
            invariant
                i <= self.handles@.len(),
                forall|j: int| 0 <= j < i ==> (#[trigger] self@[j]).0 != name@,
            decreases self.handles@.len() - i,
        {
            if text::same(self.handles[i].0.as_str(), name) {
                assert(self@[i as int].0 == name@);
                return Some(i);
            }
            assert(self@[i as int].0 != name@);
            i += 1;
        }
        None
    }

    /// The key of a service, where it is there already.
    pub fn find(&self, svc: &Service) -> (r: Option<&CredHandle>)
        ensures
            match r {
                Some(h) => exists|i: int|
                    0 <= i < self@.len() && (#[trigger] self@[i]) == (svc@.name, *h),
                None => !holds(self@, svc@.name),
            },
    {
        match self.position(svc.name.as_str()) {
            Some(i) => {
                let h = &self.handles[i].1;
                assert(self@[i as int] == (svc@.name, *h));
                Some(h)
            },
            None => None,
        }
    }

    /// The key of a service: the one that is there, and otherwise the one that
    /// was derived for it, if any, which is then kept.
    pub fn get_or_init(&mut self, svc: &Service, derived: Option<CredHandle>) -> (r: bool)
        requires
            names_once(old(self)@),
        ensures
            names_once(final(self)@),
            r == (holds(old(self)@, svc@.name) || derived is Some),
            final(self)@ == match derived {
                Some(h) => if holds(old(self)@, svc@.name) {
                    old(self)@
                } else {
                    old(self)@.push((svc@.name, h))
                },
                None => old(self)@,
            },
    {
        match self.position(svc.name.as_str()) {
            Some(i) => {
                assert(self@[i as int].0 == svc@.name);
                true
            },
            None => match derived {
                Some(h) => {
                    let ghost before = self@;
                    self.handles.push((svc.name.as_str().to_owned(), h));
                    assert(self@ =~= before.push((svc@.name, h)));
                    true
                },
                None => false,
            },
        }
    }
}

/// The keytab that the sealing key of a service is taken from, if it has one.
pub fn service_keytab(svc: &Service) -> (r: Option<String>)
    ensures
        config::opt_view(r) == config::lookup(svc@.krb5_store, "keytab"@),
{
    match config::get(&svc.krb5_store, "keytab") {
        Some(v) => Some(v.as_str().to_owned()),
        None => None,
    }
}

// ---- rules ----

/// Whether a service permits a mechanism: only krb5, where it has that.
pub fn allowed_mech(svc: &Service, mech: &[u8]) -> (r: bool)
    ensures
        r == (svc.mechs & GP_CRED_KRB5 != 0 && mech@ == KRB5_MECH_OID@),
{
    let krb5 = KRB5_MECH_OID;
    (svc.mechs & GP_CRED_KRB5) != 0 && octets::same(mech, krb5.as_slice())
}

/// Acquiring would mean to impersonate.
pub open spec fn impersonates(svc: ServiceModel, usage: i32, acquire_type: AcquireType) -> bool {
    ||| acquire_type is ImpName && (svc.allow_proto_trans || svc.trusted)
    ||| svc.impersonate && (usage == GSS_C_INITIATE || usage == GSS_C_BOTH)
}

/// Whether acquiring would mean to impersonate.
pub fn try_impersonate(svc: &Service, cred_usage: i32, acquire_type: AcquireType) -> (r: bool)
    ensures
        r == impersonates(svc@, cred_usage, acquire_type),
{
    let for_name = match acquire_type {
        AcquireType::ImpName => true,
        AcquireType::Normal => false,
    };
    if for_name && (svc.allow_proto_trans || svc.trusted) {
        return true;
    }
    svc.impersonate && (cred_usage == GSS_C_INITIATE || cred_usage == GSS_C_BOTH)
}

// ---- formatted values ----

/// A configured value with its escapes expanded: `%U` is the uid, `%u` the name of
/// the user, and `%%` a percent sign. Any other escape, and a user without a name,
/// leave nothing.
pub open spec fn formatted(orig: Seq<char>, uid: u32, username: Option<Seq<char>>) -> Option<
    Seq<char>,
>
    decreases orig.len(),
{
    if orig.len() == 0 {
        Some(Seq::empty())
    } else if orig[0] != '%' {
        match formatted(orig.skip(1), uid, username) {
            Some(rest) => Some(seq![orig[0]] + rest),
            None => None,
        }
    } else if orig.len() == 1 {
        None
    } else {
        let expansion = if orig[1] == '%' {
            Some(seq!['%'])
        } else if orig[1] == 'U' {
            Some(text::decimal(uid as nat))
        } else if orig[1] == 'u' {
            username
        } else {
            None
        };
        match (expansion, formatted(orig.skip(2), uid, username)) {
            (Some(e), Some(rest)) => Some(e + rest),
            _ => None,
        }
    }
}

/// What remains to be formatted is put behind what is there.
pub open spec fn behind(before: Seq<char>, rest: Option<Seq<char>>) -> Option<Seq<char>> {
    match rest {
        Some(r) => Some(before + r),
        None => None,
    }
}

/// Expand the escapes in a configured value.
pub fn get_formatted_string(orig: &str, target_uid: u32, username: Option<&str>) -> (r: Option<
    String,
>)
    ensures
        config::opt_view(r) == formatted(orig@, target_uid, config::peer_view(username)),
{
    let chars = text::chars_of(orig);
    let ghost user = config::peer_view(username);
    let mut out: String = "".to_owned();
    let mut i: usize = 0;
    let n: usize = chars.len();
    proof {
        reveal_strlit("");
        assert(out@ =~= Seq::empty());
        assert(chars@.skip(0) =~= chars@);
        lemma_behind_nothing(formatted(orig@, target_uid, user));
    }
    while i < n
        invariant
            i <= n,
            n == chars@.len(),
            chars@ == orig@,
            user == config::peer_view(username),
            formatted(orig@, target_uid, user) == behind(
                out@,
                formatted(chars@.skip(i as int), target_uid, user),
            ),
        decreases n - i,
    {
        let ghost rest = chars@.skip(i as int);
        let ghost before = out@;
        assert(rest[0] == chars@[i as int]);
        let c = chars[i];
        if c != '%' {
            out.push(c);
            i += 1;
            proof {
                assert(rest.skip(1) =~= chars@.skip(i as int));
                lemma_behind(before, seq![c], formatted(chars@.skip(i as int), target_uid, user));
                assert(before + seq![c] =~= out@);
            }
            continue ;
        }
        if n - i < 2 {
            return None;
        }
        assert(rest[1] == chars@[i + 1]);
        let e = chars[i + 1];
        if e == '%' {
            out.push('%');
            assert(before + seq!['%'] =~= out@);
        } else if e == 'U' {
            text::push_decimal(&mut out, target_uid as u64);
        } else if e == 'u' {
            match username {
                Some(u) => {
                    out.push_str(u);
                },
                None => {
                    return None;
                },
            }
        } else {
            return None;
        }
        i += 2;
        proof {
            assert(rest.skip(2) =~= chars@.skip(i as int));
            let added = out@.skip(before.len() as int);
            assert(out@ =~= before + added);
            if e == '%' {
                assert(added =~= seq!['%']);
            } else if e == 'U' {
                assert(added =~= text::decimal(target_uid as nat));
            } else {
                assert(added =~= user->Some_0);
            }
            lemma_behind(before, added, formatted(chars@.skip(i as int), target_uid, user));
        }
    }
    proof {
        assert(chars@.skip(n as int) =~= Seq::empty());
        assert(out@ + Seq::<char>::empty() =~= out@);
    }
    Some(out)
}

proof fn lemma_behind(before: Seq<char>, added: Seq<char>, rest: Option<Seq<char>>)
    ensures
        behind(
            before,
            match rest {
                Some(r) => Some(added + r),
                None => None,
            },
        ) == behind(before + added, rest),
{
    match rest {
        Some(r) => {
            assert(before + (added + r) =~= before + added + r);
        },
        None => {},
    }
}

proof fn lemma_behind_nothing(rest: Option<Seq<char>>)
    ensures
        behind(Seq::empty(), rest) == rest,
{
    match rest {
        Some(r) => {
            assert(Seq::empty() + r =~= r);
        },
        None => {},
    }
}

/// A value without a percent sign is formatted as it is.
pub proof fn plain_value_is_kept(v: Seq<char>, uid: u32, username: Option<Seq<char>>)
    requires
        forall|i: int| 0 <= i < v.len() ==> v[i] != '%',
    ensures
        formatted(v, uid, username) == Some(v),
    decreases v.len(),
{
    if v.len() > 0 {
        plain_value_is_kept(v.skip(1), uid, username);
        assert(seq![v[0]] + v.skip(1) =~= v);
    } else {
        assert(v =~= Seq::empty());
    }
}

// ---- uids ----

/// The number that the digits in front of a text make, modulo the word size,
/// continuing one that was read so far.
pub open spec fn digits(v: u32, s: Seq<u8>) -> u32
    decreases s.len(),
{
    if s.len() > 0 && 0x30 <= s[0] <= 0x39 {
        digits(((v * 10 + (s[0] - 0x30)) % 0x1_0000_0000) as u32, s.skip(1))
    } else {
        v
    }
}

/// The number at the beginning of a text, behind blanks: it ends at the first byte
/// that is no digit.
pub open spec fn leading_number(s: Seq<u8>) -> u32
    decreases s.len(),
{
    if s.len() > 0 && (s[0] == 0x20 || s[0] == 0x09) {
        leading_number(s.skip(1))
    } else {
        digits(0, s)
    }
}

/// The uid at the beginning of a name.
pub fn parse_leading_uid(s: &[u8]) -> (r: u32)
    ensures
        r == leading_number(s@),
{
    let mut i: usize = 0;
    assert(s@.skip(0) =~= s@);
    while i < s.len() && (s[i] == 0x20 || s[i] == 0x09)
        invariant
            i <= s@.len(),
            leading_number(s@) == leading_number(s@.skip(i as int)),
        decreases s@.len() - i,
    {
        assert(s@.skip(i as int)[0] == s@[i as int]);
        assert(s@.skip(i as int).skip(1) =~= s@.skip(i + 1));
        i += 1;
    }
    if i < s.len() {
        assert(s@.skip(i as int)[0] == s@[i as int]);
    }
    let mut v: u32 = 0;
    while i < s.len() && 0x30 <= s[i] && s[i] <= 0x39
        invariant
            i <= s@.len(),
            leading_number(s@) == digits(v, s@.skip(i as int)),
        decreases s@.len() - i,
    {
        assert(s@.skip(i as int)[0] == s@[i as int]);
        assert(s@.skip(i as int).skip(1) =~= s@.skip(i + 1));
        let wide: u64 = v as u64 * 10 + (s[i] - 0x30) as u64;
        v = (wide % 0x1_0000_0000) as u32;
        i += 1;
    }
    if i < s.len() {
        assert(s@.skip(i as int)[0] == s@[i as int]);
    }
    v
}

// ---- the environment of an acquisition ----

/// The usage that a credential is acquired for: a service that is for one usage
/// decides where both are asked for, and refuses the other.
pub open spec fn agreed_usage(svc_usage: i32, usage: i32) -> Option<i32> {
    if svc_usage == GSS_C_BOTH {
        Some(usage)
    } else if usage == GSS_C_BOTH {
        Some(svc_usage)
    } else if svc_usage == usage {
        Some(usage)
    } else {
        None
    }
}

/// The desired name is a uid, and the service may ask for it.
pub open spec fn names_a_uid(svc: ServiceModel, uid: u32, desired: Option<GssxName>) -> bool {
    &&& desired is Some
    &&& svc.trusted
    &&& svc.euid == uid
    &&& desired->Some_0.name_type@ == NT_STRING_UID_NAME_OID@
        || desired->Some_0.name_type@ == NT_MACHINE_UID_NAME_OID@
}

/// The user that a credential is for: the caller, or the one that is asked for.
pub open spec fn target(svc: ServiceModel, uid: u32, desired: Option<GssxName>) -> u32 {
    if names_a_uid(svc, uid, desired) {
        leading_number(desired->Some_0.display_name@)
    } else {
        uid
    }
}

/// The service acts for itself: it asks for a name of its own, or for none and is
/// trusted.
pub open spec fn uses_service_keytab(
    svc: ServiceModel,
    uid: u32,
    desired: Option<GssxName>,
) -> bool {
    match desired {
        Some(_) => svc.euid == uid && !names_a_uid(svc, uid, desired),
        None => svc.trusted && svc.euid == uid,
    }
}

/// What is to be done for an acquisition, before the credential store is made.
pub struct EnvPlan {
    /// The name to import, if any.
    pub name: Option<NameImport>,
    pub usage: i32,
    pub target_uid: u32,
    pub service_keytab: bool,
}

/// A name to import is a krb5 principal, with its terminating NUL.
pub open spec fn is_principal(n: NameImport, principal: Seq<char>) -> bool {
    &&& n.value@ == vstd::utf8::encode_utf8(principal).push(0)
    &&& n.name_type matches Some(t) && t@ == KRB5_NT_PRINCIPAL_NAME_OID@
}

/// A name to import is a name on the wire.
pub open spec fn is_wire_name(n: NameImport, g: GssxName) -> bool {
    if g.display_name@.len() > 0 {
        &&& n.value@ == g.display_name@
        &&& if g.name_type@.len() > 0 {
            n.name_type matches Some(t) && t@ == g.name_type@
        } else {
            n.name_type is None
        }
    } else {
        &&& n.value@ == g.exported_name@
        &&& n.name_type matches Some(t) && t@ == crate::consts::NT_EXPORT_NAME_OID@
    }
}

/// Plan an acquisition for a caller. A usage that the service is not for is
/// refused. The name is the desired one, unless that is a uid, and where none is
/// desired the principal of a service that acts for itself.
pub fn plan_environment(uid: u32, svc: &Service, desired: Option<&GssxName>, cred_usage: i32) -> (r:
    Result<EnvPlan, i32>)
    ensures
        ({
            let dn = crate::interposer::handle::by_value(desired);
            match agreed_usage(svc.cred_usage, cred_usage) {
                None => r == Err::<EnvPlan, i32>(EACCES),
                Some(usage) => r matches Ok(plan) && {
                    &&& plan.usage == usage
                    &&& plan.target_uid == target(svc@, uid, dn)
                    &&& plan.service_keytab == uses_service_keytab(svc@, uid, dn)
                    &&& match dn {
                        Some(g) => if names_a_uid(svc@, uid, dn) {
                            plan.name is None
                        } else {
                            plan.name matches Some(n) && is_wire_name(n, g)
                        },
                        None => match (plan.service_keytab, svc@.krb5_principal) {
                            (true, Some(p)) => plan.name matches Some(n) && is_principal(n, p),
                            _ => plan.name is None,
                        },
                    }
                },
            }
        }),
{
    let mut usage: i32 = cred_usage;
    if svc.cred_usage != GSS_C_BOTH {
        if usage == GSS_C_BOTH {
            usage = svc.cred_usage;
        } else if svc.cred_usage != usage {
            return Err(EACCES);
        }
    }
    let own = svc.euid == uid;
    match desired {
        Some(g) => {
            let by_name = NT_STRING_UID_NAME_OID;
            let by_number = NT_MACHINE_UID_NAME_OID;
            if svc.trusted && own && (octets::same(g.name_type.as_slice(), by_name.as_slice())
                || octets::same(g.name_type.as_slice(), by_number.as_slice())) {
                let target_uid: u32 = parse_leading_uid(g.display_name.as_slice());
                return Ok(EnvPlan { name: None, usage, target_uid, service_keytab: false });
            }
            let name = conv::gssx_to_name(g);
            Ok(EnvPlan { name: Some(name), usage, target_uid: uid, service_keytab: own })
        },
        None => {
            let service_keytab = svc.trusted && own;
            let mut name: Option<NameImport> = None;
            if service_keytab {
                match &svc.krb5_principal {
                    Some(p) => {
                        let mut value = octets::copy(p.as_str().as_bytes());
                        value.push(0);
                        let kind = KRB5_NT_PRINCIPAL_NAME_OID;
                        name = Some(
                            NameImport {
                                value,
                                name_type: Some(octets::copy(kind.as_slice())),
                            },
                        );
                    },
                    None => {},
                }
            }
            Ok(EnvPlan { name, usage, target_uid: uid, service_keytab })
        },
    }
}

/// The first `n` entries of a credential store, with their values formatted.
pub open spec fn formatted_store(
    store: config::Props,
    uid: u32,
    username: Option<Seq<char>>,
    n: int,
) -> Option<config::Props>
    decreases n,
{
    if n <= 0 {
        Some(Seq::empty())
    } else {
        match (
            formatted_store(store, uid, username, n - 1),
            formatted(store[n - 1].1, uid, username),
        ) {
            (Some(before), Some(v)) => Some(before.push((store[n - 1].0, v))),
            _ => None,
        }
    }
}

/// The place of the last entry with a key among the first `n`.
pub open spec fn last_of(store: config::Props, key: Seq<char>, n: int) -> Option<int>
    decreases n,
{
    if n <= 0 {
        None
    } else if store[n - 1].0 == key {
        Some(n - 1)
    } else {
        last_of(store, key, n - 1)
    }
}

/// The name of the cache that a thread has to itself.
pub open spec fn private_ccache(tid: u64) -> Seq<char> {
    "MEMORY:internal_"@ + text::decimal(tid as nat)
}

/// A credential store that has a cache of its own where none is configured.
pub open spec fn segregated(store: config::Props, configured: bool, tid: u64) -> config::Props {
    if configured {
        store
    } else {
        store.push(("ccache"@, private_ccache(tid)))
    }
}

/// The credential store of an acquisition: the configured one, with its values
/// formatted.
///
/// A service that acts for itself uses its keytab also as its client keytab; it
/// must have one, or else a client keytab, and then the store is as configured.
pub open spec fn env_store(
    store: config::Props,
    uid: u32,
    username: Option<Seq<char>>,
    service_keytab: bool,
    tid: u64,
) -> Result<config::Props, i32> {
    let n = store.len() as int;
    if n == 0 {
        Ok(Seq::empty())
    } else {
        match formatted_store(store, uid, username, n) {
            None => Err(ENOMEM),
            Some(f) => {
                let configured = last_of(store, "ccache"@, n) is Some;
                if !service_keytab {
                    Ok(segregated(f, configured, tid))
                } else {
                    match (last_of(store, "keytab"@, n), last_of(store, "client_keytab"@, n)) {
                        (Some(k), Some(ck)) => Ok(
                            segregated(f.update(ck, (f[ck].0, f[k].1)), configured, tid),
                        ),
                        (Some(k), None) => Ok(
                            segregated(f.push(("client_keytab"@, f[k].1)), configured, tid),
                        ),
                        (None, Some(_)) => Ok(f),
                        (None, None) => Err(EINVAL),
                    }
                }
            },
        }
    }
}

proof fn lemma_formatted_len(
    store: config::Props,
    uid: u32,
    username: Option<Seq<char>>,
    n: int,
    k: int,
)
    requires
        0 <= n <= store.len(),
    ensures
        formatted_store(store, uid, username, n) matches Some(f) ==> f.len() == n && (0 <= k < n
            ==> f[k].0 == store[k].0),
    decreases n,
{
    if n > 0 {
        lemma_formatted_len(store, uid, username, n - 1, k);
    }
}

proof fn lemma_formatted_none(
    store: config::Props,
    uid: u32,
    username: Option<Seq<char>>,
    k: int,
    n: int,
)
    requires
        0 <= k <= n <= store.len(),
        formatted_store(store, uid, username, k) is None,
    ensures
        formatted_store(store, uid, username, n) is None,
    decreases n,
{
    if k < n {
        lemma_formatted_none(store, uid, username, k, n - 1);
    }
}

proof fn lemma_last_of(store: config::Props, key: Seq<char>, n: int)
    requires
        0 <= n <= store.len(),
    ensures
        last_of(store, key, n) matches Some(k) ==> 0 <= k < n && store[k].0 == key,
    decreases n,
{
    if n > 0 {
        lemma_last_of(store, key, n - 1);
    }
}

/// Put a cache of its own into a store where none is configured.
fn ensure_segregated_ccache(store: &mut Vec<(String, String)>, configured: bool, tid: u64)
    ensures
        config::props_view(final(store)@) == segregated(
            config::props_view(old(store)@),
            configured,
            tid,
        ),
{
    if configured {
        return;
    }
    let mut name: String = "MEMORY:internal_".to_owned();
    text::push_decimal(&mut name, tid);
    let ghost before = config::props_view(store@);
    store.push(("ccache".to_owned(), name));
    assert(config::props_view(store@) =~= before.push(("ccache"@, private_ccache(tid))));
}

/// The credential store of a planned acquisition. The name must have been
/// imported, where there is one; `username` is that of the target, where it has
/// one, and `tid` the thread.
pub fn get_cred_environment(
    svc: &Service,
    target_uid: u32,
    username: Option<&str>,
    name_imported: bool,
    service_keytab: bool,
    tid: u64,
) -> (r: Result<Vec<(String, String)>, i32>)
    ensures
        if !name_imported {
            r == Err::<Vec<(String, String)>, i32>(EINVAL)
        } else {
            match env_store(
                svc@.krb5_store,
                target_uid,
                config::peer_view(username),
                service_keytab,
                tid,
            ) {
                Ok(store) => r matches Ok(s) && config::props_view(s@) == store,
                Err(e) => r == Err::<Vec<(String, String)>, i32>(e),
            }
        },
{
    if !name_imported {
        return Err(EINVAL);
    }
    let ghost conf = svc@.krb5_store;
    let ghost user = config::peer_view(username);
    let n: usize = svc.krb5_store.len();
    let mut store: Vec<(String, String)> = Vec::new();
    assert(config::props_view(store@) =~= Seq::empty());
    if n == 0 {
        return Ok(store);
    }
    let mut keytab: Option<usize> = None;
    let mut client_keytab: Option<usize> = None;
    let mut ccache = false;
    let mut i: usize = 0;
    while i < n
        invariant
            name_imported,
            i <= n,
            n > 0,
            n == svc.krb5_store@.len(),
            conf == svc@.krb5_store,
            conf == config::props_view(svc.krb5_store@),
            user == config::peer_view(username),
            formatted_store(conf, target_uid, user, i as int) == Some(
                config::props_view(store@),
            ),
            store@.len() == i,
            match last_of(conf, "keytab"@, i as int) {
                Some(k) => keytab matches Some(x) && x == k,
                None => keytab is None,
            },
            match last_of(conf, "client_keytab"@, i as int) {
                Some(k) => client_keytab matches Some(x) && x == k,
                None => client_keytab is None,
            },
            ccache == last_of(conf, "ccache"@, i as int) is Some,
        decreases n - i,
    {
        let key = svc.krb5_store[i].0.as_str();
        let value = svc.krb5_store[i].1.as_str();
        assert(conf[i as int] == (key@, value@));
        let v = match get_formatted_string(value, target_uid, username) {
            Some(v) => v,
            None => {
                proof {
                    lemma_formatted_none(conf, target_uid, user, i + 1, n as int);
                }
                return Err(ENOMEM);
            },
        };
        proof {
            reveal_strlit("keytab");
            reveal_strlit("client_keytab");
            reveal_strlit("ccache");
            assert("keytab"@.len() != "client_keytab"@.len());
            assert("keytab"@[0] != "ccache"@[0]);
            assert("client_keytab"@.len() != "ccache"@.len());
        }
        if text::same(key, "client_keytab") {
            client_keytab = Some(i);
        } else if text::same(key, "keytab") {
            keytab = Some(i);
        } else if text::same(key, "ccache") {
            ccache = true;
        }
        let ghost before = config::props_view(store@);
        store.push((key.to_owned(), v));
        assert(config::props_view(store@) =~= before.push((key@, v@)));
        i += 1;
    }
    let ghost f = config::props_view(store@);
    proof {
        lemma_last_of(conf, "keytab"@, n as int);
        lemma_last_of(conf, "client_keytab"@, n as int);
    }
    if service_keytab {
        match keytab {
            None => {
                if client_keytab.is_some() {
                    return Ok(store);
                }
                return Err(EINVAL);
            },
            Some(k) => {
                let value: String = store[k].1.as_str().to_owned();
                assert(f[k as int].1 == value@);
                match client_keytab {
                    Some(ck) => {
                        let key: String = store[ck].0.as_str().to_owned();
                        assert(f[ck as int].0 == key@);
                        store.set(ck, (key, value));
                        assert(config::props_view(store@) =~= f.update(
                            ck as int,
                            (f[ck as int].0, f[k as int].1),
                        ));
                    },
                    None => {
                        store.push(("client_keytab".to_owned(), value));
                        assert(config::props_view(store@) =~= f.push(
                            ("client_keytab"@, f[k as int].1),
                        ));
                    },
                }
            },
        }
    }
    ensure_segregated_ccache(&mut store, ccache, tid);
    Ok(store)
}

/// A store that was made for a service, unless that has only a client keytab, has
/// a cache.
pub proof fn made_store_has_a_cache(
    store: config::Props,
    uid: u32,
    username: Option<Seq<char>>,
    service_keytab: bool,
    tid: u64,
)
    requires
        store.len() > 0,
        env_store(store, uid, username, service_keytab, tid) is Ok,
        !(service_keytab && last_of(store, "keytab"@, store.len() as int) is None),
    ensures
        exists|i: int|
            0 <= i < env_store(store, uid, username, service_keytab, tid)->Ok_0.len() && (
            #[trigger] env_store(store, uid, username, service_keytab, tid)->Ok_0[i]).0
                == "ccache"@,
{
    let n = store.len() as int;
    let made = env_store(store, uid, username, service_keytab, tid)->Ok_0;
    let cc = last_of(store, "ccache"@, n);
    lemma_last_of(store, "ccache"@, n);
    lemma_last_of(store, "keytab"@, n);
    lemma_last_of(store, "client_keytab"@, n);
    match cc {
        Some(i) => {
            lemma_formatted_len(store, uid, username, n, i);
            let f = formatted_store(store, uid, username, n)->Some_0;
            assert(f[i].0 == "ccache"@);
            assert(made[i].0 == "ccache"@);
        },
        None => {
            assert(made[made.len() - 1].0 == "ccache"@);
        },
    }
}

// ---- acquiring ----

/// What the mechanism says of a credential.
#[derive(Debug)]
pub struct CredInfo {
    pub mechs: Vec<Vec<u8>>,
    pub usage: i32,
    pub lifetime: u32,
}

/// How the name of a credential compares with the desired one.
#[derive(Debug, Clone, Copy, PartialEq, Eq, Structural)]
pub enum NameCheck {
    /// No name is desired.
    Any,
    /// They could not be compared: this is the major status.
    Failed(u32),
    /// They are the same, or not; a credential without a name is not.
    Compared(bool),
}

/// A credential of one usage does not do for another.
pub open spec fn usage_lacking(wanted: i32, usage: i32) -> bool {
    ||| wanted == GSS_C_ACCEPT && usage == GSS_C_INITIATE
    ||| wanted == GSS_C_INITIATE && usage == GSS_C_ACCEPT
    ||| wanted == GSS_C_BOTH && usage != GSS_C_BOTH
}

/// One of the mechanisms is krb5.
pub open spec fn has_krb5(mechs: Seq<Vec<u8>>) -> bool {
    exists|i: int| 0 <= i < mechs.len() && (#[trigger] mechs[i])@ == KRB5_MECH_OID@
}

/// What is wrong with a credential for a purpose, if anything: the mechanism, the
/// name, the usage or the lifetime, in this order.
pub open spec fn cred_fault(
    min_lifetime: u32,
    info: CredInfo,
    name: NameCheck,
    usage: i32,
) -> Option<u32> {
    if !has_krb5(info.mechs@) {
        Some(GSS_S_CRED_UNAVAIL)
    } else if name is Failed {
        Some(name->Failed_0)
    } else if name == NameCheck::Compared(false) {
        Some(GSS_S_CRED_UNAVAIL)
    } else if usage_lacking(usage, info.usage) {
        Some(GSS_S_NO_CRED)
    } else if info.lifetime == 0 || (min_lifetime != 0 && info.lifetime < min_lifetime) {
        Some(GSS_S_CREDENTIALS_EXPIRED)
    } else {
        None
    }
}

/// Whether a credential can be used again, or the major status that says why not.
/// One that cannot be inquired gives the status of that.
pub fn check_cred(
    svc: &Service,
    info: &Result<CredInfo, u32>,
    name: NameCheck,
    cred_usage: i32,
) -> (r: Result<(), u32>)
    ensures
        match info {
            Err(major) => r == Err::<(), u32>(*major),
            Ok(i) => match cred_fault(svc.min_lifetime, *i, name, cred_usage) {
                Some(major) => r == Err::<(), u32>(major),
                None => r is Ok,
            },
        },
{
    let i = match info {
        Ok(i) => i,
        Err(major) => {
            return Err(*major);
        },
    };
    let krb5 = KRB5_MECH_OID;
    if !octets::contains(i.mechs.as_slice(), krb5.as_slice()) {
        return Err(GSS_S_CRED_UNAVAIL);
    }
    match name {
        NameCheck::Any => {},
        NameCheck::Failed(major) => {
            return Err(major);
        },
        NameCheck::Compared(same) => {
            if !same {
                return Err(GSS_S_CRED_UNAVAIL);
            }
        },
    }
    if (cred_usage == GSS_C_ACCEPT && i.usage == GSS_C_INITIATE) || (cred_usage == GSS_C_INITIATE
        && i.usage == GSS_C_ACCEPT) || (cred_usage == GSS_C_BOTH && i.usage != GSS_C_BOTH) {
        return Err(GSS_S_NO_CRED);
    }
    if i.lifetime == 0 {
        return Err(GSS_S_CREDENTIALS_EXPIRED);
    }
    if svc.min_lifetime != 0 && i.lifetime < svc.min_lifetime {
        return Err(GSS_S_CREDENTIALS_EXPIRED);
    }
    Ok(())
}

/// What a step of acquiring krb5 credentials asks for.
#[derive(Debug, Clone, Copy, PartialEq, Eq, Structural)]
pub enum AddStep {
    /// Check the credential that was handed in.
    Check,
    /// Use the credential that was handed in.
    Reuse,
    /// Make the environment, and acquire.
    Environment,
    /// Acquire for the desired name, without an environment.
    NameOnly,
    /// This is the failure.
    Failed(AcqError),
}

/// The step that leads to a new credential.
pub open spec fn acquiring_step(acquire_type: AcquireType) -> AddStep {
    match acquire_type {
        AcquireType::Normal => AddStep::Environment,
        AcquireType::ImpName => AddStep::NameOnly,
    }
}

/// Begin to acquire. Impersonation is not supported.
pub fn add_krb5_creds(
    svc: &Service,
    acquire_type: AcquireType,
    cred_given: bool,
    cred_usage: i32,
) -> (r: AddStep)
    ensures
        r == if impersonates(svc@, cred_usage, acquire_type) {
            AddStep::Failed(AcqError { major: GSS_S_FAILURE, minor: ENOSYS as u32 })
        } else if cred_given && acquire_type is Normal {
            AddStep::Check
        } else {
            acquiring_step(acquire_type)
        },
{
    if try_impersonate(svc, cred_usage, acquire_type) {
        return AddStep::Failed(AcqError { major: GSS_S_FAILURE, minor: ENOSYS as u32 });
    }
    match acquire_type {
        AcquireType::Normal => if cred_given {
            AddStep::Check
        } else {
            AddStep::Environment
        },
        AcquireType::ImpName => AddStep::NameOnly,
    }
}

/// After the check: a credential that has expired, is of the wrong usage or is
/// defective is acquired anew, and any other fault is a failure.
pub fn cred_checked(checked: Result<(), u32>) -> (r: AddStep)
    ensures
        r == match checked {
            Ok(_) => AddStep::Reuse,
            Err(major) => if major == GSS_S_CREDENTIALS_EXPIRED || major == GSS_S_NO_CRED || major
                == GSS_S_DEFECTIVE_CREDENTIAL {
                AddStep::Environment
            } else {
                AddStep::Failed(AcqError { major: GSS_S_CRED_UNAVAIL, minor: 0 })
            },
        },
{
    match checked {
        Ok(_) => AddStep::Reuse,
        Err(major) => {
            if major == GSS_S_CREDENTIALS_EXPIRED || major == GSS_S_NO_CRED || major
                == GSS_S_DEFECTIVE_CREDENTIAL {
                AddStep::Environment
            } else {
                AddStep::Failed(AcqError { major: GSS_S_CRED_UNAVAIL, minor: 0 })
            }
        },
    }
}

/// The failure to make an environment, from its errno.
pub fn environment_failed(errno: i32) -> (r: AcqError)
    ensures
        r == (AcqError { major: GSS_S_CRED_UNAVAIL, minor: errno as u32 }),
{
    AcqError { major: GSS_S_CRED_UNAVAIL, minor: errno as u32 }
}

/// A credential is used again only if it is a krb5 credential for the desired
/// name and usage, and lives long enough.
pub proof fn reused_cred_is_good(
    min_lifetime: u32,
    info: CredInfo,
    name: NameCheck,
    usage: i32,
)
    requires
        cred_fault(min_lifetime, info, name, usage) is None,
    ensures
        has_krb5(info.mechs@),
        name is Any || name == NameCheck::Compared(true),
        !usage_lacking(usage, info.usage),
        info.lifetime > 0 && info.lifetime >= min_lifetime,
{
}

} // verus!
