//! Whose credentials the daemon acquires, when it uses one again, and where it keeps them.

use vstd::prelude::*;

use crate::consts::{
    EACCES, EINVAL, ENOMEM, ENOSYS, GSS_C_ACCEPT, GSS_C_BOTH, GSS_C_INITIATE,
    GSS_S_CREDENTIALS_EXPIRED, GSS_S_CRED_UNAVAIL, GSS_S_DEFECTIVE_CREDENTIAL, GSS_S_FAILURE,
    GSS_S_NO_CRED, KRB5_MECH_OID, KRB5_NT_PRINCIPAL_NAME_OID, NT_EXPORT_NAME_OID,
    NT_MACHINE_UID_NAME_OID, NT_STRING_UID_NAME_OID,
};
use crate::gssapi::seal::CredHandle;
use crate::gssx::GssxName;
use crate::server::config;
use crate::server::config::Service;
use crate::server::creds;
use crate::server::creds::{
    AcqError, AcquireType, AddStep, CredInfo, CredsRegistry, EnvPlan, NameCheck,
};
use crate::text;

verus! {

// ---- using a credential again ----

/// A credential that is used again is a krb5 credential, is not for another name, is for
/// the wanted usage or for both, and lives for as long as the service asks.
pub proof fn what_a_good_credential_is(
    svc: &Service,
    info: &Result<CredInfo, u32>,
    name: NameCheck,
    wanted: i32,
    r: Result<(), u32>,
)
    requires
        call_ensures(creds::check_cred, (svc, info, name, wanted), r),
        r is Ok,
    ensures
        *info is Ok,
        exists|i: int|
            0 <= i < (*info)->Ok_0.mechs@.len() && (#[trigger] (*info)->Ok_0.mechs@[i])@
                == KRB5_MECH_OID@,
        !(name is Failed),
        name != NameCheck::Compared(false),
        wanted == GSS_C_ACCEPT ==> (*info)->Ok_0.usage != GSS_C_INITIATE,
        wanted == GSS_C_INITIATE ==> (*info)->Ok_0.usage != GSS_C_ACCEPT,
        wanted == GSS_C_BOTH ==> (*info)->Ok_0.usage == GSS_C_BOTH,
        (*info)->Ok_0.lifetime > 0,
        (*info)->Ok_0.lifetime >= svc.min_lifetime,
{
}

/// A krb5 credential of the desired name, for the wanted usage or for both, that lives for
/// as long as the service asks, is used again.
pub proof fn good_credentials_are_used(
    svc: &Service,
    info: &Result<CredInfo, u32>,
    name: NameCheck,
    wanted: i32,
    r: Result<(), u32>,
    i: int,
)
    requires
        call_ensures(creds::check_cred, (svc, info, name, wanted), r),
        *info is Ok,
        0 <= i < (*info)->Ok_0.mechs@.len(),
        (*info)->Ok_0.mechs@[i]@ == KRB5_MECH_OID@,
        name is Any || name == NameCheck::Compared(true),
        (*info)->Ok_0.usage == wanted || (*info)->Ok_0.usage == GSS_C_BOTH,
        (*info)->Ok_0.lifetime > 0,
        (*info)->Ok_0.lifetime >= svc.min_lifetime,
    ensures
        r is Ok,
{
    assert(creds::has_krb5((*info)->Ok_0.mechs@));
}

/// Each fault has its status, and the mechanism counts before the name, the name before
/// the usage and the usage before the lifetime.
pub proof fn faults_of_credentials(
    svc: &Service,
    info: &Result<CredInfo, u32>,
    name: NameCheck,
    wanted: i32,
    r: Result<(), u32>,
)
    requires
        call_ensures(creds::check_cred, (svc, info, name, wanted), r),
    ensures
        *info is Err ==> r == Err::<(), u32>((*info)->Err_0),
        *info is Ok && (forall|i: int|
            0 <= i < (*info)->Ok_0.mechs@.len() ==> (#[trigger] (*info)->Ok_0.mechs@[i])@
                != KRB5_MECH_OID@) ==> r == Err::<(), u32>(GSS_S_CRED_UNAVAIL),
        *info is Ok && r == Err::<(), u32>(GSS_S_NO_CRED) && !(name is Failed) ==> {
            let usage = (*info)->Ok_0.usage;
            &&& name != NameCheck::Compared(false)
            &&& wanted == GSS_C_ACCEPT && usage == GSS_C_INITIATE || wanted == GSS_C_INITIATE
                && usage == GSS_C_ACCEPT || wanted == GSS_C_BOTH && usage != GSS_C_BOTH
        },
        *info is Ok && r == Err::<(), u32>(GSS_S_CREDENTIALS_EXPIRED) && !(name is Failed) ==> {
            &&& name != NameCheck::Compared(false)
            &&& (*info)->Ok_0.lifetime == 0 || (*info)->Ok_0.lifetime < svc.min_lifetime
        },
        *info is Ok && name == NameCheck::Compared(false) ==> r == Err::<(), u32>(
            GSS_S_CRED_UNAVAIL,
        ),
        *info is Ok && name is Failed && creds::has_krb5((*info)->Ok_0.mechs@) ==> r == Err::<
            (),
            u32,
        >(name->Failed_0),
{
}

/// A credential that cannot be used for its age, its usage or a defect is replaced; any
/// other fault is reported as that there is none.
pub proof fn after_the_check(checked: Result<(), u32>, r: AddStep)
    requires
        call_ensures(creds::cred_checked, (checked,), r),
    ensures
        checked is Ok <==> r is Reuse,
        checked == Err::<(), u32>(GSS_S_CREDENTIALS_EXPIRED) ==> r is Environment,
        checked == Err::<(), u32>(GSS_S_NO_CRED) ==> r is Environment,
        checked == Err::<(), u32>(GSS_S_DEFECTIVE_CREDENTIAL) ==> r is Environment,
        checked == Err::<(), u32>(GSS_S_CRED_UNAVAIL) ==> r is Failed,
        r matches AddStep::Failed(e) ==> e.major == GSS_S_CRED_UNAVAIL && e.minor == 0,
        r is Environment ==> checked == Err::<(), u32>(GSS_S_CREDENTIALS_EXPIRED) || checked
            == Err::<(), u32>(GSS_S_NO_CRED) || checked == Err::<(), u32>(
            GSS_S_DEFECTIVE_CREDENTIAL,
        ),
        !(r is Check) && !(r is NameOnly),
{
}

/// A credential that was handed in is checked, and otherwise one is acquired: for a name
/// where one is to be impersonated, and in the environment of the service else. A service
/// that would have to impersonate by itself is refused.
pub proof fn beginning_of_an_acquisition(
    svc: &Service,
    kind: AcquireType,
    given: bool,
    usage: i32,
    r: AddStep,
)
    requires
        call_ensures(creds::add_krb5_creds, (svc, kind, given, usage), r),
    ensures
        svc.impersonate && (usage == GSS_C_INITIATE || usage == GSS_C_BOTH) ==> r is Failed,
        kind is ImpName && (svc.allow_proto_trans || svc.trusted) ==> r is Failed,
        kind is Normal && (!svc.impersonate || usage == GSS_C_ACCEPT) && given ==> r is Check,
        kind is Normal && (!svc.impersonate || usage == GSS_C_ACCEPT) && !given ==> r
            is Environment,
        kind is ImpName && !svc.allow_proto_trans && !svc.trusted && (!svc.impersonate || usage
            == GSS_C_ACCEPT) ==> r is NameOnly,
        r matches AddStep::Failed(e) ==> e == (AcqError {
            major: GSS_S_FAILURE,
            minor: ENOSYS as u32,
        }),
{
}

/// To impersonate is to acquire for a name where the service may, or for initiating where
/// the service always does.
pub proof fn when_a_service_impersonates(svc: &Service, usage: i32, kind: AcquireType, r: bool)
    requires
        call_ensures(creds::try_impersonate, (svc, usage, kind), r),
    ensures
        kind is Normal && !svc.impersonate ==> !r,
        !svc.impersonate && !svc.allow_proto_trans && !svc.trusted ==> !r,
        !(kind is ImpName) && usage == GSS_C_ACCEPT ==> !r,
        kind is ImpName && svc.allow_proto_trans ==> r,
        kind is ImpName && svc.trusted ==> r,
        svc.impersonate && usage == GSS_C_INITIATE ==> r,
        svc.impersonate && usage == GSS_C_BOTH ==> r,
{
}

/// Krb5 alone is permitted, to services that have it.
pub proof fn permitted_mechanisms(svc: &Service, mech: &[u8], r: bool)
    requires
        call_ensures(creds::allowed_mech, (svc, mech), r),
    ensures
        r ==> mech@ == KRB5_MECH_OID@,
        svc.mechs == 1 && mech@ == KRB5_MECH_OID@ ==> r,
        svc.mechs == 0 ==> !r,
{
    assert(1u32 & 1 != 0) by (bit_vector);
    assert(0u32 & 1 == 0) by (bit_vector);
}

/// The failure to make an environment carries its errno.
pub proof fn failed_environment(errno: i32, r: AcqError)
    requires
        call_ensures(creds::environment_failed, (errno,), r),
    ensures
        r.major == GSS_S_CRED_UNAVAIL,
        errno >= 0 ==> r.minor == errno,
{
}

// ---- planning ----

/// The name of a uid: its type says so.
pub open spec fn is_uid_name(g: GssxName) -> bool {
    g.name_type@ == NT_STRING_UID_NAME_OID@ || g.name_type@ == NT_MACHINE_UID_NAME_OID@
}

/// A service for both usages gives what is asked for; one that is for a single usage gives
/// that one where both are asked for, and refuses the other.
pub proof fn usage_of_an_acquisition(
    uid: u32,
    svc: &Service,
    desired: Option<&GssxName>,
    usage: i32,
    r: Result<EnvPlan, i32>,
)
    requires
        call_ensures(creds::plan_environment, (uid, svc, desired, usage), r),
    ensures
        svc.cred_usage == GSS_C_BOTH ==> r is Ok && r->Ok_0.usage == usage,
        usage == GSS_C_BOTH ==> r is Ok && r->Ok_0.usage == svc.cred_usage,
        usage == svc.cred_usage ==> r is Ok && r->Ok_0.usage == usage,
        svc.cred_usage == GSS_C_INITIATE && usage == GSS_C_ACCEPT ==> r is Err,
        svc.cred_usage == GSS_C_ACCEPT && usage == GSS_C_INITIATE ==> r is Err,
        r matches Err(e) ==> e == EACCES,
{
}

/// A credential is for the caller, unless a trusted service that runs as the caller asks
/// for a user by uid.
pub proof fn user_of_an_acquisition(
    uid: u32,
    svc: &Service,
    desired: Option<&GssxName>,
    usage: i32,
    r: Result<EnvPlan, i32>,
    text: &[u8],
    named: u32,
)
    requires
        call_ensures(creds::plan_environment, (uid, svc, desired, usage), r),
        desired is Some ==> text@ == desired->Some_0.display_name@,
        call_ensures(creds::parse_leading_uid, (text,), named),
        r is Ok,
    ensures
        desired is None ==> r->Ok_0.target_uid == uid,
        !svc.trusted || svc.euid != uid ==> r->Ok_0.target_uid == uid,
        desired is Some && !is_uid_name(*desired->Some_0) ==> r->Ok_0.target_uid == uid,
        desired is Some && is_uid_name(*desired->Some_0) && svc.trusted && svc.euid == uid
            ==> r->Ok_0.target_uid == named && r->Ok_0.name is None && !r->Ok_0.service_keytab,
{
}

/// A service acts for itself only as the user it runs as: where it asks for a name of its
/// own, and where it is trusted and asks for none.
pub proof fn who_uses_the_service_keytab(
    uid: u32,
    svc: &Service,
    desired: Option<&GssxName>,
    usage: i32,
    r: Result<EnvPlan, i32>,
)
    requires
        call_ensures(creds::plan_environment, (uid, svc, desired, usage), r),
        r is Ok,
    ensures
        svc.euid != uid ==> !r->Ok_0.service_keytab,
        desired is None && !svc.trusted ==> !r->Ok_0.service_keytab,
        desired is None && svc.trusted && svc.euid == uid ==> r->Ok_0.service_keytab,
        desired is Some && svc.euid == uid && !is_uid_name(*desired->Some_0)
            ==> r->Ok_0.service_keytab,
        desired is Some && svc.euid == uid && !svc.trusted ==> r->Ok_0.service_keytab,
{
}

/// The name to acquire for is the desired one; where none is desired it is the principal of
/// a service that acts for itself, if it has one.
pub proof fn name_of_an_acquisition(
    uid: u32,
    svc: &Service,
    desired: Option<&GssxName>,
    usage: i32,
    r: Result<EnvPlan, i32>,
)
    requires
        call_ensures(creds::plan_environment, (uid, svc, desired, usage), r),
        r is Ok,
    ensures
        desired is None && !r->Ok_0.service_keytab ==> r->Ok_0.name is None,
        desired is None && svc.krb5_principal is None ==> r->Ok_0.name is None,
        desired is None && r->Ok_0.service_keytab && svc.krb5_principal is Some ==> {
            &&& r->Ok_0.name is Some
            &&& r->Ok_0.name->Some_0.value@ == vstd::utf8::encode_utf8(
                svc.krb5_principal->Some_0@,
            ).push(0)
            &&& r->Ok_0.name->Some_0.name_type is Some
            &&& r->Ok_0.name->Some_0.name_type->Some_0@ == KRB5_NT_PRINCIPAL_NAME_OID@
        },
        desired is Some && !is_uid_name(*desired->Some_0) ==> r->Ok_0.name is Some,
        desired is Some && r->Ok_0.name is Some && desired->Some_0.display_name@.len() > 0
            ==> r->Ok_0.name->Some_0.value@ == desired->Some_0.display_name@,
        desired is Some && r->Ok_0.name is Some && desired->Some_0.display_name@.len() > 0
            && desired->Some_0.name_type@.len() > 0 ==> r->Ok_0.name->Some_0.name_type is Some
            && r->Ok_0.name->Some_0.name_type->Some_0@ == desired->Some_0.name_type@,
        desired is Some && r->Ok_0.name is Some && desired->Some_0.display_name@.len() > 0
            && desired->Some_0.name_type@.len() == 0 ==> r->Ok_0.name->Some_0.name_type is None,
        desired is Some && r->Ok_0.name is Some && desired->Some_0.display_name@.len() == 0
            ==> r->Ok_0.name->Some_0.value@ == desired->Some_0.exported_name@
            && r->Ok_0.name->Some_0.name_type is Some && r->Ok_0.name->Some_0.name_type->Some_0@
            == NT_EXPORT_NAME_OID@,
{
}

// ---- uids ----

/// A text that does not begin with a digit or a blank has the uid 0. A blank in front
/// changes nothing, and nor does what stands behind the digits.
pub proof fn uid_in_a_name(s: &[u8], r: u32, t: &[u8], q: u32, c: u8)
    requires
        call_ensures(creds::parse_leading_uid, (s,), r),
        call_ensures(creds::parse_leading_uid, (t,), q),
    ensures
        s@.len() == 0 ==> r == 0,
        s@.len() > 0 && s@[0] != 0x20 && s@[0] != 0x09 && !(0x30 <= s@[0] <= 0x39) ==> r == 0,
        (c == 0x20 || c == 0x09) && s@ == seq![c] + t@ ==> r == q,
        s@ == t@.push(c) && !(0x30 <= c <= 0x39) && c != 0x20 && c != 0x09 ==> r == q,
{
    if s@ == seq![c] + t@ {
        assert(s@.skip(1) =~= t@);
    }
    if s@ == t@.push(c) && !(0x30 <= c <= 0x39) && c != 0x20 && c != 0x09 {
        lemma_tail(t@, c);
    }
}

proof fn lemma_tail_digits(v: u32, s: Seq<u8>, c: u8)
    requires
        !(0x30 <= c <= 0x39),
    ensures
        creds::digits(v, s.push(c)) == creds::digits(v, s),
    decreases s.len(),
{
    if s.len() > 0 {
        assert(s.push(c)[0] == s[0]);
        assert(s.push(c).skip(1) =~= s.skip(1).push(c));
        if 0x30 <= s[0] <= 0x39 {
            lemma_tail_digits(
                ((v * 10 + (s[0] - 0x30)) % 0x1_0000_0000) as u32,
                s.skip(1),
                c,
            );
        }
    }
}

proof fn lemma_tail(s: Seq<u8>, c: u8)
    requires
        !(0x30 <= c <= 0x39),
        c != 0x20 && c != 0x09,
    ensures
        creds::leading_number(s.push(c)) == creds::leading_number(s),
    decreases s.len(),
{
    if s.len() > 0 && (s[0] == 0x20 || s[0] == 0x09) {
        assert(s.push(c)[0] == s[0]);
        assert(s.push(c).skip(1) =~= s.skip(1).push(c));
        lemma_tail(s.skip(1), c);
    } else {
        if s.len() > 0 {
            assert(s.push(c)[0] == s[0]);
        }
        lemma_tail_digits(0, s, c);
    }
}

/// Another digit behind digits makes ten times the number and the digit, modulo 32 bits.
pub proof fn digits_of_a_uid(s: &[u8], r: u32, t: &[u8], q: u32, c: u8)
    requires
        call_ensures(creds::parse_leading_uid, (s,), r),
        call_ensures(creds::parse_leading_uid, (t,), q),
        forall|i: int| 0 <= i < t@.len() ==> 0x30 <= #[trigger] t@[i] <= 0x39,
        0x30 <= c <= 0x39,
        s@ == t@.push(c),
    ensures
        r == (q * 10 + (c - 0x30)) % 0x1_0000_0000,
{
    lemma_another_digit(0, t@, c);
    assert(s@[0] == if t@.len() > 0 {
        t@[0]
    } else {
        c
    });
}

proof fn lemma_another_digit(v: u32, s: Seq<u8>, c: u8)
    requires
        forall|i: int| 0 <= i < s.len() ==> 0x30 <= #[trigger] s[i] <= 0x39,
        0x30 <= c <= 0x39,
    ensures
        creds::digits(v, s.push(c)) == (creds::digits(v, s) * 10 + (c - 0x30)) % 0x1_0000_0000,
    decreases s.len(),
{
    if s.len() > 0 {
        assert(s.push(c)[0] == s[0]);
        assert(s.push(c).skip(1) =~= s.skip(1).push(c));
        let t = s.skip(1);
        assert forall|i: int| 0 <= i < t.len() implies 0x30 <= #[trigger] t[i] <= 0x39 by {
            assert(t[i] == s[i + 1]);
        }
        lemma_another_digit(((v * 10 + (s[0] - 0x30)) % 0x1_0000_0000) as u32, t, c);
    } else {
        let x = ((v * 10 + (c - 0x30)) % 0x1_0000_0000) as u32;
        assert(s.push(c)[0] == c);
        assert(s.push(c).skip(1) =~= Seq::empty());
        assert(creds::digits(x, s.push(c).skip(1)) == x);
        assert(creds::digits(v, s) == v);
    }
}

// ---- formatted values ----

/// A value is formatted piece by piece: what is no percent sign stays, and an escape in
/// front gives the uid, the name of the user or a percent sign. A user without a name, any
/// other escape and a lone percent sign give nothing at all.
pub proof fn values_are_formatted(
    orig: &str,
    uid: u32,
    user: Option<&str>,
    r: Option<String>,
    tail: &str,
    t: Option<String>,
    c: char,
)
    requires
        call_ensures(creds::get_formatted_string, (orig, uid, user), r),
        call_ensures(creds::get_formatted_string, (tail, uid, user), t),
    ensures
        orig@.len() == 0 ==> r is Some && r->Some_0@.len() == 0,
        c != '%' && orig@ == seq![c] + tail@ ==> (r is Some <==> t is Some),
        c != '%' && orig@ == seq![c] + tail@ && t is Some ==> r->Some_0@ == seq![c]
            + t->Some_0@,
        orig@ == seq!['%', '%'] + tail@ && t is Some ==> r is Some && r->Some_0@ == seq!['%']
            + t->Some_0@,
        orig@ == seq!['%', 'U'] + tail@ && t is Some ==> r is Some && r->Some_0@
            == text::decimal(uid as nat) + t->Some_0@,
        orig@ == seq!['%', 'u'] + tail@ && t is Some && user is Some ==> r is Some && r->Some_0@
            == user->Some_0@ + t->Some_0@,
        orig@ == seq!['%', 'u'] + tail@ && user is None ==> r is None,
        orig@ == seq!['%', c] + tail@ && c != '%' && c != 'U' && c != 'u' ==> r is None,
        orig@ == seq!['%', c] + tail@ && t is None ==> r is None,
        orig@ == seq!['%'] ==> r is None,
{
    let two = seq!['%', c] + tail@;
    assert((seq![c] + tail@).skip(1) =~= tail@);
    assert(two.skip(2) =~= tail@);
    assert((seq!['%', '%'] + tail@).skip(2) =~= tail@);
    assert((seq!['%', 'U'] + tail@).skip(2) =~= tail@);
    assert((seq!['%', 'u'] + tail@).skip(2) =~= tail@);
}

// ---- stores ----

proof fn lemma_formatted_entries(
    store: config::Props,
    uid: u32,
    user: Option<Seq<char>>,
    n: int,
    k: int,
)
    requires
        0 <= n <= store.len(),
        creds::formatted_store(store, uid, user, n) is Some,
    ensures
        creds::formatted_store(store, uid, user, n)->Some_0.len() == n,
        0 <= k < n ==> creds::formatted_store(store, uid, user, n)->Some_0[k].0 == store[k].0
            && creds::formatted(store[k].1, uid, user) == Some(
            creds::formatted_store(store, uid, user, n)->Some_0[k].1,
        ),
    decreases n,
{
    if n > 0 {
        lemma_formatted_entries(store, uid, user, n - 1, k);
    }
}

proof fn lemma_unformatted(
    store: config::Props,
    uid: u32,
    user: Option<Seq<char>>,
    n: int,
)
    requires
        0 <= n <= store.len(),
        forall|k: int| 0 <= k < n ==> creds::formatted((#[trigger] store[k]).1, uid, user) is Some,
    ensures
        creds::formatted_store(store, uid, user, n) is Some,
    decreases n,
{
    if n > 0 {
        lemma_unformatted(store, uid, user, n - 1);
        assert(creds::formatted(store[n - 1].1, uid, user) is Some);
    }
}

proof fn lemma_last(store: config::Props, key: Seq<char>, n: int)
    requires
        0 <= n <= store.len(),
    ensures
        creds::last_of(store, key, n) matches Some(k) ==> 0 <= k < n && store[k].0 == key && (
        forall|j: int| k < j < n ==> (#[trigger] store[j]).0 != key),
        creds::last_of(store, key, n) is None ==> forall|j: int|
            0 <= j < n ==> (#[trigger] store[j]).0 != key,
    decreases n,
{
    if n > 0 {
        lemma_last(store, key, n - 1);
    }
}

/// There is an entry with a key.
pub open spec fn has_key(store: Seq<(String, String)>, key: Seq<char>) -> bool {
    exists|i: int| 0 <= i < store.len() && (#[trigger] store[i]).0@ == key
}

/// The store of an acquisition for a caller has the configured entries, formatted, and a
/// cache of the thread's own where none is configured. A name that cannot be imported or a
/// value that cannot be formatted is a failure.
pub proof fn store_for_a_caller(
    svc: &Service,
    uid: u32,
    user: Option<&str>,
    imported: bool,
    tid: u64,
    r: Result<Vec<(String, String)>, i32>,
    k: int,
    orig: &str,
    v: Option<String>,
)
    requires
        call_ensures(creds::get_cred_environment, (svc, uid, user, imported, false, tid), r),
        0 <= k < svc.krb5_store@.len(),
        orig@ == svc.krb5_store@[k].1@,
        call_ensures(creds::get_formatted_string, (orig, uid, user), v),
    ensures
        !imported ==> r == Err::<Vec<(String, String)>, i32>(EINVAL),
        imported && v is None ==> r == Err::<Vec<(String, String)>, i32>(ENOMEM),
        r is Ok ==> {
            let s = r->Ok_0@;
            &&& v is Some
            &&& k < s.len()
            &&& s[k].0@ == svc.krb5_store@[k].0@
            &&& s[k].1@ == v->Some_0@
            &&& has_key(svc.krb5_store@, "ccache"@) ==> s.len() == svc.krb5_store@.len()
            &&& !has_key(svc.krb5_store@, "ccache"@) ==> s.len() == svc.krb5_store@.len() + 1
                && s.last().0@ == "ccache"@ && s.last().1@ == "MEMORY:internal_"@ + text::decimal(
                tid as nat,
            )
        },
{
    let conf = svc@.krb5_store;
    let u = config::peer_view(user);
    let n = conf.len() as int;
    assert(conf[k] == (svc.krb5_store@[k].0@, svc.krb5_store@[k].1@));
    let f = creds::formatted_store(conf, uid, u, n);
    if f is Some {
        lemma_formatted_entries(conf, uid, u, n, k);
    }
    lemma_last(conf, "ccache"@, n);
    if has_key(svc.krb5_store@, "ccache"@) {
        let i = choose|i: int|
            0 <= i < svc.krb5_store@.len() && (#[trigger] svc.krb5_store@[i]).0@ == "ccache"@;
        assert(conf[i].0 == "ccache"@);
    } else {
        assert forall|j: int| 0 <= j < n implies (#[trigger] conf[j]).0 != "ccache"@ by {
            assert(conf[j].0 == svc.krb5_store@[j].0@);
        }
    }
    if imported && v is None && f is Some {
        assert(creds::formatted(conf[k].1, uid, u) is Some);
    }
    if r is Ok {
        let s = config::props_view(r->Ok_0@);
        assert(s == creds::segregated(
            f->Some_0,
            creds::last_of(conf, "ccache"@, n) is Some,
            tid,
        ));
        assert(s.len() == r->Ok_0@.len());
        assert(s[k] == (r->Ok_0@[k].0@, r->Ok_0@[k].1@));
        assert(s.last() == (r->Ok_0@.last().0@, r->Ok_0@.last().1@));
    }
}

/// A service that acts for itself needs a keytab. Its value becomes that of the client
/// keytab too; with a client keytab alone the store is as configured.
pub proof fn store_for_the_service(
    svc: &Service,
    uid: u32,
    user: Option<&str>,
    tid: u64,
    r: Result<Vec<(String, String)>, i32>,
)
    requires
        call_ensures(creds::get_cred_environment, (svc, uid, user, true, true, tid), r),
        svc.krb5_store@.len() > 0,
        forall|k: int|
            0 <= k < svc.krb5_store@.len() ==> creds::formatted(
                (#[trigger] svc.krb5_store@[k]).1@,
                uid,
                config::peer_view(user),
            ) is Some,
    ensures
        !has_key(svc.krb5_store@, "keytab"@) && !has_key(svc.krb5_store@, "client_keytab"@) ==> r == Err::<
            Vec<(String, String)>,
            i32,
        >(EINVAL),
        has_key(svc.krb5_store@, "keytab"@) || has_key(svc.krb5_store@, "client_keytab"@) ==> r is Ok,
        r is Ok && has_key(svc.krb5_store@, "keytab"@) ==> exists|i: int, j: int|
            0 <= i < svc.krb5_store@.len() && (#[trigger] r->Ok_0@[i]).0@ == "keytab"@ && 0 <= j
                < r->Ok_0@.len() && (#[trigger] r->Ok_0@[j]).0@ == "client_keytab"@
                && r->Ok_0@[j].1@ == r->Ok_0@[i].1@,
        r is Ok && !has_key(svc.krb5_store@, "keytab"@) ==> r->Ok_0@.len() == svc.krb5_store@.len(),
{
    let conf = svc@.krb5_store;
    let u = config::peer_view(user);
    let n = conf.len() as int;
    assert forall|k: int| 0 <= k < n implies creds::formatted(
        (#[trigger] conf[k]).1,
        uid,
        u,
    ) is Some by {
        assert(conf[k].1 == svc.krb5_store@[k].1@);
    }
    lemma_unformatted(conf, uid, u, n);
    let f = creds::formatted_store(conf, uid, u, n)->Some_0;
    lemma_formatted_entries(conf, uid, u, n, 0);
    lemma_last(conf, "keytab"@, n);
    lemma_last(conf, "client_keytab"@, n);
    lemma_has_key(svc.krb5_store@, "keytab"@);
    lemma_has_key(svc.krb5_store@, "client_keytab"@);
    reveal_strlit("keytab");
    reveal_strlit("client_keytab");
    if r is Ok {
        let s = config::props_view(r->Ok_0@);
        assert(s.len() == r->Ok_0@.len());
        if let Some(k) = creds::last_of(conf, "keytab"@, n) {
            lemma_formatted_entries(conf, uid, u, n, k);
            assert(s[k] == (r->Ok_0@[k].0@, r->Ok_0@[k].1@));
            let j = match creds::last_of(conf, "client_keytab"@, n) {
                Some(c) => c,
                None => n,
            };
            if j < n {
                lemma_formatted_entries(conf, uid, u, n, j);
            }
            assert("keytab"@.len() != "client_keytab"@.len());
            assert(s[j] == (r->Ok_0@[j].0@, r->Ok_0@[j].1@));
            assert(r->Ok_0@[k].0@ == "keytab"@);
            assert(r->Ok_0@[j].0@ == "client_keytab"@);
        }
    }
}

proof fn lemma_has_key(store: Seq<(String, String)>, key: Seq<char>)
    ensures
        has_key(store, key) <==> creds::last_of(
            config::props_view(store),
            key,
            store.len() as int,
        ) is Some,
{
    let p = config::props_view(store);
    lemma_last(p, key, store.len() as int);
    if has_key(store, key) {
        let i = choose|i: int| 0 <= i < store.len() && (#[trigger] store[i]).0@ == key;
        assert(p[i].0 == key);
    }
    if let Some(k) = creds::last_of(p, key, store.len() as int) {
        assert(store[k].0@ == p[k].0);
    }
}

/// Without a configured store there is none.
pub proof fn no_store_is_configured(
    svc: &Service,
    uid: u32,
    user: Option<&str>,
    own: bool,
    tid: u64,
    r: Result<Vec<(String, String)>, i32>,
)
    requires
        call_ensures(creds::get_cred_environment, (svc, uid, user, true, own, tid), r),
        svc.krb5_store@.len() == 0,
    ensures
        r is Ok,
        r->Ok_0@.len() == 0,
{
    assert(svc@.krb5_store.len() == 0);
    assert(config::props_view(r->Ok_0@).len() == r->Ok_0@.len());
}

// ---- sealing keys ----

/// The keytab of the sealing key is the first one that is configured.
pub proof fn keytab_of_the_sealing_key(svc: &Service, r: Option<String>, i: int)
    requires
        call_ensures(creds::service_keytab, (svc,), r),
    ensures
        0 <= i < svc.krb5_store@.len() && svc.krb5_store@[i].0@ == "keytab"@ && (forall|j: int|
            0 <= j < i ==> (#[trigger] svc.krb5_store@[j]).0@ != "keytab"@) ==> r is Some
            && r->Some_0@ == svc.krb5_store@[i].1@,
        (forall|j: int|
            0 <= j < svc.krb5_store@.len() ==> (#[trigger] svc.krb5_store@[j]).0@ != "keytab"@)
            ==> r is None,
{
    let p = svc@.krb5_store;
    let s = svc.krb5_store@;
    crate::server::config_laws::first_value_counts(p, "keytab"@, i);
    if 0 <= i < s.len() && s[i].0@ == "keytab"@ && (forall|j: int|
        0 <= j < i ==> (#[trigger] s[j]).0@ != "keytab"@) {
        assert forall|k: int| 0 <= k < i implies (#[trigger] p[k]).0 != "keytab"@ by {
            assert(s[k].0@ != "keytab"@);
        }
        assert(crate::server::config_laws::gives(p, "keytab"@, i));
    }
    if forall|j: int| 0 <= j < s.len() ==> (#[trigger] s[j]).0@ != "keytab"@ {
        assert forall|k: int| 0 <= k < p.len() implies (#[trigger] p[k]).0 != "keytab"@ by {
            assert(s[k].0@ != "keytab"@);
        }
    }
}

/// A key that was derived for a service is found for it from then on, and those of other
/// services stay. One that is there is kept.
pub proof fn sealing_keys_are_kept(
    reg: &mut CredsRegistry,
    svc: &Service,
    derived: Option<CredHandle>,
    r: bool,
    before: Option<&CredHandle>,
)
    requires
        creds::names_once(old(reg)@),
        call_ensures(CredsRegistry::get_or_init, (reg, svc, derived), r),
        call_ensures(CredsRegistry::find, (&*old(reg), svc), before),
    ensures
        r <==> before is Some || derived is Some,
        before is Some ==> final(reg)@ == old(reg)@,
        derived is None ==> final(reg)@ == old(reg)@,
        before is None && derived is Some ==> final(reg)@.len() == old(reg)@.len() + 1
            && final(reg)@.last() == (svc.name@, derived->Some_0) && final(reg)@.drop_last()
            == old(reg)@,
{
    if let Some(h) = before {
        let i = choose|i: int|
            0 <= i < old(reg)@.len() && (#[trigger] old(reg)@[i]) == (svc@.name, *h);
        assert(creds::holds(old(reg)@, svc@.name));
    }
    if before is None && derived is Some {
        assert(final(reg)@.drop_last() =~= old(reg)@);
    }
}

/// A new registry has no keys.
pub proof fn no_keys_at_first(r: CredsRegistry, svc: &Service, found: Option<&CredHandle>)
    requires
        call_ensures(CredsRegistry::new, (), r),
        call_ensures(CredsRegistry::find, (&r, svc), found),
    ensures
        r@.len() == 0,
        found is None,
{
}

/// A key that is found is that of the service.
pub proof fn sealing_keys_are_found_by_name(
    reg: &CredsRegistry,
    svc: &Service,
    r: Option<&CredHandle>,
    i: int,
)
    requires
        call_ensures(CredsRegistry::find, (reg, svc), r),
        creds::names_once(reg@),
        0 <= i < reg@.len(),
    ensures
        reg@[i].0 == svc.name@ ==> r is Some && *r->Some_0 == reg@[i].1,
        r is Some ==> reg@.contains((svc.name@, *r->Some_0)),
{
    if reg@[i].0 == svc.name@ {
        assert(creds::holds(reg@, svc@.name));
        let h = r->Some_0;
        let j = choose|j: int| 0 <= j < reg@.len() && (#[trigger] reg@[j]) == (svc@.name, *h);
        assert(i == j);
    }
}

} // verus!
