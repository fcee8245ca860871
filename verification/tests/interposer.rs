//! The mechanism interposer: OIDs, handles, and which side answers.

use gssproxy::consts::{
    EINVAL, EIO, ENOENT, ENOTSUP, GSSPROXY_INTERPOSER_OID, GSS_C_ACCEPT, GSS_C_BOTH,
    GSS_C_INITIATE, GSS_C_MECH_CODE, GSS_S_BAD_MECH, GSS_S_BAD_NAME, GSS_S_BAD_STATUS,
    GSS_S_CALL_INACCESSIBLE_READ, GSS_S_CALL_INACCESSIBLE_WRITE, GSS_S_COMPLETE,
    GSS_S_CONTEXT_EXPIRED, GSS_S_CONTINUE_NEEDED, GSS_S_CRED_UNAVAIL, GSS_S_DEFECTIVE_CREDENTIAL,
    GSS_S_FAILURE, GSS_S_NO_CONTEXT, GSS_S_NO_CRED, GSS_S_UNAVAILABLE, IAKERB_MECH_OID,
    KRB5_MECH_OID, KRB5_OLD_MECH_OID, KRB5_WRONG_MECH_OID, NT_HOSTBASED_SERVICE_OID,
    NT_USER_NAME_OID,
};
use gssproxy::gpm::{AcceptSecContext, AcquireCred, InitSecContext};
use gssproxy::gssx::{
    GssxCred, GssxCredElement, GssxCtx, GssxMechInfo, GssxName, GssxNameAttr, GssxStatus, Opaque,
};
use gssproxy::interposer::attempt::{keep, Attempt, Operation, Turn};
use gssproxy::interposer::behavior::{enabled_from, get, parse_behavior, Behavior};
use gssproxy::interposer::context::{check_init, AcceptCall, AcceptStep, InitCall, InitStep};
use gssproxy::interposer::convert::{
    actual_mechs, cb_to_gssx, ccache_from_store, intern_oid, name_type_static, ChannelBindings,
    OidTable,
};
use gssproxy::interposer::creds::{
    added_times, gssi_acquire_cred_with_password, gssi_add_cred_from, gssi_export_cred,
    gssi_import_cred, gssi_import_cred_by_mech, gssi_inquire_cred, gssi_inquire_cred_by_mech,
    gssi_inquire_cred_by_oid, gssi_release_cred, gssi_set_cred_option, gssi_store_cred_into,
    password_named, AcquireCall, AcquireStep, CredUse, Inquiry, PasswordStep,
};
use gssproxy::interposer::ctxlife::{
    gssi_context_time, gssi_delete_sec_context, gssi_export_sec_context, gssi_import_sec_context,
    gssi_import_sec_context_by_mech, gssi_inquire_context, gssi_set_sec_context_option,
    local_context_name, no_local_context, option_failed, ContextInquiry, ContextTime, OptionStep,
};
use gssproxy::interposer::error::{map_error, unmap_error};
use gssproxy::interposer::handle::{
    creds_are_equal, ensure_local_ctx, get_local_def_creds, local_to_name, name_imported,
    name_to_local, remote_to_local_ctx, retrieve_remote_creds, store_remote_creds,
    store_remote_creds_arg, wrap_sec_ctx_token, CredHandle, CtxHandle, DefCreds, DefStep,
    LocalCtx, NameHandle, NameStep, OwnedOid,
};
use gssproxy::interposer::mechstatus::{
    cache, find_mech, gssi_display_status, gssi_indicate_mechs, gssi_inquire_mech_for_saslname,
    MechInquiry, MechStep, StatusText,
};
use gssproxy::interposer::msgprot;
use gssproxy::interposer::names::{
    compare_failed, gssi_compare_name, gssi_display_name, gssi_duplicate_name, gssi_import_name,
    gssi_import_name_by_mech, gssi_inquire_name, gssi_localname, gssi_release_any_name_mapping,
    gssi_release_name, local_name_wanted, local_names_only, localname_answered, localname_named,
    name_made_local, CompareStep, LocalnameStep, NameCopy, NameDisplay, NameInquiry, NameUse,
};
use gssproxy::interposer::oids::{base, gss_mech_interposer, interposer, is_krb5_oid, oid_equal};
use gssproxy::interposer::special::{
    gssi_internal_release_oid, is_registered_ptr, is_special_oid, Descriptor, Registry,
};
use gssproxy::proc::ResIndicateMechs;
use gssproxy::text::boolean_is_true;

const KRB5: &[u8] = b"\x2a\x86\x48\x86\xf7\x12\x01\x02\x02";
const IAKERB: &[u8] = b"\x2b\x06\x01\x05\x02\x05";

const DONE: (u32, u32) = (GSS_S_COMPLETE, 0);
const LOCAL_FAILURE: (u32, u32) = (GSS_S_NO_CRED, 7);
const REMOTE_FAILURE: (u32, u32) = (GSS_S_FAILURE, 9);

fn special(bytes: &[u8]) -> Vec<u8> {
    let mut out = GSSPROXY_INTERPOSER_OID.to_vec();
    out.extend_from_slice(bytes);
    out
}

fn remote_name(display: &[u8], name_type: &[u8]) -> GssxName {
    GssxName {
        display_name: Opaque::new(display.to_vec()),
        name_type: Opaque::new(name_type.to_vec()),
        ..Default::default()
    }
}

fn name_handle(remote: Option<GssxName>, local: usize) -> NameHandle {
    NameHandle { mech_type: None, remote, local }
}

fn cred_handle(remote: Option<GssxCred>, local: usize) -> CredHandle {
    CredHandle { remote, store: vec![], default_creds: false, local }
}

/// A context token of the daemon: the length of the mechanism, the mechanism, and
/// the token of the mechanism.
fn exported(mech: &[u8], token: &[u8]) -> Vec<u8> {
    let mut out = (mech.len() as u32).to_be_bytes().to_vec();
    out.extend_from_slice(mech);
    out.extend_from_slice(token);
    out
}

fn remote_ctx(token: Vec<u8>) -> GssxCtx {
    GssxCtx { exported_context_token: Opaque::new(token), ..Default::default() }
}

// ---- behavior and environment ----

#[test]
fn behavior_parsing_matches_c_names() {
    assert_eq!(parse_behavior(Some("LOCAL_ONLY")), Behavior::LocalOnly);
    assert_eq!(parse_behavior(Some("LOCAL_FIRST")), Behavior::LocalFirst);
    assert_eq!(parse_behavior(Some("REMOTE_FIRST")), Behavior::RemoteFirst);
    assert_eq!(parse_behavior(Some("REMOTE_ONLY")), Behavior::RemoteOnly);
}

#[test]
fn unknown_or_absent_behavior_uses_default() {
    assert_eq!(parse_behavior(None), Behavior::LocalFirst);
    assert_eq!(parse_behavior(Some("garbage")), Behavior::LocalFirst);
    assert_eq!(parse_behavior(Some("")), Behavior::LocalFirst);
}

#[test]
fn enabled_follows_gss_use_proxy() {
    assert!(!enabled_from(None));
    for truthy in ["1", "on", "true", "yes", "YES", "True"] {
        assert!(enabled_from(Some(truthy)), "{truthy:?} should enable");
    }
    for falsy in ["0", "off", "false", "no", "nonsense", ""] {
        assert!(!enabled_from(Some(falsy)), "{falsy:?} should disable");
    }
}

#[test]
fn boolean_is_true_matches_c_semantics() {
    for t in ["1", "on", "true", "yes", "YES", "  TrUe  ", "On"] {
        assert!(boolean_is_true(t), "{t:?} should be true");
    }
    for f in ["0", "off", "false", "no", "", "2", "enable"] {
        assert!(!boolean_is_true(f), "{f:?} should be false");
    }
}

#[test]
fn behavior_is_resolved_once() {
    let mut resolved = None;
    assert_eq!(get(&mut resolved, Some("REMOTE_ONLY")), Behavior::RemoteOnly);
    assert_eq!(get(&mut resolved, Some("LOCAL_ONLY")), Behavior::RemoteOnly);
    assert_eq!(get(&mut resolved, None), Behavior::RemoteOnly);
}

// ---- minor statuses ----

#[test]
fn map_unmap_round_trip() {
    assert_eq!(map_error(0), 0);
    assert_eq!(unmap_error(0), 0);
    assert_eq!(unmap_error(map_error(42)), 42);
    assert_eq!(map_error(1), 0x0420_0001);
}

#[test]
fn one_code_maps_to_zero() {
    let wraps = 0u32.wrapping_sub(0x0420_0000);
    assert_eq!(map_error(wraps), 0);
    assert_eq!(unmap_error(map_error(wraps)), 0);
    assert_eq!(map_error(wraps + 1), 1);
    assert_eq!(unmap_error(1), wraps + 1);
}

// ---- OIDs ----

#[test]
fn base_oids_have_stable_addresses() {
    let a = interposer();
    let b = interposer();
    assert_eq!(a, b, "the interposer OID must be stable");
}

#[test]
fn krb5_oid_recognised() {
    let b = base();
    assert!(is_krb5_oid(Some(&b.krb5)));
    assert!(is_krb5_oid(Some(&b.iakerb)));
    assert!(!is_krb5_oid(Some(&b.interposer)));
    assert!(!is_krb5_oid(None));
}

#[test]
fn oid_bytes_match_der() {
    let b = base();
    assert_eq!(b.krb5, KRB5);
    assert_eq!(b.interposer.len(), 11);
}

#[test]
fn oids_match_gssapi_sys_constants() {
    let b = base();
    assert_eq!(b.krb5, KRB5_MECH_OID);
    assert_eq!(b.krb5_old, KRB5_OLD_MECH_OID);
    assert_eq!(b.krb5_wrong, KRB5_WRONG_MECH_OID);
    assert_eq!(b.iakerb, IAKERB_MECH_OID);
    assert_eq!(b.interposer, GSSPROXY_INTERPOSER_OID);
}

#[test]
fn distinct_oids_are_not_equal() {
    let b = base();
    assert!(!oid_equal(Some(&b.krb5), Some(&b.krb5_old)));
    assert!(!oid_equal(Some(&b.krb5), Some(&b.krb5_wrong)));
    assert!(oid_equal(Some(&b.krb5), Some(&b.krb5)));
}

#[test]
fn absent_oids_are_equal_to_nothing() {
    assert!(!oid_equal(None, None));
    assert!(!oid_equal(Some(KRB5), None));
    assert!(!oid_equal(None, Some(KRB5)));
    assert!(oid_equal(Some(&[]), Some(&[])));
}

#[test]
fn mechanisms_are_taken_over_when_enabled() {
    let own = interposer();
    assert_eq!(gss_mech_interposer(false, Some(&own)), None);
    assert_eq!(gss_mech_interposer(true, Some(KRB5)), None);
    assert_eq!(gss_mech_interposer(true, None), None);
    let mechs = gss_mech_interposer(true, Some(&own)).unwrap();
    let b = base();
    assert_eq!(mechs, vec![b.krb5, b.krb5_old, b.krb5_wrong, b.iakerb]);
}

// ---- special OIDs ----

#[test]
fn special_round_trip() {
    let mut reg = Registry::new();
    assert!(!is_special_oid(Some(KRB5)));
    let sp = reg.special_mech(Some(KRB5));
    assert_eq!(sp, Descriptor::Entry(0));
    let sp_bytes = reg.special(0);
    assert!(is_special_oid(Some(&sp_bytes)));
    // The same mechanism has the same special OID.
    assert_eq!(reg.special_mech(Some(KRB5)), sp);
    assert_eq!(reg.len(), 1);
    // It is stripped back to the same bytes.
    assert_eq!(reg.unspecial_mech(Some(&sp_bytes)), Descriptor::Entry(0));
    assert_eq!(reg.regular(0), KRB5);
    assert_eq!(reg.unspecial_bytes(Some(&sp_bytes)).unwrap(), KRB5);
    // An OID that is already special is returned unchanged.
    assert_eq!(reg.special_mech(Some(&sp_bytes)), Descriptor::Given);
    assert!(is_registered_ptr(&[(0x10, 0x20)], 0x20));
}

#[test]
fn distinct_mechs_get_distinct_special_oids() {
    let mut reg = Registry::new();
    let sp_krb5 = reg.special_bytes(Some(KRB5)).unwrap();
    let sp_iakerb = reg.special_bytes(Some(IAKERB)).unwrap();
    assert_ne!(sp_krb5, sp_iakerb);
    // Each special OID strips back to its own mech.
    assert_eq!(reg.unspecial_bytes(Some(&sp_krb5)).unwrap(), KRB5);
    assert_eq!(reg.unspecial_bytes(Some(&sp_iakerb)).unwrap(), IAKERB);
}

#[test]
fn special_prefix_is_the_interposer_oid() {
    let mut reg = Registry::new();
    let sp = reg.special_bytes(Some(KRB5)).unwrap();
    let prefix = interposer();
    assert!(sp.starts_with(&prefix));
    assert_eq!(&sp[prefix.len()..], KRB5);
}

#[test]
fn unspecial_of_unknown_returns_input() {
    let reg = Registry::new();
    assert_eq!(reg.unspecial_mech(Some(KRB5)), Descriptor::Given);
    assert_eq!(reg.unspecial_bytes(Some(KRB5)).unwrap(), KRB5);
    assert!(!is_special_oid(Some(KRB5)));
}

#[test]
fn null_oid_is_not_special() {
    assert!(!is_special_oid(None));
}

#[test]
fn registry_only_grows_and_stays_consistent() {
    let mechs: Vec<Vec<u8>> = (0..24u8)
        .map(|i| vec![0x77, 0x10, i, 0x42, i.wrapping_mul(13).wrapping_add(1)])
        .collect();
    let mut reg = Registry::new();
    let mut seen: Vec<Option<Descriptor>> = vec![None; mechs.len()];
    for t in 0..8usize {
        for round in 0..64usize {
            let idx = (t * 7 + round) % mechs.len();
            let before = reg.len();
            let sp = reg.special_mech(Some(&mechs[idx]));
            assert!(reg.len() >= before);
            match seen[idx] {
                Some(prev) => assert_eq!(prev, sp),
                None => seen[idx] = Some(sp),
            }
        }
    }
    assert_eq!(reg.len(), mechs.len());
    for i in 0..mechs.len() {
        for j in 0..i {
            assert_ne!(seen[i], seen[j]);
        }
        let sp = special(&mechs[i]);
        assert_eq!(reg.unspecial_bytes(Some(&sp)).unwrap(), mechs[i]);
    }
}

#[test]
fn special_looking_mechanism_keeps_its_bytes() {
    let odd = special(b"\x01\x02");
    let mut reg = Registry::new();
    assert_eq!(reg.special_bytes(Some(&odd)).unwrap(), odd);
    assert_eq!(reg.unspecial_bytes(Some(&odd)).unwrap(), odd);
    // Unless its regular form was registered.
    reg.special_mech(Some(b"\x01\x02"));
    assert_eq!(reg.unspecial_bytes(Some(&odd)).unwrap(), b"\x01\x02");
}

#[test]
fn without_a_mechanism_the_first_one_is_used() {
    let mut reg = Registry::new();
    assert_eq!(reg.special_mech(None), Descriptor::Absent);
    assert_eq!(reg.special_bytes(None), None);
    reg.special_mech(Some(IAKERB));
    assert_eq!(reg.special_mech(None), Descriptor::Entry(0));
    assert_eq!(reg.special_bytes(None).unwrap(), special(IAKERB));
    assert_eq!(reg.unspecial_bytes(None), None);
}

#[test]
fn available_mechanisms_become_special() {
    let mut reg = Registry::new();
    assert_eq!(reg.special_available_mechs(&[]), None);
    let mechs = vec![KRB5.to_vec(), IAKERB.to_vec(), KRB5.to_vec()];
    reg.init_special_available_mechs(&mechs);
    assert_eq!(reg.len(), 2);
    assert_eq!(
        reg.special_available_mechs(&mechs).unwrap(),
        vec![special(KRB5), special(IAKERB), special(KRB5)]
    );
    assert_eq!(reg.len(), 2);
}

#[test]
fn registered_oids_are_not_released() {
    let addresses = [(0x10, 0x20), (0x30, 0x40)];
    assert!(!is_registered_ptr(&addresses, 0x50));
    assert_eq!(gssi_internal_release_oid(None, 0x99, &addresses), GSS_S_CONTINUE_NEEDED);
    assert_eq!(gssi_internal_release_oid(Some(0x99), 0x99, &addresses), GSS_S_COMPLETE);
    assert_eq!(gssi_internal_release_oid(Some(0x40), 0x99, &addresses), GSS_S_COMPLETE);
    assert_eq!(gssi_internal_release_oid(Some(0x50), 0x99, &addresses), GSS_S_CONTINUE_NEEDED);
}

// ---- conversions ----

#[test]
fn intern_oid_is_stable_and_round_trips() {
    let mut table = OidTable::new();
    let a = intern_oid(&mut table, b"\x2a\x86\x48");
    let b = intern_oid(&mut table, b"\x2a\x86\x48");
    // The same bytes have the same place.
    assert_eq!(a, b);
    assert_eq!(table.oid(a), b"\x2a\x86\x48");

    // Other bytes have another place.
    let c = intern_oid(&mut table, b"\x2a\x86\x49");
    assert_ne!(a, c);
    assert_eq!(table.oid(a), b"\x2a\x86\x48");
}

#[test]
fn name_type_static_maps_known_only() {
    let mut table = OidTable::new();
    assert!(name_type_static(&mut table, &NT_USER_NAME_OID).is_some());
    assert!(name_type_static(&mut table, b"\x99\x99\x99").is_none());
}

#[test]
fn channel_bindings_are_carried_over() {
    assert!(cb_to_gssx(None).is_none());
    let cb = cb_to_gssx(Some(ChannelBindings {
        initiator_addrtype: 2,
        initiator_address: vec![10, 0, 0, 1],
        acceptor_addrtype: 3,
        acceptor_address: vec![10, 0, 0, 2],
        application_data: b"data".to_vec(),
    }))
    .unwrap();
    assert_eq!(cb.initiator_addrtype, 2);
    assert_eq!(cb.initiator_address.as_slice(), [10, 0, 0, 1]);
    assert_eq!(cb.acceptor_addrtype, 3);
    assert_eq!(cb.acceptor_address.as_slice(), [10, 0, 0, 2]);
    assert_eq!(cb.application_data.as_slice(), b"data");
}

#[test]
fn mechanisms_of_a_credential_are_those_of_its_elements() {
    assert_eq!(actual_mechs(None), None);
    assert_eq!(actual_mechs(Some(&GssxCred::default())), None);
    let c = cred(b"alice", 2, b"ref");
    assert_eq!(actual_mechs(Some(&c)), Some(vec![vec![], vec![]]));
}

#[test]
fn first_ccache_of_a_store_is_used() {
    let store = vec![
        ("keytab".to_string(), "/k".to_string()),
        ("ccache".to_string(), "FILE:/a".to_string()),
        ("ccache".to_string(), "FILE:/b".to_string()),
    ];
    assert_eq!(ccache_from_store(&store).as_deref(), Some("FILE:/a"));
    assert_eq!(ccache_from_store(&vec![]), None);
}

// ---- handles ----

fn cred(name: &[u8], elements: usize, href: &[u8]) -> GssxCred {
    let mut c = GssxCred::default();
    c.desired_name.display_name = Opaque::new(name.to_vec());
    c.elements = vec![GssxCredElement::default(); elements];
    c.cred_handle_reference = Opaque::new(href.to_vec());
    c
}

#[test]
fn creds_are_equal_matches_c_fields() {
    // None/None is equal; None/Some is not.
    assert!(creds_are_equal(None, None));
    let a = cred(b"alice", 1, b"ref");
    assert!(!creds_are_equal(None, Some(&a)));
    assert!(!creds_are_equal(Some(&a), None));

    // Equal across the three compared fields.
    let b = cred(b"alice", 1, b"ref");
    assert!(creds_are_equal(Some(&a), Some(&b)));

    // Differ in display name / element count / handle reference.
    assert!(!creds_are_equal(Some(&a), Some(&cred(b"bob", 1, b"ref"))));
    assert!(!creds_are_equal(Some(&a), Some(&cred(b"alice", 2, b"ref"))));
    assert!(!creds_are_equal(Some(&a), Some(&cred(b"alice", 1, b"other"))));
}

#[test]
fn wrap_sec_ctx_token_layout() {
    let real = KRB5_MECH_OID;
    let token = b"\x01\x02\x03\x04payload";
    let mut reg = Registry::new();
    let out = wrap_sec_ctx_token(&mut reg, Some(&real), token).expect("wrap");
    assert!(out.len() > 4 + token.len());
    let mech_len = u32::from_be_bytes([out[0], out[1], out[2], out[3]]) as usize;
    assert_eq!(out.len(), 4 + mech_len + token.len());
    // The special mech embeds the real OID bytes as its suffix.
    let sp = &out[4..4 + mech_len];
    assert!(sp.ends_with(&real));
    assert_eq!(&out[4 + mech_len..], token);
}

#[test]
fn remote_context_is_imported_under_its_special_mechanism() {
    let mut reg = Registry::new();
    let ctx = CtxHandle { remote: Some(remote_ctx(exported(KRB5, b"inner"))), local: 0 };
    match ensure_local_ctx(&mut reg, Some(&ctx)) {
        Ok(LocalCtx::Import(t)) => assert_eq!(t, exported(&special(KRB5), b"inner")),
        other => panic!("unexpected {other:?}"),
    }
    let broken = CtxHandle { remote: Some(remote_ctx(vec![0, 0, 0, 9, 1])), local: 0 };
    assert!(matches!(ensure_local_ctx(&mut reg, Some(&broken)), Err((GSS_S_FAILURE, 0))));
    let local = CtxHandle { remote: None, local: 5 };
    assert!(matches!(ensure_local_ctx(&mut reg, Some(&local)), Ok(LocalCtx::Ready(5))));
    assert!(matches!(
        ensure_local_ctx(&mut reg, None),
        Err((GSS_S_CALL_INACCESSIBLE_READ, 0))
    ));
}

#[test]
fn imported_context_replaces_the_remote_one() {
    let mut ctx = CtxHandle { remote: Some(GssxCtx::default()), local: 0 };
    assert_eq!(remote_to_local_ctx(&mut ctx, (0, 3), 8), (0, 3));
    assert!(ctx.remote.is_none());
    assert_eq!(ctx.local, 8);
}

#[test]
fn remote_name_becomes_local_through_its_display_form() {
    let mut n = remote_name(b"user", &NT_USER_NAME_OID);
    match name_to_local(&mut n) {
        NameStep::Import { display, name_type } => {
            assert_eq!(display, b"user");
            assert_eq!(name_type, NT_USER_NAME_OID);
        }
        other => panic!("unexpected {other:?}"),
    }
    let mut odd = remote_name(b"user", b"\x01");
    assert!(matches!(
        name_to_local(&mut odd),
        NameStep::Done { status: (GSS_S_FAILURE, m), name: 0 } if m == ENOENT as u32
    ));
    let mut empty = GssxName::default();
    assert!(matches!(
        name_to_local(&mut empty),
        NameStep::Done { status: (GSS_S_BAD_NAME, 0), name: 0 }
    ));
}

#[test]
fn imported_name_is_canonicalized_for_its_mechanism() {
    let mut reg = Registry::new();
    assert!(matches!(
        name_imported(&mut reg, REMOTE_FAILURE, 3, Some(KRB5)),
        NameStep::Done { status: REMOTE_FAILURE, name: 0 }
    ));
    assert!(matches!(
        name_imported(&mut reg, DONE, 3, None),
        NameStep::Done { status: DONE, name: 3 }
    ));
    match name_imported(&mut reg, DONE, 3, Some(KRB5)) {
        NameStep::Canonicalize { name, mech } => {
            assert_eq!(name, 3);
            assert_eq!(mech, special(KRB5));
        }
        other => panic!("unexpected {other:?}"),
    }
}

#[test]
fn local_name_is_told_to_the_daemon() {
    assert_eq!(local_to_name(LOCAL_FAILURE, b"", None).0, GSS_S_NO_CRED);
    let (maj, min, n) = local_to_name(DONE, b"user", Some(&NT_USER_NAME_OID));
    assert_eq!((maj, min), DONE);
    assert_eq!(n.unwrap(), remote_name(b"user", &NT_USER_NAME_OID));
    let (_, _, untyped) = local_to_name(DONE, b"user", None);
    assert_eq!(untyped.unwrap(), remote_name(b"user", b""));
}

#[test]
fn stored_credential_is_retrieved() {
    let c = cred(b"alice", 1, b"ref");
    let kept = store_remote_creds_arg(&c);
    assert_eq!(kept.client, b"alice");
    let (maj, min, back) = retrieve_remote_creds(Ok(kept.ticket));
    assert_eq!((maj, min), DONE);
    assert_eq!(back, Some(c));
    assert_eq!(
        retrieve_remote_creds(Ok(vec![1, 2, 3])),
        (GSS_S_FAILURE, EIO as u32, None)
    );
    assert_eq!(retrieve_remote_creds(Err(2)), (GSS_S_FAILURE, 2, None));
    assert_eq!(store_remote_creds(Ok(())), DONE);
    assert_eq!(store_remote_creds(Err(28)), (GSS_S_FAILURE, 28));
}

#[test]
fn local_default_credentials_are_for_all_mechanisms() {
    let mut reg = Registry::new();
    assert_eq!(get_local_def_creds(&mut reg, false), Err((GSS_S_FAILURE, 0)));
    let mechs = get_local_def_creds(&mut reg, true).unwrap();
    let b = base();
    assert_eq!(
        mechs,
        vec![special(&b.krb5), special(&b.krb5_old), special(&b.krb5_wrong), special(&b.iakerb)]
    );
    assert_eq!(reg.len(), 4);
}

#[test]
fn default_credentials_are_stored_when_they_changed() {
    let (mut d, step) = DefCreds::get_def_creds(Behavior::LocalFirst, None);
    assert_eq!(step, DefStep::Local);
    assert_eq!(d.local_done(LOCAL_FAILURE, 0), DefStep::Retrieve);
    assert_eq!(d.retrieved((0, 0, Some(cred(b"a", 1, b"old")))), DefStep::Remote);
    let arg = d.remote_arg(GSS_C_INITIATE);
    assert_eq!(arg.input_cred_handle, Some(cred(b"a", 1, b"old")));
    let acq = AcquireCred {
        major: 0,
        minor: 0,
        cred: Some(cred(b"a", 1, b"new")),
        time_rec: 5,
    };
    assert_eq!(d.remote_done(acq), DefStep::Store);
    assert_eq!(d.stored(DONE), DefStep::Done(DONE));
    assert_eq!(d.cred.remote, Some(cred(b"a", 1, b"new")));
}

// ---- the order of attempts ----

fn carry_out(
    rule: Operation,
    behavior: Behavior,
    local: (u32, u32),
    remote: (u32, u32),
    again: (u32, u32),
) -> ((u32, u32), Vec<&'static str>) {
    let mut a = Attempt::begin(rule, behavior);
    let mut tried = vec![];
    loop {
        match a.turn {
            Turn::LocalFirst => {
                tried.push("local");
                a.local(local);
            }
            Turn::Remote => {
                tried.push("remote");
                a.remote(remote);
            }
            Turn::LocalLast => {
                tried.push("local");
                a.local(again);
            }
            Turn::Report(s) => return (s, tried),
        }
    }
}

#[test]
fn behaviors_order_the_attempts() {
    let again = (GSS_S_UNAVAILABLE, 11);
    for rule in [
        Operation::Initiate,
        Operation::Acquire,
        Operation::Impersonate,
        Operation::Defaults,
        Operation::Inquire,
    ] {
        let run = |b, l, r| carry_out(rule, b, l, r, again);
        assert_eq!(
            run(Behavior::LocalOnly, LOCAL_FAILURE, DONE),
            (LOCAL_FAILURE, vec!["local"])
        );
        assert_eq!(
            run(Behavior::RemoteOnly, DONE, REMOTE_FAILURE),
            (REMOTE_FAILURE, vec!["remote"])
        );
        assert_eq!(run(Behavior::LocalFirst, DONE, REMOTE_FAILURE), (DONE, vec!["local"]));
        assert_eq!(
            run(Behavior::LocalFirst, LOCAL_FAILURE, DONE),
            (DONE, vec!["local", "remote"])
        );
        assert_eq!(run(Behavior::RemoteFirst, DONE, DONE), (DONE, vec!["remote"]));
        let (reported, tried) = run(Behavior::LocalFirst, LOCAL_FAILURE, REMOTE_FAILURE);
        assert_eq!(reported, LOCAL_FAILURE);
        let (after, _) = run(Behavior::RemoteFirst, DONE, REMOTE_FAILURE);
        match rule {
            Operation::Inquire => assert_eq!(tried, ["local", "remote", "local"]),
            _ => assert_eq!(tried, ["local", "remote"]),
        }
        match rule {
            Operation::Acquire => assert_eq!(after, REMOTE_FAILURE),
            _ => assert_eq!(after, again),
        }
    }
}

#[test]
fn continuation_is_a_success_of_initiation() {
    let more = (GSS_S_CONTINUE_NEEDED, 0);
    assert_eq!(
        carry_out(Operation::Initiate, Behavior::LocalFirst, more, DONE, DONE),
        (more, vec!["local"])
    );
    assert!(keep(GSS_S_COMPLETE) && keep(GSS_S_CONTINUE_NEEDED) && !keep(GSS_S_FAILURE));
}

// ---- contexts ----

#[test]
fn initiation_needs_a_target_and_a_regular_mechanism() {
    assert_eq!(check_init(false, Some(KRB5)), Some(GSS_S_CALL_INACCESSIBLE_READ));
    assert_eq!(check_init(true, None), Some(GSS_S_BAD_MECH));
    assert_eq!(check_init(true, Some(&special(KRB5))), Some(GSS_S_BAD_MECH));
    assert_eq!(check_init(true, Some(KRB5)), None);
}

fn init_result(major: u32, minor: u32) -> InitSecContext {
    InitSecContext {
        major,
        minor,
        context: None,
        actual_mech: vec![],
        output_token: None,
        out_cred: None,
    }
}

#[test]
fn initiation_falls_back_to_the_daemon() {
    let name = name_handle(Some(remote_name(b"host@server", &NT_HOSTBASED_SERVICE_OID)), 0);
    let (mut call, step) =
        InitCall::gssi_init_sec_context(Behavior::LocalFirst, None, None, name);
    assert_eq!(step, InitStep::NameToLocal);
    assert_eq!(call.named(DONE, 4), InitStep::Local);
    assert_eq!(call.local_done(LOCAL_FAILURE, 0), InitStep::DefaultCreds);
    assert_eq!(call.defaulted(Some(cred(b"me", 1, b"r"))), InitStep::Remote);
    let arg = call.remote_arg(KRB5, 2, 60, None, Some(b"in"));
    assert_eq!(arg.mech_type.as_slice(), KRB5);
    assert_eq!(arg.req_flags, 2);
    assert_eq!(arg.time_req, 60);
    assert_eq!(arg.cred_handle, Some(cred(b"me", 1, b"r")));
    assert_eq!(arg.target_name.unwrap().display_name.as_slice(), b"host@server");
    assert_eq!(arg.input_token.unwrap().as_slice(), b"in");
    assert_eq!(arg.options[0].option.as_slice(), b"sync_modified_creds\0");
    assert_eq!(arg.options[0].value.as_slice(), b"default\0");
    let mut res = init_result(GSS_S_CONTINUE_NEEDED, 0);
    res.context = Some(GssxCtx { ctx_flags: 0x1_0000_0002, lifetime: 99, ..Default::default() });
    res.actual_mech = KRB5.to_vec();
    res.output_token = Some(b"out".to_vec());
    res.out_cred = Some(cred(b"me", 1, b"changed"));
    assert_eq!(call.remote_done(res), InitStep::Store);
    assert_eq!(call.stored(), InitStep::Done(GSS_S_CONTINUE_NEEDED, 0));
    let out = call.output.as_ref().unwrap();
    assert_eq!(out.actual_mech, KRB5);
    assert_eq!(out.output_token.as_deref(), Some(&b"out"[..]));
    assert_eq!(out.ret_flags, Some(2));
    assert_eq!(out.time_rec, Some(99));
    assert_eq!(call.cred.remote, Some(cred(b"me", 1, b"changed")));
    assert!(call.keeps_handle(GSS_S_CONTINUE_NEEDED));
}

#[test]
fn initiation_reports_the_first_failure_mapped() {
    let name = name_handle(None, 6);
    let (mut call, step) =
        InitCall::gssi_init_sec_context(Behavior::LocalFirst, None, None, name);
    assert_eq!(step, InitStep::Local);
    assert_eq!(call.local_done(LOCAL_FAILURE, 0), InitStep::LocalToName);
    assert_eq!(
        call.told_name((0, 0, Some(remote_name(b"x", b"")))),
        InitStep::DefaultCreds
    );
    assert_eq!(call.defaulted(None), InitStep::Remote);
    assert_eq!(
        call.remote_done(init_result(REMOTE_FAILURE.0, REMOTE_FAILURE.1)),
        InitStep::Done(LOCAL_FAILURE.0, map_error(LOCAL_FAILURE.1))
    );
    assert!(!call.keeps_handle(LOCAL_FAILURE.0));
}

#[test]
fn initiation_stays_with_a_local_context() {
    let ctx = CtxHandle { remote: None, local: 3 };
    let (call, step) = InitCall::gssi_init_sec_context(
        Behavior::RemoteOnly,
        Some(ctx),
        Some(cred_handle(None, 7)),
        name_handle(None, 6),
    );
    assert_eq!(step, InitStep::Local);
    assert_eq!(call.attempt.behavior, Behavior::LocalOnly);
    let ctx = CtxHandle { remote: None, local: 3 };
    let (_, step) = InitCall::gssi_init_sec_context(
        Behavior::LocalFirst,
        Some(ctx),
        Some(cred_handle(Some(cred(b"a", 1, b"r")), 0)),
        name_handle(None, 6),
    );
    assert_eq!(step, InitStep::Done(GSS_S_DEFECTIVE_CREDENTIAL, 0));
}

#[test]
fn a_name_that_cannot_be_told_ends_initiation() {
    let (mut call, step) =
        InitCall::gssi_init_sec_context(Behavior::RemoteOnly, None, None, name_handle(None, 6));
    assert_eq!(step, InitStep::LocalToName);
    assert_eq!(
        call.told_name((GSS_S_BAD_NAME, 4, None)),
        InitStep::Done(GSS_S_BAD_NAME, map_error(4))
    );
}

fn accept_result(major: u32, minor: u32) -> AcceptSecContext {
    AcceptSecContext {
        major,
        minor,
        context: None,
        actual_mech: vec![],
        src_name: None,
        output_token: None,
        delegated_cred: None,
    }
}

#[test]
fn acceptance_by_the_daemon() {
    let (mut call, step) =
        AcceptCall::gssi_accept_sec_context(Behavior::LocalFirst, None, None, true, true);
    assert_eq!(step, AcceptStep::DefaultCreds(Behavior::LocalFirst));
    assert_eq!(
        call.defaulted(DONE, cred_handle(Some(cred(b"s", 1, b"r")), 0)),
        AcceptStep::Remote
    );
    assert_eq!(call.to_release(), Some(&cred(b"s", 1, b"r")));
    let arg = call.remote_arg(b"token", None);
    assert_eq!(arg.input_token.as_slice(), b"token");
    assert!(arg.ret_deleg_cred);
    let mut res = accept_result(0, 0);
    res.context = Some(GssxCtx { ctx_flags: 5, lifetime: 6, ..Default::default() });
    res.src_name = Some(remote_name(b"client", b""));
    res.delegated_cred = Some(cred(b"d", 1, b"d"));
    assert_eq!(call.remote_done(res), AcceptStep::Done(0, 0));
    assert_eq!(call.name.as_ref().unwrap().remote, Some(remote_name(b"client", b"")));
    assert_eq!(call.deleg.as_ref().unwrap().remote, Some(cred(b"d", 1, b"d")));
    assert_eq!(call.output.as_ref().unwrap().ret_flags, Some(5));
    assert_eq!(call.output.as_ref().unwrap().time_rec, Some(6));
    assert!(call.keeps_handle(0));
}

#[test]
fn acceptance_stays_on_the_side_of_its_context() {
    let ctx = CtxHandle { remote: Some(GssxCtx::default()), local: 0 };
    let (_, step) = AcceptCall::gssi_accept_sec_context(
        Behavior::LocalFirst,
        Some(ctx),
        Some(cred_handle(None, 4)),
        false,
        false,
    );
    assert_eq!(step, AcceptStep::Done(GSS_S_DEFECTIVE_CREDENTIAL, 0));
    let ctx = CtxHandle { remote: None, local: 2 };
    let (mut call, step) = AcceptCall::gssi_accept_sec_context(
        Behavior::RemoteOnly,
        Some(ctx),
        Some(cred_handle(None, 4)),
        true,
        true,
    );
    assert_eq!(step, AcceptStep::Local);
    assert_eq!(
        call.local_done((GSS_S_CONTINUE_NEEDED, 3), 2, 8, 9),
        AcceptStep::Done(GSS_S_CONTINUE_NEEDED, map_error(3))
    );
    assert_eq!(call.name.as_ref().unwrap().local, 8);
    assert_eq!(call.deleg.as_ref().unwrap().local, 9);
    assert_eq!(call.to_release(), None);
}

#[test]
fn acceptance_needs_credentials() {
    let (mut call, _) =
        AcceptCall::gssi_accept_sec_context(Behavior::LocalFirst, None, None, false, false);
    assert_eq!(
        call.defaulted(LOCAL_FAILURE, cred_handle(None, 0)),
        AcceptStep::Done(LOCAL_FAILURE.0, map_error(LOCAL_FAILURE.1))
    );
    assert_eq!(
        call.defaulted(DONE, cred_handle(None, 0)),
        AcceptStep::Done(GSS_S_FAILURE, 0)
    );
    assert!(!call.keeps_handle(GSS_S_FAILURE));
}

// ---- credentials ----

fn acquired(major: u32, minor: u32, cred: Option<GssxCred>) -> AcquireCred {
    AcquireCred {
        major,
        minor,
        cred,
        time_rec: 3,
    }
}

#[test]
fn acquiring_prefers_the_daemon_with_a_kept_credential() {
    let (mut call, step) = AcquireCall::gssi_acquire_cred_from(
        true,
        Behavior::LocalFirst,
        Some("FILE:/cc"),
        Some(name_handle(None, 5)),
    );
    assert_eq!(step, AcquireStep::Retrieve);
    assert_eq!(call.out.store, vec![("ccache".to_string(), "FILE:/cc".to_string())]);
    assert_eq!(
        call.retrieved((0, 0, Some(cred(b"a", 1, b"old"))), true),
        AcquireStep::LocalToName
    );
    assert_eq!(
        call.told_name((0, 0, Some(remote_name(b"a", b"")))),
        AcquireStep::Remote
    );
    let arg = call.remote_arg(30, &[KRB5.to_vec()], GSS_C_BOTH);
    assert_eq!(arg.input_cred_handle, Some(cred(b"a", 1, b"old")));
    assert_eq!(arg.desired_name, Some(remote_name(b"a", b"")));
    assert_eq!(arg.desired_mechs[0].as_slice(), KRB5);
    assert!(arg.options.is_empty());
    assert_eq!(
        call.remote_done(acquired(0, 4, Some(cred(b"a", 1, b"new")))),
        AcquireStep::Store
    );
    assert_eq!(call.stored(DONE, 4), AcquireStep::Done(0, map_error(4)));
    assert_eq!(call.time_rec, Some(3));
    assert_eq!(call.actual_mechs, Some(vec![vec![]]));
}

#[test]
fn acquiring_goes_local_where_the_cache_holds_nothing() {
    let mut reg = Registry::new();
    let (mut call, _) = AcquireCall::gssi_acquire_cred_from(
        true,
        Behavior::RemoteFirst,
        Some("FILE:/cc"),
        Some(name_handle(Some(remote_name(b"a", b"")), 0)),
    );
    assert_eq!(call.retrieved((GSS_S_FAILURE, 2, None), true), AcquireStep::Prepare);
    assert_eq!(call.prepare(&mut reg, &[KRB5.to_vec()]), AcquireStep::NameToLocal);
    assert_eq!(call.mechs, vec![special(KRB5)]);
    assert_eq!(call.named(DONE, 9), AcquireStep::Local);
    assert_eq!(call.local_done(DONE, 77), AcquireStep::Done(0, 0));
    assert_eq!(call.out.local, 77);
}

#[test]
fn acquiring_reports_the_failures() {
    let mut reg = Registry::new();
    let (_, step) = AcquireCall::gssi_acquire_cred_from(false, Behavior::LocalFirst, None, None);
    assert_eq!(step, AcquireStep::Done(GSS_S_FAILURE, map_error(EINVAL as u32)));
    let (mut call, step) =
        AcquireCall::gssi_acquire_cred_from(true, Behavior::LocalOnly, None, None);
    assert_eq!(step, AcquireStep::Prepare);
    assert_eq!(call.prepare(&mut reg, &[]), AcquireStep::Done(GSS_S_BAD_MECH, 0));
    let (mut call, _) =
        AcquireCall::gssi_acquire_cred_from(true, Behavior::RemoteOnly, None, None);
    assert_eq!(call.retrieved((GSS_S_FAILURE, 2, None), false), AcquireStep::Remote);
    assert_eq!(
        call.remote_done(acquired(GSS_S_FAILURE, 9, None)),
        AcquireStep::Done(GSS_S_FAILURE, map_error(9))
    );
}

#[test]
fn impersonation_asks_for_it() {
    let (_, step) = AcquireCall::gssi_acquire_cred_impersonate_name(
        None,
        true,
        Behavior::RemoteOnly,
        None,
    );
    assert_eq!(step, AcquireStep::Done(GSS_S_NO_CRED, map_error(EINVAL as u32)));
    let imp = cred_handle(Some(cred(b"svc", 1, b"r")), 0);
    let (_, step) = AcquireCall::gssi_acquire_cred_impersonate_name(
        Some(&imp),
        false,
        Behavior::RemoteOnly,
        None,
    );
    assert_eq!(step, AcquireStep::Done(GSS_S_FAILURE, map_error(EINVAL as u32)));
    let (mut call, step) = AcquireCall::gssi_acquire_cred_impersonate_name(
        Some(&imp),
        true,
        Behavior::RemoteOnly,
        Some(name_handle(Some(remote_name(b"u", b"")), 0)),
    );
    assert_eq!(step, AcquireStep::Remote);
    let arg = call.remote_arg(0, &[], GSS_C_INITIATE);
    assert_eq!(arg.options[0].option.as_slice(), b"acquire_type\0");
    assert_eq!(arg.options[0].value.as_slice(), b"impersonate_name\0");
    assert_eq!(arg.input_cred_handle, Some(cred(b"svc", 1, b"r")));
    // What was acquired for another name is not stored.
    assert_eq!(
        call.remote_done(acquired(0, 0, Some(cred(b"u", 1, b"n")))),
        AcquireStep::Done(0, 0)
    );
}

#[test]
fn adding_asks_for_the_time_of_its_usage() {
    assert_eq!(
        gssi_add_cred_from(false, None, GSS_C_BOTH, 1, 2).unwrap_err(),
        GSS_S_CALL_INACCESSIBLE_WRITE
    );
    for (usage, time) in [(GSS_C_INITIATE, 10), (GSS_C_ACCEPT, 20), (GSS_C_BOTH, 20), (9, 0)] {
        let q = gssi_add_cred_from(true, Some(KRB5), usage, 10, 20).unwrap();
        assert_eq!(q.time_req, time);
        assert_eq!(q.desired_mechs, vec![KRB5.to_vec()]);
    }
    assert_eq!(added_times(0, GSS_C_INITIATE, 5), (Some(5), None));
    assert_eq!(added_times(0, GSS_C_ACCEPT, 5), (None, Some(5)));
    assert_eq!(added_times(0, GSS_C_BOTH, 5), (Some(5), Some(5)));
    assert_eq!(added_times(GSS_S_FAILURE, GSS_C_BOTH, 5), (None, None));
}

#[test]
fn passwords_are_never_sent() {
    let mut reg = Registry::new();
    let einval = Some(map_error(EINVAL as u32));
    let n = name_handle(Some(remote_name(b"u", b"")), 0);
    let mechs = [KRB5.to_vec()];
    let mut ask =
        |name, out, mechs, b| gssi_acquire_cred_with_password(&mut reg, name, out, mechs, b);
    assert_eq!(
        ask(None, true, Some(&mechs[..]), Behavior::LocalFirst).0,
        PasswordStep::Done(GSS_S_BAD_NAME, einval)
    );
    assert_eq!(
        ask(Some(&n), false, Some(&mechs[..]), Behavior::LocalFirst).0,
        PasswordStep::Done(GSS_S_FAILURE, einval)
    );
    assert_eq!(
        ask(Some(&n), true, None, Behavior::LocalFirst).0,
        PasswordStep::Done(GSS_S_CALL_INACCESSIBLE_READ, None)
    );
    assert_eq!(
        ask(Some(&n), true, Some(&mechs[..]), Behavior::RemoteOnly).0,
        PasswordStep::Done(GSS_S_FAILURE, einval)
    );
    assert_eq!(
        ask(Some(&n), true, Some(&[]), Behavior::LocalFirst).0,
        PasswordStep::Done(GSS_S_FAILURE, einval)
    );
    assert_eq!(
        ask(Some(&n), true, Some(&mechs[..]), Behavior::RemoteFirst),
        (PasswordStep::NameToLocal, vec![special(KRB5)])
    );
    assert_eq!(password_named(DONE), PasswordStep::Local);
    assert_eq!(
        password_named(REMOTE_FAILURE),
        PasswordStep::Done(REMOTE_FAILURE.0, Some(map_error(REMOTE_FAILURE.1)))
    );
}

#[test]
fn credential_inquiries_go_to_their_side() {
    let mut reg = Registry::new();
    assert!(matches!(gssi_inquire_cred(&cred_handle(None, 3)), Inquiry::Local));
    assert!(matches!(
        gssi_inquire_cred(&cred_handle(None, 0)),
        Inquiry::Done(GSS_S_FAILURE, 0)
    ));
    let c = cred_handle(Some(cred(b"alice", 1, b"r")), 0);
    match gssi_inquire_cred(&c) {
        Inquiry::Remote(info) => assert_eq!(info.major, GSS_S_COMPLETE),
        _ => panic!("expected a remote answer"),
    }
    let (local, sp) = gssi_inquire_cred_by_mech(&mut reg, &cred_handle(None, 3), Some(KRB5));
    assert!(matches!(local, Inquiry::Local));
    assert_eq!(sp.unwrap(), special(KRB5));
    let (remote, sp) = gssi_inquire_cred_by_mech(&mut reg, &c, Some(&special(KRB5)));
    assert!(sp.is_none());
    assert!(matches!(remote, Inquiry::Remote(_)));
}

#[test]
fn operations_on_one_credential() {
    let local = cred_handle(None, 3);
    let remote = cred_handle(Some(GssxCred::default()), 0);
    assert_eq!(gssi_inquire_cred_by_oid(None), CredUse::Refused(GSS_S_CALL_INACCESSIBLE_READ));
    assert_eq!(gssi_inquire_cred_by_oid(Some(&local)), CredUse::Local(3));
    assert_eq!(gssi_inquire_cred_by_oid(Some(&remote)), CredUse::Refused(GSS_S_UNAVAILABLE));
    assert_eq!(gssi_set_cred_option(None), CredUse::Refused(GSS_S_CALL_INACCESSIBLE_READ));
    assert_eq!(gssi_set_cred_option(Some(&local)), CredUse::Local(3));
    assert_eq!(gssi_set_cred_option(Some(&remote)), CredUse::Refused(GSS_S_UNAVAILABLE));
    assert_eq!(gssi_store_cred_into(None), CredUse::Refused(GSS_S_CALL_INACCESSIBLE_READ));
    assert_eq!(gssi_store_cred_into(Some(&local)), CredUse::Local(3));
    assert_eq!(gssi_store_cred_into(Some(&remote)), CredUse::Remote);
    assert_eq!(gssi_export_cred(None), CredUse::Refused(GSS_S_CALL_INACCESSIBLE_READ));
    assert_eq!(gssi_export_cred(Some(&local)), CredUse::Local(3));
    assert_eq!(gssi_export_cred(Some(&remote)), CredUse::Refused(GSS_S_CRED_UNAVAIL));
    assert_eq!(gssi_import_cred(), GSS_S_UNAVAILABLE);
    assert_eq!(gssi_release_cred(false, None), (GSS_S_CALL_INACCESSIBLE_READ, None));
    assert_eq!(gssi_release_cred(true, None), (0, Some(0)));
    assert_eq!(gssi_release_cred(true, Some((0, 4))), (0, Some(0)));
    assert_eq!(gssi_release_cred(true, Some((5, 4))), (5, Some(4)));
}

#[test]
fn exported_credential_is_wrapped_with_its_length() {
    let mut reg = Registry::new();
    assert_eq!(gssi_import_cred_by_mech(&mut reg, None, b"t"), Err(GSS_S_FAILURE));
    let out = gssi_import_cred_by_mech(&mut reg, Some(KRB5), b"tok").unwrap();
    let mut expected = 27u32.to_be_bytes().to_vec();
    expected.extend_from_slice(&special(KRB5));
    expected.extend_from_slice(b"tok");
    assert_eq!(out, expected);
}

// ---- contexts after they were established ----

#[test]
fn exporting_gives_the_context_up() {
    let mut ctx = CtxHandle { remote: Some(GssxCtx::default()), local: 4 };
    assert_eq!(gssi_export_sec_context(&mut ctx, GSS_S_FAILURE, 4), None);
    assert!(ctx.remote.is_some());
    assert_eq!(gssi_export_sec_context(&mut ctx, 0, 0), Some(GssxCtx::default()));
    assert!(ctx.remote.is_none() && ctx.local == 0);
    assert_eq!(gssi_import_sec_context(), GSS_S_UNAVAILABLE);
    assert_eq!(no_local_context((GSS_S_FAILURE, 3)), (GSS_S_FAILURE, map_error(3)));
}

#[test]
fn importing_wraps_the_token() {
    let mut reg = Registry::new();
    assert_eq!(gssi_import_sec_context_by_mech(&mut reg, None, b"t"), Err(GSS_S_FAILURE));
    assert_eq!(
        gssi_import_sec_context_by_mech(&mut reg, Some(KRB5), b"t"),
        Ok(exported(&special(KRB5), b"t"))
    );
}

#[test]
fn lifetime_of_a_context() {
    let with = |lifetime| CtxHandle {
        remote: Some(GssxCtx { lifetime, ..Default::default() }),
        local: 0,
    };
    assert_eq!(gssi_context_time(Some(&with(7))), ContextTime::Known(0, 7));
    assert_eq!(
        gssi_context_time(Some(&with(0))),
        ContextTime::Known(GSS_S_CONTEXT_EXPIRED, 0)
    );
    assert_eq!(
        gssi_context_time(Some(&CtxHandle { remote: None, local: 3 })),
        ContextTime::Local(3)
    );
    assert_eq!(
        gssi_context_time(Some(&CtxHandle { remote: None, local: 0 })),
        ContextTime::Refused(GSS_S_NO_CONTEXT)
    );
    assert_eq!(
        gssi_context_time(None),
        ContextTime::Refused(GSS_S_CALL_INACCESSIBLE_READ)
    );
}

#[test]
fn inquiry_about_a_remote_context() {
    let g = GssxCtx {
        mech: Opaque::new(KRB5.to_vec()),
        src_name: remote_name(b"src", b""),
        targ_name: remote_name(b"targ", b""),
        lifetime: 12,
        ctx_flags: 0x3e,
        locally_initiated: true,
        open: false,
        ..Default::default()
    };
    let ctx = CtxHandle { remote: Some(g), local: 0 };
    match gssi_inquire_context(Some(&ctx), true, false) {
        ContextInquiry::Remote(info) => {
            let src = info.src_name.unwrap();
            assert_eq!(src.remote, Some(remote_name(b"src", b"")));
            assert_eq!(src.mech_ptr(), Some(KRB5));
            assert!(info.targ_name.is_none());
            assert_eq!((info.lifetime, info.ctx_flags), (12, 0x3e));
            assert_eq!((info.locally_initiated, info.open), (1, 0));
        }
        _ => panic!("expected a remote answer"),
    }
    assert!(matches!(
        gssi_inquire_context(Some(&CtxHandle { remote: None, local: 2 }), true, true),
        ContextInquiry::Local(2)
    ));
    assert!(matches!(
        gssi_inquire_context(Some(&CtxHandle { remote: None, local: 0 }), true, true),
        ContextInquiry::Refused(GSS_S_CALL_INACCESSIBLE_READ)
    ));
    assert!(matches!(
        gssi_inquire_context(None, true, true),
        ContextInquiry::Refused(GSS_S_CALL_INACCESSIBLE_READ)
    ));
    let n = local_context_name(4, None);
    assert_eq!((n.local, n.mech_ptr()), (4, Some(&[][..])));
}

#[test]
fn options_and_deletion() {
    let mut reg = Registry::new();
    let remote = CtxHandle { remote: Some(remote_ctx(exported(KRB5, b"x"))), local: 0 };
    match gssi_set_sec_context_option(&mut reg, &remote) {
        OptionStep::Import(t) => assert_eq!(t, exported(&special(KRB5), b"x")),
        other => panic!("unexpected {other:?}"),
    }
    let broken = CtxHandle { remote: Some(remote_ctx(vec![1])), local: 0 };
    assert!(matches!(
        gssi_set_sec_context_option(&mut reg, &broken),
        OptionStep::Delete(GSS_S_FAILURE, 0)
    ));
    let none = CtxHandle { remote: None, local: 0 };
    assert!(matches!(gssi_set_sec_context_option(&mut reg, &none), OptionStep::Local(0)));
    assert_eq!(option_failed(DONE, true), None);
    assert_eq!(option_failed((5, 6), true), Some((5, Some(map_error(6)))));
    assert_eq!(option_failed((5, 6), false), Some((5, None)));
    assert_eq!(gssi_delete_sec_context(None, None), (0, None));
    assert_eq!(
        gssi_delete_sec_context(Some((5, 6)), Some((7, 8))),
        (5, Some(map_error(6)))
    );
    assert_eq!(
        gssi_delete_sec_context(Some(DONE), Some((7, 8))),
        (7, Some(map_error(8)))
    );
}

#[test]
fn message_protection_needs_a_local_context() {
    let mut reg = Registry::new();
    assert_eq!(msgprot::refuse((5, 0)), (5, None));
    assert_eq!(msgprot::refuse((5, 3)), (5, Some(map_error(3))));
    assert!(matches!(
        msgprot::ensure_local(&mut reg, None),
        Err((GSS_S_CALL_INACCESSIBLE_READ, None))
    ));
    let local = CtxHandle { remote: None, local: 5 };
    assert!(matches!(msgprot::ensure_local(&mut reg, Some(&local)), Ok(LocalCtx::Ready(5))));
}

// ---- mechanisms and statuses ----

fn mech_info(mech: &[u8]) -> GssxMechInfo {
    GssxMechInfo {
        mech: Opaque::new(mech.to_vec()),
        name_types: vec![Opaque::new(NT_USER_NAME_OID.to_vec())],
        mech_attrs: vec![Opaque::new(vec![1])],
        known_mech_attrs: vec![Opaque::new(vec![2]), Opaque::new(vec![3])],
        saslname_sasl_mech_name: Opaque::new(b"GS2-KRB5".to_vec()),
        saslname_mech_name: Opaque::new(b"krb5".to_vec()),
        saslname_mech_desc: Opaque::new(b"Kerberos 5".to_vec()),
        ..Default::default()
    }
}

#[test]
fn mechanism_table_answers_for_the_daemon() {
    let answer = (
        0,
        0,
        ResIndicateMechs { mechs: vec![mech_info(KRB5)], ..Default::default() },
    );
    let table = cache(&answer);
    assert!(table.ok);
    assert_eq!(find_mech(&table, Some(KRB5)).unwrap().mech, KRB5);
    assert_eq!(find_mech(&table, Some(IAKERB)).unwrap_err(), (GSS_S_BAD_MECH, 0));
    assert_eq!(find_mech(&table, None).unwrap_err(), (GSS_S_BAD_MECH, 0));
    let none = cache(&(GSS_S_FAILURE, 1, ResIndicateMechs::default()));
    assert_eq!(find_mech(&none, Some(KRB5)).unwrap_err(), (GSS_S_FAILURE, EIO as u32));

    let (mut q, step) = MechInquiry::begin(Behavior::LocalFirst);
    assert_eq!(step, MechStep::Local);
    assert_eq!(q.local_done(LOCAL_FAILURE), MechStep::Remote);
    let (step, names) = q.gssi_inquire_names_for_mech(&table, Some(KRB5));
    assert_eq!(step, MechStep::Done(0, 0));
    assert_eq!(names, Some(vec![NT_USER_NAME_OID.to_vec()]));

    let (mut q, _) = MechInquiry::begin(Behavior::RemoteOnly);
    let (step, attrs) = q.gssi_inquire_attrs_for_mech(&table, Some(KRB5));
    assert_eq!(step, MechStep::Done(0, 0));
    assert_eq!(attrs, Some((vec![vec![1]], vec![vec![2], vec![3]])));

    let (mut q, _) = MechInquiry::begin(Behavior::RemoteOnly);
    let (step, sasl) = q.gssi_inquire_saslname_for_mech(&table, Some(KRB5));
    assert_eq!(step, MechStep::Done(0, 0));
    assert_eq!(
        sasl,
        Some((b"GS2-KRB5".to_vec(), b"krb5".to_vec(), b"Kerberos 5".to_vec()))
    );

    let (mut q, _) = MechInquiry::begin(Behavior::RemoteFirst);
    let (step, names) = q.gssi_inquire_names_for_mech(&none, Some(KRB5));
    assert_eq!((step, names), (MechStep::Local, None));
    assert_eq!(q.local_done((5, 6)), MechStep::Done(5, map_error(6)));
    assert_eq!(gssi_indicate_mechs(), (GSS_S_FAILURE, 0));
    assert_eq!(gssi_inquire_mech_for_saslname(), GSS_S_UNAVAILABLE);
}

#[test]
fn saved_status_has_its_text() {
    let saved = Some(GssxStatus {
        minor_status: 42,
        minor_status_string: Opaque::new(b"out of luck".to_vec()),
        ..Default::default()
    });
    match gssi_display_status(&saved, map_error(42), GSS_C_MECH_CODE, 0) {
        StatusText::Text(t) => assert_eq!(t, b"out of luck"),
        other => panic!("unexpected {other:?}"),
    }
    assert!(matches!(
        gssi_display_status(&saved, map_error(42), GSS_C_MECH_CODE, 1),
        StatusText::Refused(GSS_S_FAILURE, Some(m)) if m == EINVAL as u32
    ));
    assert!(matches!(
        gssi_display_status(&saved, map_error(43), GSS_C_MECH_CODE, 0),
        StatusText::Local(43)
    ));
    assert!(matches!(
        gssi_display_status(&None, map_error(42), GSS_C_MECH_CODE, 0),
        StatusText::Local(42)
    ));
    assert!(matches!(
        gssi_display_status(&saved, 42, 1, 0),
        StatusText::Refused(GSS_S_BAD_STATUS, None)
    ));
}

// ---- names ----

#[test]
fn names_are_displayed() {
    let mut n = name_handle(Some(remote_name(b"user", &NT_USER_NAME_OID)), 0);
    match gssi_display_name(&mut n, true) {
        NameDisplay::Known(d, t) => {
            assert_eq!(d, b"user");
            assert_eq!(t.unwrap(), NT_USER_NAME_OID);
        }
        other => panic!("unexpected {other:?}"),
    }
    let mut odd = name_handle(Some(remote_name(b"user", b"\x01")), 0);
    assert!(matches!(
        gssi_display_name(&mut odd, true),
        NameDisplay::Refused(GSS_S_FAILURE, Some(m)) if m == map_error(ENOENT as u32)
    ));
    assert!(matches!(gssi_display_name(&mut odd, false), NameDisplay::Known(_, None)));
    let mut local = name_handle(None, 3);
    assert!(matches!(gssi_display_name(&mut local, true), NameDisplay::Local(3)));
    let mut none = name_handle(None, 0);
    assert!(matches!(
        gssi_display_name(&mut none, true),
        NameDisplay::Refused(GSS_S_BAD_NAME, None)
    ));
}

#[test]
fn displaying_keeps_the_rest_of_a_name() {
    let mut full = remote_name(b"user", &NT_USER_NAME_OID);
    full.exported_name = Opaque::new(b"exported".to_vec());
    full.exported_composite_name = Opaque::new(b"composite".to_vec());
    full.name_attributes = vec![GssxNameAttr {
        attr: Opaque::new(b"key".to_vec()),
        ..Default::default()
    }];
    let mut n = name_handle(Some(full), 0);
    assert!(matches!(gssi_display_name(&mut n, true), NameDisplay::Known(_, Some(_))));
    let mut after = n.remote.unwrap();
    assert!(matches!(name_to_local(&mut after), NameStep::Import { .. }));
    assert_eq!(after.display_name.0, b"user");
    assert_eq!(after.name_type.0, NT_USER_NAME_OID);
    assert_eq!(after.exported_name.0, b"exported");
    assert_eq!(after.exported_composite_name.0, b"composite");
    assert_eq!(after.name_attributes.len(), 1);
    assert_eq!(after.name_attributes[0].attr.0, b"key");
}

#[test]
fn names_for_the_local_mechanism() {
    let local = name_handle(None, 3);
    let mut remote = name_handle(Some(GssxName::default()), 0);
    let none = name_handle(None, 0);
    let refused = |maj, min| NameUse::Refused(maj, min);
    assert_eq!(local_names_only(None), refused(GSS_S_BAD_NAME, None));
    assert_eq!(local_names_only(Some(&none)), refused(GSS_S_BAD_NAME, None));
    assert_eq!(local_names_only(Some(&remote)), refused(GSS_S_UNAVAILABLE, Some(0)));
    assert_eq!(local_names_only(Some(&local)), NameUse::Local(3));
    assert_eq!(local_name_wanted(None), refused(GSS_S_CALL_INACCESSIBLE_READ, Some(0)));
    assert_eq!(local_name_wanted(Some(&remote)), NameUse::ToLocal);
    assert_eq!(local_name_wanted(Some(&none)), NameUse::Local(0));
    assert_eq!(
        gssi_release_any_name_mapping(None),
        refused(GSS_S_CALL_INACCESSIBLE_READ, Some(0))
    );
    assert_eq!(
        gssi_release_any_name_mapping(Some(&remote)),
        refused(GSS_S_UNAVAILABLE, Some(0))
    );
    assert_eq!(gssi_release_any_name_mapping(Some(&local)), NameUse::Local(3));
    assert_eq!(
        name_made_local(&mut remote, (5, 6), 9),
        refused(5, Some(map_error(6)))
    );
    assert_eq!(remote.local, 0);
    assert_eq!(name_made_local(&mut remote, DONE, 9), NameUse::Local(9));
    assert_eq!(remote.local, 9);
}

#[test]
fn names_are_imported_and_copied() {
    assert_eq!(gssi_import_name(), GSS_S_UNAVAILABLE);
    let refused = |m, n, t| gssi_import_name_by_mech(m, n, t).map(|_| ()).unwrap_err();
    assert_eq!(refused(None, None, None), (GSS_S_CALL_INACCESSIBLE_READ, None));
    assert_eq!(
        refused(Some(KRB5), None, Some(KRB5)),
        (GSS_S_CALL_INACCESSIBLE_READ, Some(0))
    );
    let h = match gssi_import_name_by_mech(Some(KRB5), Some(b"user"), Some(&NT_USER_NAME_OID)) {
        Ok(h) => h,
        Err(e) => panic!("refused: {e:?}"),
    };
    assert_eq!(h.remote, Some(remote_name(b"user", &NT_USER_NAME_OID)));
    match gssi_duplicate_name(Some(&h)) {
        NameCopy::Copied(c) => {
            assert_eq!(c.remote, h.remote);
            assert_eq!(c.mech_ptr(), Some(KRB5));
        }
        _ => panic!("expected a copy"),
    }
    let local = NameHandle {
        mech_type: Some(OwnedOid::new(KRB5.to_vec())),
        remote: None,
        local: 3,
    };
    assert!(matches!(gssi_duplicate_name(Some(&local)), NameCopy::Local(3, _)));
    assert!(matches!(gssi_duplicate_name(None), NameCopy::Refused(GSS_S_BAD_NAME)));
    assert_eq!(gssi_release_name(Some(&h)), GSS_S_COMPLETE);
    assert_eq!(gssi_release_name(Some(&NameHandle::empty())), GSS_S_BAD_NAME);
    assert_eq!(gssi_release_name(None), GSS_S_BAD_NAME);
}

#[test]
fn inquiry_about_a_name() {
    let mut g = remote_name(b"user", &NT_USER_NAME_OID);
    g.exported_name = Opaque::new(vec![1]);
    g.name_attributes = vec![GssxNameAttr {
        attr: Opaque::new(b"key".to_vec()),
        ..Default::default()
    }];
    match gssi_inquire_name(Some(&name_handle(Some(g), 0)), true) {
        NameInquiry::Known(mn, t, attrs) => {
            assert!(mn);
            assert_eq!(t.unwrap(), NT_USER_NAME_OID);
            assert_eq!(attrs, vec![b"key".to_vec()]);
        }
        other => panic!("unexpected {other:?}"),
    }
    assert!(matches!(
        gssi_inquire_name(Some(&name_handle(Some(remote_name(b"u", b"\x01")), 0)), true),
        NameInquiry::Untyped(false, GSS_S_FAILURE, m) if m == map_error(ENOENT as u32)
    ));
    let mut exported = remote_name(b"u", b"\x01");
    exported.exported_name = Opaque::new(b"exported".to_vec());
    assert!(matches!(
        gssi_inquire_name(Some(&name_handle(Some(exported), 0)), true),
        NameInquiry::Untyped(true, GSS_S_FAILURE, m) if m == map_error(ENOENT as u32)
    ));
    assert!(matches!(
        gssi_inquire_name(None, true),
        NameInquiry::Refused(GSS_S_BAD_NAME, None)
    ));
    assert!(matches!(
        gssi_inquire_name(Some(&name_handle(None, 4)), true),
        NameInquiry::Local(4)
    ));
}

#[test]
fn names_are_compared() {
    let done = |a: &NameHandle, b: &NameHandle| {
        assert_eq!(gssi_compare_name(Some(a), Some(b)), gssi_compare_name(Some(b), Some(a)));
        match gssi_compare_name(Some(a), Some(b)) {
            CompareStep::Done(0, Some(0), Some(equal)) => equal,
            other => panic!("unexpected {other:?}"),
        }
    };
    let a = name_handle(Some(remote_name(b"u", &NT_USER_NAME_OID)), 0);
    let same = name_handle(Some(remote_name(b"u", &NT_USER_NAME_OID)), 0);
    let other_type = name_handle(Some(remote_name(b"u", &NT_HOSTBASED_SERVICE_OID)), 0);
    let other_name = name_handle(Some(remote_name(b"v", &NT_USER_NAME_OID)), 0);
    assert!(done(&a, &same));
    assert!(!done(&a, &other_type));
    // Names that are displayed differently count as equal.
    assert!(done(&a, &other_name));
    let local = name_handle(None, 3);
    assert_eq!(gssi_compare_name(Some(&a), Some(&local)), CompareStep::FirstToLocal);
    assert_eq!(gssi_compare_name(Some(&local), Some(&a)), CompareStep::SecondToLocal);
    assert_eq!(gssi_compare_name(Some(&local), Some(&local)), CompareStep::Local(3, 3));
    let refused = CompareStep::Done(GSS_S_CALL_INACCESSIBLE_READ, None, None);
    assert_eq!(gssi_compare_name(None, Some(&a)), refused);
    assert_eq!(gssi_compare_name(Some(&local), Some(&name_handle(None, 0))), refused);
    assert_eq!(compare_failed((5, 6)), CompareStep::Done(5, Some(map_error(6)), None));
}

#[test]
fn local_user_names() {
    let remote = name_handle(Some(GssxName::default()), 0);
    assert!(matches!(gssi_localname(Some(&remote)), LocalnameStep::Remote));
    assert!(matches!(
        gssi_localname(Some(&name_handle(None, 3))),
        LocalnameStep::Local(3)
    ));
    assert!(matches!(
        gssi_localname(None),
        LocalnameStep::Done(GSS_S_CALL_INACCESSIBLE_READ, 0, None)
    ));
    match localname_answered(&remote, (0, 0, Some(b"alice".to_vec()))) {
        LocalnameStep::Done(0, 0, Some(n)) => assert_eq!(n, b"alice"),
        other => panic!("unexpected {other:?}"),
    }
    assert!(matches!(
        localname_answered(&remote, (GSS_S_FAILURE, ENOTSUP as u32, None)),
        LocalnameStep::ToLocal
    ));
    assert!(matches!(
        localname_answered(&remote, (GSS_S_FAILURE, 9, None)),
        LocalnameStep::Done(GSS_S_FAILURE, m, None) if m == map_error(9)
    ));
    let mut n = name_handle(Some(GssxName::default()), 0);
    assert!(matches!(localname_named(&mut n, DONE, 8), LocalnameStep::Local(8)));
    assert_eq!(n.local, 8);
}
