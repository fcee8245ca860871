//! The daemon: arguments, configuration, callers, and what it answers.

use gssproxy::consts::{
    EACCES, EINVAL, ENOMEM, ENOSYS, GSSX_C_ACCEPT, GSSX_C_BOTH, GSSX_C_INITIATE, GSS_C_ACCEPT,
    GSS_C_BOTH, GSS_C_INITIATE, GSS_S_CALL_BAD_STRUCTURE, GSS_S_CREDENTIALS_EXPIRED,
    GSS_S_CRED_UNAVAIL, GSS_S_DEFECTIVE_CREDENTIAL, GSS_S_FAILURE, GSS_S_NO_CRED,
    GSS_S_UNAVAILABLE, KRB5_MECH_OID, KRB5_NT_PRINCIPAL_NAME_OID, NT_EXPORT_NAME_OID,
    NT_STRING_UID_NAME_OID, NT_USER_NAME_OID,
};
use gssproxy::gpm;
use gssproxy::gssapi::seal::{CredHandle, SealError};
use gssproxy::gssapi::wrap::GssError;
use gssproxy::gssx::{
    GssxCallCtx, GssxCred, GssxHandle, GssxName, GssxOption, GssxStatus, Opaque,
};
use gssproxy::proc::{
    ArgGetMic, ArgImportAndCanonName, ArgIndicateMechs, ArgReleaseHandle, ArgStoreCred, GssxProc,
    ResGetMic, ResReleaseHandle, ResStoreCred,
};
use gssproxy::rpc::{encode_request, CallHeader, Message, ReplyBody};
use gssproxy::server::args::{
    log_level, parse_args_from, Args, LogLevel, Parsed, DEFAULT_CONF, DEFAULT_IDLE_TIMEOUT,
    DEFAULT_SOCKET,
};
use gssproxy::server::call::{program_for_pid, CallContext};
use gssproxy::server::config::{
    parse_flags, parse_numeric_flag, Config, ConfigError, Service, GP_CRED_KRB5, GP_SOCKET_NAME,
};
use gssproxy::server::conv::{
    context_info, cred_usage_to_gssx, export_gssx_cred, export_gssx_ctx, exported_context_type,
    gssx_to_cred_usage, gssx_to_name, import_gssx_cred, name_to_gssx, seal_error, sealed_cred,
    status_to_gssx, CtxInfo, ElementInfo, ExpCtxType,
};
use gssproxy::server::creds::{
    add_krb5_creds, allowed_mech, check_cred, cred_checked, environment_failed,
    get_cred_environment, get_formatted_string, parse_leading_uid, plan_environment,
    service_keytab, try_impersonate, AcqError, AcquireType, AddStep, CredInfo, CredsRegistry,
    NameCheck,
};
use gssproxy::server::dispatch::{
    answer, handle_request, refused_with, reply, Request, Verdict, GARBAGE_ARGS, PROC_UNAVAIL,
    PROG_UNAVAIL,
};
use gssproxy::server::extract::{extract_ccache, read_sealed_blob, ExtractStep, ReadStep};
use gssproxy::server::handlers::{
    begin_import, import_and_canon_name, indicate_mechs, localname_found, mechs_status,
    name_canonicalized, name_described, name_imported, survey, AttrFacts, MechDetails, MechFacts,
    NameTask,
};
use gssproxy::text;
use gssproxy::xdr::{Xdr, XdrDecoder, XdrEncoder};

const SOCK: &str = GP_SOCKET_NAME;

// ---- arguments ----

fn parse(args: &[&str]) -> Parsed {
    parse_args_from(&args.iter().map(|s| s.to_string()).collect())
}

fn run_args(args: &[&str]) -> Args {
    match parse(args) {
        Parsed::Run(a) => a,
        other => panic!("expected Run, got {other:?}"),
    }
}

#[test]
fn defaults_when_no_args() {
    let a = run_args(&[]);
    assert_eq!(a.socket, DEFAULT_SOCKET);
    assert_eq!(a.config, DEFAULT_CONF);
    assert!(!a.interactive && !a.daemon && !a.debug);
}

#[test]
fn parses_test_harness_invocation() {
    let a = run_args(&["-i", "-s", "/run/gp.sock", "-c", "/etc/gp.conf"]);
    assert!(a.interactive);
    assert_eq!(a.socket, "/run/gp.sock");
    assert_eq!(a.config, "/etc/gp.conf");
}

#[test]
fn long_options_and_inline_values() {
    let a = run_args(&["--socket=/s", "--config=/c", "--interactive"]);
    assert_eq!(a.socket, "/s");
    assert_eq!(a.config, "/c");
    assert!(a.interactive);
}

#[test]
fn config_dir_matches_c_capital_c_flag() {
    let a = run_args(&["-C", "/etc/gssproxy.d"]);
    assert_eq!(a.config_dir.as_deref(), Some("/etc/gssproxy.d"));
    let a = run_args(&["--configdir=/x"]);
    assert_eq!(a.config_dir.as_deref(), Some("/x"));
}

#[test]
fn debug_and_daemon_flags() {
    let a = run_args(&["-d", "-D"]);
    assert!(a.debug);
    assert!(a.daemon);
    let a = run_args(&["--debug-level", "3"]);
    assert_eq!(a.debug_level, 3);
    let a = run_args(&["--syslog-status", "-u"]);
    assert!(a.syslog_status);
    assert!(a.userproxy);
}

#[test]
fn version_and_help() {
    assert_eq!(parse(&["--version"]), Parsed::Version);
    assert_eq!(parse(&["-h"]), Parsed::Help);
    assert_eq!(parse(&["--help"]), Parsed::Help);
    assert_eq!(parse(&["--usage"]), Parsed::Help);
    assert_eq!(parse(&["-?"]), Parsed::Help);
}

#[test]
fn unknown_option_is_error() {
    assert!(matches!(parse(&["--bogus"]), Parsed::Error(_)));
    assert!(matches!(parse(&["-z"]), Parsed::Error(_)));
}

#[test]
fn missing_option_argument_is_error() {
    assert!(matches!(parse(&["-s"]), Parsed::Error(_)));
    assert!(matches!(parse(&["--config"]), Parsed::Error(_)));
    assert!(matches!(parse(&["--debug-level", "notanint"]), Parsed::Error(_)));
}

#[test]
fn idle_timeout_parses_like_c() {
    assert_eq!(run_args(&[]).idle_timeout, DEFAULT_IDLE_TIMEOUT);
    assert_eq!(run_args(&["--idle-timeout", "42"]).idle_timeout, 42);
    assert_eq!(run_args(&["--idle-timeout=7"]).idle_timeout, 7);
    assert!(matches!(parse(&["--idle-timeout", "x"]), Parsed::Error(_)));
    assert!(matches!(parse(&["--idle-timeout"]), Parsed::Error(_)));
}

#[test]
fn extract_ccache_options() {
    assert_eq!(
        parse(&["--extract-ccache", "FILE:/tmp/cc"]),
        Parsed::ExtractCcache { source: "FILE:/tmp/cc".into(), dest: None }
    );
    assert_eq!(
        parse(&["--extract-ccache=FILE:/a", "--into-ccache=FILE:/b"]),
        Parsed::ExtractCcache { source: "FILE:/a".into(), dest: Some("FILE:/b".into()) }
    );
}

#[test]
fn daemon_interactive_conflict_matches_c() {
    assert_eq!(parse(&["-D", "-i"]), Parsed::DaemonInteractiveConflict);
    assert_eq!(
        parse(&["--daemon", "--interactive"]),
        Parsed::DaemonInteractiveConflict
    );
    // Either alone is fine.
    assert!(matches!(parse(&["-D"]), Parsed::Run(_)));
    assert!(matches!(parse(&["-i"]), Parsed::Run(_)));
}

#[test]
fn version_precedence_matches_popt() {
    // The whole command line is read before --version is honored, so an unknown
    // option anywhere still errors.
    assert_eq!(parse(&["--version"]), Parsed::Version);
    assert_eq!(parse(&["-D", "--version"]), Parsed::Version);
    assert!(matches!(parse(&["--version", "--bogus"]), Parsed::Error(_)));
    // It wins over the -D/-i conflict and over extract-ccache.
    assert_eq!(parse(&["-D", "-i", "--version"]), Parsed::Version);
    assert_eq!(
        parse(&["--version", "--extract-ccache", "FILE:/x"]),
        Parsed::Version
    );
}

#[test]
fn known_flags_alone_run() {
    let a = run_args(&["-i", "-u", "--debug", "--userproxy", "--syslog-status"]);
    assert!(a.interactive && a.userproxy && a.debug && a.syslog_status && !a.daemon);
    assert_eq!(parse(&["-h", "--bogus"]), Parsed::Help);
    assert!(matches!(parse(&["--definitely-not-a-flag", "-h"]), Parsed::Error(_)));
}

#[test]
fn log_levels() {
    assert_eq!(log_level(false, 0), LogLevel::Info);
    assert_eq!(log_level(true, 0), LogLevel::Debug);
    assert_eq!(log_level(false, 1), LogLevel::Debug);
    assert_eq!(log_level(true, 2), LogLevel::Trace);
    assert_eq!(log_level(false, -1), LogLevel::Info);
}

// ---- configuration ----

fn config(content: &str) -> Result<Config, ConfigError> {
    Config::parse_str(content, SOCK, &[])
}

#[test]
fn parses_basic_service() {
    let cfg = config(
        "[gssproxy]\n\
         debug_level = 2\n\
         [service/nfs-server]\n\
         mechs = krb5\n\
         euid = 0\n\
         cred_store = keytab:/etc/krb5.keytab\n\
         cred_store = ccache:FILE:/var/lib/gssproxy/clients/krb5cc_%U\n\
         trusted = yes\n\
         kernel_nfsd = yes\n",
    )
    .unwrap();

    assert_eq!(cfg.debug_level, 2);
    assert_eq!(cfg.services.len(), 1);
    let svc = &cfg.services[0];
    assert_eq!(svc.name, "nfs-server");
    assert_eq!(svc.euid, 0);
    assert!(svc.trusted);
    assert!(svc.kernel_nfsd);
    assert_eq!(svc.mechs, GP_CRED_KRB5);
    assert_eq!(svc.cred_usage, GSS_C_BOTH);
    assert_eq!(
        svc.krb5_store,
        vec![
            ("keytab".to_string(), "/etc/krb5.keytab".to_string()),
            (
                "ccache".to_string(),
                "FILE:/var/lib/gssproxy/clients/krb5cc_%U".to_string()
            ),
        ]
    );
}

#[test]
fn cred_store_value_keeps_colons() {
    let cfg =
        config("[service/x]\nmechs = krb5\neuid = 5\ncred_store = ccache:FILE:/tmp/cc\n").unwrap();
    assert_eq!(
        cfg.services[0].krb5_store,
        vec![("ccache".to_string(), "FILE:/tmp/cc".to_string())]
    );
}

#[test]
fn missing_euid_is_fatal() {
    let err = config("[service/x]\nmechs = krb5\n").unwrap_err();
    assert!(matches!(err, ConfigError::Invalid(_)));
}

#[test]
fn missing_mechs_is_fatal() {
    let err = config("[service/x]\neuid = 0\n").unwrap_err();
    assert!(matches!(err, ConfigError::Invalid(_)));
}

#[test]
fn no_services_is_fatal() {
    let err = config("[gssproxy]\ndebug = true\n").unwrap_err();
    assert!(matches!(err, ConfigError::Invalid(_)));
}

#[test]
fn cred_usage_and_flags() {
    let cfg = config(
        "[service/x]\n\
         mechs = krb5\n\
         euid = 1000\n\
         cred_usage = initiate\n\
         filter_flags = +MUTUAL_AUTH, -DELEGATE\n\
         enforce_flags = +CONFIDENTIALITY\n",
    )
    .unwrap();
    let svc = &cfg.services[0];
    assert_eq!(svc.cred_usage, GSS_C_INITIATE);
    // default DELEG removed, MUTUAL added.
    assert_eq!(svc.filter_flags, 0x02);
    assert_eq!(svc.enforce_flags, 0x10);
}

#[test]
fn duplicate_euid_socket_program_is_fatal() {
    let err = config(
        "[service/a]\nmechs = krb5\neuid = 0\n\
         [service/b]\nmechs = krb5\neuid = 0\n",
    )
    .unwrap_err();
    assert!(matches!(err, ConfigError::Invalid(_)));
}

#[test]
fn distinct_euid_ok_and_matches() {
    let cfg = config(
        "[service/a]\nmechs = krb5\neuid = 0\n\
         [service/b]\nmechs = krb5\neuid = 1000\n",
    )
    .unwrap();
    assert_eq!(cfg.services.len(), 2);
    assert_eq!(cfg.match_service(1000, SOCK, None).unwrap().name, "b");
    assert_eq!(cfg.match_service(0, SOCK, None).unwrap().name, "a");
    assert!(cfg.match_service(42, SOCK, None).is_none());
}

#[test]
fn any_uid_matches_anyone() {
    let cfg =
        config("[service/any]\nmechs = krb5\neuid = 0\nallow_any_uid = yes\n").unwrap();
    assert_eq!(cfg.match_service(12345, SOCK, None).unwrap().name, "any");
}

#[test]
fn service_without_mechs_token_is_ignored() {
    // A mechs value with no recognized token yields no services -> fatal.
    let err = config("[service/x]\neuid = 0\nmechs = bogus\n").unwrap_err();
    assert!(matches!(err, ConfigError::Invalid(_)));
}

#[test]
fn relative_program_is_fatal() {
    let err =
        config("[service/x]\nmechs = krb5\neuid = 0\nprogram = relative/path\n").unwrap_err();
    assert!(matches!(err, ConfigError::Invalid(_)));
}

#[test]
fn malformed_document_is_a_parse_error() {
    let err = config("[unclosed\n").unwrap_err();
    assert!(matches!(err, ConfigError::Parse(_)));
    assert!(err.message().starts_with("config parse error: "));
    assert_eq!(
        ConfigError::Invalid("why".to_string()).message(),
        "invalid config: why"
    );
}

#[test]
fn euid_can_be_a_user_name() {
    let content = "[service/web]\nmechs = krb5\neuid = www\n";
    assert_eq!(Config::user_names(content).unwrap(), ["www"]);
    let users = [("www".to_string(), 33)];
    let cfg = Config::parse_str(content, SOCK, &users).unwrap();
    assert_eq!(cfg.services[0].euid, 33);
    assert!(matches!(config(content), Err(ConfigError::Invalid(_))));
}

#[test]
fn service_of_a_program_is_not_for_others() {
    let cfg = config(
        "[service/p]\nmechs = krb5\neuid = 0\nprogram = /usr/bin/p\n\
         [service/own]\nmechs = krb5\neuid = 0\nsocket = /run/own\n",
    )
    .unwrap();
    assert_eq!(cfg.match_service(0, SOCK, Some("/usr/bin/p")).unwrap().name, "p");
    assert!(cfg.match_service(0, SOCK, Some("/usr/bin/q")).is_none());
    assert_eq!(cfg.match_service(0, "/run/own", None).unwrap().name, "own");
    assert!(Config::empty(SOCK).match_service(0, SOCK, None).is_none());
}

#[test]
fn flags_are_added_and_removed() {
    assert_eq!(parse_flags("+0x20, -1", 0x03), 0x22);
    assert_eq!(parse_flags("", 7), 7);
    let chars = |s: &str| s.chars().collect::<Vec<char>>();
    assert_eq!(parse_numeric_flag(&chars("0x10")), Some(16));
    assert_eq!(parse_numeric_flag(&chars("12")), Some(12));
    assert_eq!(parse_numeric_flag(&chars("x")), None);
}

// ---- callers ----

fn config_with_service(socket: &str, euid: u32) -> Config {
    let content = format!(
        "[gssproxy]\n[service/test]\n  mechs = krb5\n  euid = {euid}\n  cred_store = keytab:/tmp/x\n"
    );
    Config::parse_str(&content, socket, &[]).expect("parse config")
}

#[test]
fn resolves_matching_service_by_uid() {
    let cfg = config_with_service("/run/gp.sock", 1000);
    let ctx = CallContext::resolve(&cfg, "/run/gp.sock", 1000, 1000, None, None);
    assert!(ctx.service.is_some(), "service should match euid 1000");
    assert_eq!(ctx.service.unwrap().name, "test");
}

#[test]
fn no_service_for_other_uid() {
    let cfg = config_with_service("/run/gp.sock", 1000);
    let ctx = CallContext::resolve(&cfg, "/run/gp.sock", 4242, 4242, None, None);
    assert!(ctx.service.is_none(), "no service should match a foreign uid");
}

#[test]
fn no_service_on_wrong_socket() {
    let cfg = config_with_service("/run/gp.sock", 1000);
    let ctx = CallContext::resolve(&cfg, "/run/other.sock", 1000, 1000, None, None);
    assert!(
        ctx.service.is_none(),
        "default-socket service must not match a different socket"
    );
}

#[test]
fn executable_of_a_peer() {
    assert_eq!(program_for_pid(Some(12)).as_deref(), Some("/proc/12/exe"));
    assert_eq!(program_for_pid(Some(0)), None);
    assert_eq!(program_for_pid(Some(-4)), None);
    assert_eq!(program_for_pid(None), None);
}

// ---- dispatch ----

fn context() -> CallContext {
    CallContext::anonymous(SOCK)
}

fn reply_of(body: &[u8]) -> (u32, ReplyBody, usize) {
    let mut d = XdrDecoder::new(body);
    let msg = Message::decode(&mut d).unwrap();
    (msg.xid, msg.reply.unwrap(), d.position())
}

fn refusal(body: &[u8]) -> (u32, ReplyBody) {
    match handle_request(&context(), body) {
        Verdict::Refused(out) => {
            let (xid, reply, _) = reply_of(&out);
            (xid, reply)
        }
        _ => panic!("expected a refusal"),
    }
}

fn call_with(change: fn(&mut CallHeader)) -> Vec<u8> {
    let mut msg = Message::call(9, 1);
    change(msg.call.as_mut().unwrap());
    let mut e = XdrEncoder::new();
    msg.encode(&mut e);
    e.into_bytes()
}

#[test]
fn request_of_the_client_is_accepted() {
    let body = encode_request(9, GssxProc::IndicateMechs.to_u32(), &ArgIndicateMechs::default());
    match handle_request(&context(), &body) {
        Verdict::Accepted(9, Request::IndicateMechs(arg)) => {
            assert_eq!(arg, ArgIndicateMechs::default())
        }
        _ => panic!("expected it to be accepted"),
    }
}

#[test]
fn only_calls_are_answered() {
    assert!(matches!(handle_request(&context(), b"junk"), Verdict::Ignored));
    let mut e = XdrEncoder::new();
    Message::reply_success(9).encode(&mut e);
    assert!(matches!(handle_request(&context(), e.as_bytes()), Verdict::Ignored));
}

#[test]
fn refusals_carry_the_xid() {
    assert!(matches!(
        refusal(&call_with(|c| c.prog += 1)),
        (9, ReplyBody::AcceptedOther { status: PROG_UNAVAIL, .. })
    ));
    match refusal(&call_with(|c| c.vers = 7)) {
        (9, ReplyBody::ProgMismatch { info, .. }) => {
            assert_eq!((info.low, info.high), (1, 1))
        }
        other => panic!("unexpected {other:?}"),
    }
    assert!(matches!(
        refusal(&call_with(|c| c.proc_num = 99)),
        (9, ReplyBody::AcceptedOther { status: PROC_UNAVAIL, .. })
    ));
    // Without its argument.
    assert!(matches!(
        refusal(&call_with(|_| ())),
        (9, ReplyBody::AcceptedOther { status: GARBAGE_ARGS, .. })
    ));
}

#[test]
fn procedures_without_gssapi_are_answered() {
    let ctx = context();
    let words = ["Unspecified".to_string(), "failure".to_string()];
    let store = Request::StoreCred(ArgStoreCred::default());
    assert_eq!(refused_with(&store), None);
    let out = answer(&ctx, 5, &store, &[]).unwrap();
    assert_eq!(out, reply(5, &ResStoreCred::default()));

    let mic = Request::GetMic(ArgGetMic::default());
    assert_eq!(refused_with(&mic), Some(GSS_S_FAILURE));
    let out = answer(&ctx, 6, &mic, &words).unwrap();
    let (xid, body, at) = reply_of(&out);
    assert_eq!(xid, 6);
    assert!(matches!(body, ReplyBody::AcceptedSuccess { .. }));
    let res = ResGetMic::decode(&mut XdrDecoder::new(&out[at..])).unwrap();
    assert_eq!(res.status.major_status, GSS_S_FAILURE as u64);
    assert_eq!(res.status.major_status_string.as_slice(), b"Unspecified, failure\0");

    let release = |cred_handle| {
        Request::ReleaseHandle(ArgReleaseHandle { call_ctx: GssxCallCtx::default(), cred_handle })
    };
    let cred = release(GssxHandle::Cred(GssxCred::default()));
    assert_eq!(refused_with(&cred), Some(GSS_S_UNAVAILABLE));
    let odd = release(GssxHandle::Extensions { handle_type: 9, data: Opaque::default() });
    assert_eq!(refused_with(&odd), Some(GSS_S_CALL_BAD_STRUCTURE));
    let out = answer(&ctx, 7, &odd, &words).unwrap();
    let (_, _, at) = reply_of(&out);
    let res = ResReleaseHandle::decode(&mut XdrDecoder::new(&out[at..])).unwrap();
    assert_eq!(res.status.major_status, GSS_S_CALL_BAD_STRUCTURE as u64);

    let mechs = Request::IndicateMechs(ArgIndicateMechs::default());
    assert!(answer(&ctx, 8, &mechs, &[]).is_none());
}

// ---- handlers ----

fn details(mech: u8, attrs: &[u8]) -> MechDetails {
    MechDetails {
        mech: vec![mech],
        name_types: vec![],
        mech_attrs: attrs.iter().map(|a| vec![*a]).collect(),
        known_mech_attrs: vec![vec![0xff]],
        sasl_mech_name: b"SASL".to_vec(),
        mech_name: b"name".to_vec(),
        mech_desc: b"desc".to_vec(),
    }
}

#[test]
fn mechanisms_are_surveyed() {
    let facts = vec![
        MechFacts::Known(details(1, &[7, 8])),
        MechFacts::Skipped,
        MechFacts::Known(details(2, &[8, 9])),
    ];
    let s = survey(&facts);
    assert_eq!(s.mechs.len(), 2);
    assert_eq!(s.mechs[1].mech.as_slice(), [2]);
    assert_eq!(s.mechs[0].saslname_sasl_mech_name.as_slice(), b"SASL");
    assert_eq!(s.failed, None);
    // Each attribute stands once.
    let mut sorted = s.attrs.clone();
    sorted.sort();
    sorted.dedup();
    assert_eq!(sorted.len(), s.attrs.len());
    assert!(s.attrs.contains(&vec![9]) && s.attrs.contains(&vec![0xff]));

    let attrs = vec![
        AttrFacts::Known {
            attr: vec![7],
            name: b"n".to_vec(),
            short_desc: b"s".to_vec(),
            long_desc: b"l".to_vec(),
        },
        AttrFacts::Failed(5, 6),
    ];
    assert_eq!(mechs_status(&s, &attrs), (5, 6));
    let res = indicate_mechs(&context(), &ArgIndicateMechs::default(), s, &attrs, &[], &[]);
    assert_eq!(res.status.major_status, 5);
    assert_eq!(res.mechs.len(), 2);
    assert_eq!(res.mech_attr_descs.len(), 1);
    assert_eq!(res.mech_attr_descs[0].short_desc.as_slice(), b"s");
}

#[test]
fn survey_ends_with_a_failure() {
    let facts = vec![
        MechFacts::Known(details(1, &[])),
        MechFacts::Failed(3, 4),
        MechFacts::Known(details(2, &[])),
    ];
    let s = survey(&facts);
    assert_eq!(s.mechs.len(), 1);
    assert_eq!(s.failed, Some((3, 4)));
    assert_eq!(mechs_status(&s, &vec![]), (3, 4));
}

#[test]
fn names_are_imported_and_described() {
    let mut arg = ArgImportAndCanonName::default();
    match begin_import(&arg) {
        NameTask::Done(o) => assert_eq!((o.major, o.minor), (GSS_S_FAILURE, EINVAL as u32)),
        _ => panic!("expected a failure"),
    }
    arg.input_name.display_name = Opaque::new(b"user".to_vec());
    arg.input_name.name_type = Opaque::new(NT_USER_NAME_OID.to_vec());
    match begin_import(&arg) {
        NameTask::Import(n) => {
            assert_eq!(n.value, b"user");
            assert_eq!(n.name_type.unwrap(), NT_USER_NAME_OID);
        }
        _ => panic!("expected an import"),
    }
    assert!(matches!(name_imported(&arg, Ok(())), NameTask::Describe));
    arg.mech = Opaque::new(KRB5_MECH_OID.to_vec());
    assert!(matches!(
        name_imported(&arg, Ok(())),
        NameTask::Canonicalize(m) if m == KRB5_MECH_OID
    ));
    assert!(matches!(name_canonicalized(Ok(())), NameTask::Describe));
    let n = GssxName { display_name: Opaque::new(b"U".to_vec()), ..Default::default() };
    match name_described(Ok(n.clone())) {
        NameTask::Done(o) => {
            let res = import_and_canon_name(&context(), &arg, o, &[], &[]);
            assert_eq!(res.output_name, Some(n));
            assert_eq!(res.status.mech.as_slice(), KRB5_MECH_OID);
        }
        _ => panic!("expected a result"),
    }
    arg.options = vec![gpm::option(b"localname\0", b"")];
    assert!(matches!(name_imported(&arg, Ok(())), NameTask::Localname(Some(_))));
    match localname_found(Ok(b"alice".to_vec())) {
        NameTask::Done(o) => {
            let res = import_and_canon_name(&context(), &arg, o, &[], &[]);
            assert_eq!(res.options[0].option.as_slice(), b"localname\0");
            assert_eq!(res.options[0].value.as_slice(), b"alice");
        }
        _ => panic!("expected a result"),
    }
    for failed in [
        name_imported(&arg, Err((5, 6))),
        localname_found(Err((5, 6))),
        name_canonicalized(Err((5, 6))),
        name_described(Err((5, 6))),
    ] {
        match failed {
            NameTask::Done(o) => assert_eq!((o.major, o.minor), (5, 6)),
            _ => panic!("expected a failure"),
        }
    }
}

// ---- conversions ----

fn gss_error(major: u32) -> GssError {
    GssError { major, minor: 3, messages: vec!["why".to_string()] }
}

#[test]
fn usages_come_back() {
    for (usage, wire) in [
        (GSS_C_BOTH, GSSX_C_BOTH),
        (GSS_C_INITIATE, GSSX_C_INITIATE),
        (GSS_C_ACCEPT, GSSX_C_ACCEPT),
    ] {
        assert_eq!(cred_usage_to_gssx(usage), wire);
        assert_eq!(gssx_to_cred_usage(wire), usage);
    }
    assert_eq!(cred_usage_to_gssx(8), 0);
    assert_eq!(gssx_to_cred_usage(8), 0);
}

#[test]
fn export_type_is_an_option() {
    let with = |v: &[u8]| vec![gpm::option(b"exported_context_type\0", v)];
    let none: Vec<GssxOption> = vec![];
    assert_eq!(exported_context_type(&none), ExpCtxType::Default);
    assert_eq!(exported_context_type(&with(b"linux_lucid_v1\0")), ExpCtxType::Lucid);
    assert_eq!(exported_context_type(&with(b"other")), ExpCtxType::Partial);
}

#[test]
fn names_on_the_wire() {
    let n = name_to_gssx(
        Ok((b"user".to_vec(), vec![1])),
        Ok(Some(b"exp".to_vec())),
        Ok(None),
    )
    .unwrap();
    assert_eq!(n.display_name.as_slice(), b"user");
    assert_eq!(n.exported_name.as_slice(), b"exp");
    assert!(n.exported_composite_name.is_empty());
    assert_eq!(
        name_to_gssx(Ok((vec![], vec![])), Err(gss_error(4)), Err(gss_error(5)))
            .unwrap_err()
            .major,
        4
    );
    let import = gssx_to_name(&GssxName {
        exported_name: Opaque::new(b"exp".to_vec()),
        ..Default::default()
    });
    assert_eq!(import.value, b"exp");
    assert_eq!(import.name_type.unwrap(), NT_EXPORT_NAME_OID);
    let untyped = gssx_to_name(&GssxName {
        display_name: Opaque::new(b"user".to_vec()),
        ..Default::default()
    });
    assert!(untyped.name_type.is_none());
}

#[test]
fn statuses_on_the_wire() {
    let words = |s: &[&str]| s.iter().map(|w| w.to_string()).collect::<Vec<_>>();
    let s = status_to_gssx(7, 9, Some(&[1]), &words(&["a", "b"]), &words(&["c"]));
    assert_eq!((s.major_status, s.minor_status), (7, 9));
    assert_eq!(s.mech.as_slice(), [1]);
    assert_eq!(s.major_status_string.as_slice(), b"a, b\0");
    assert_eq!(s.minor_status_string.as_slice(), b"c\0");
    let s = status_to_gssx(0, 0, None, &words(&["a"]), &words(&["c"]));
    assert_eq!(s, GssxStatus::default());
    let s = status_to_gssx(7, 0, None, &[], &[]);
    assert!(s.major_status_string.is_empty());
}

#[test]
fn credentials_on_the_wire() {
    let info = ElementInfo {
        name: None,
        usage: GSS_C_INITIATE,
        initiator_lifetime: 10,
        acceptor_lifetime: 0,
    };
    let c = export_gssx_cred(
        None,
        vec![(vec![1], None), (vec![2], Some(info))],
        b"sealed".to_vec(),
    );
    assert_eq!(c.elements.len(), 1);
    assert_eq!(c.elements[0].mech.as_slice(), [2]);
    assert_eq!(c.elements[0].cred_usage, GSSX_C_INITIATE);
    assert_eq!(c.elements[0].initiator_time_rec, 10);
    assert!(!c.needs_release);
    assert_eq!(sealed_cred(&c), Some(&b"sealed"[..]));
    assert_eq!(sealed_cred(&GssxCred::default()), None);
    assert_eq!(import_gssx_cred(Some(Ok(vec![1]))), Some(vec![1]));
    let broken = || SealError { code: -5, what: "krb5_c_decrypt".to_string() };
    assert_eq!(import_gssx_cred(Some(Err(broken()))), None);
    assert_eq!(import_gssx_cred(None), None);
    assert_eq!(
        seal_error(&broken()).messages,
        ["cred handle sealing failed: krb5_c_decrypt failed (krb5 error -5)"]
    );
}

fn ctx_info() -> CtxInfo {
    CtxInfo {
        mech: vec![1],
        src_name: None,
        targ_name: None,
        lifetime: 5,
        flags: 6,
        locally_initiated: false,
        open: true,
    }
}

#[test]
fn contexts_on_the_wire() {
    let c = context_info(Ok(ctx_info()), ExpCtxType::Default, None).unwrap();
    assert_eq!(c.mech.as_slice(), [1]);
    assert_eq!((c.lifetime, c.ctx_flags, c.locally_initiated, c.open), (5, 6, false, true));
    let c = export_gssx_ctx(c, Ok(b"token".to_vec())).unwrap();
    assert_eq!(c.exported_context_token.as_slice(), b"token");
    assert!(export_gssx_ctx(c, Err(gss_error(4))).is_err());
    let c = context_info(Err(gss_error(4)), ExpCtxType::Partial, Some(&[9])).unwrap();
    assert_eq!(c.mech.as_slice(), [9]);
    assert!(c.locally_initiated && !c.open);
    assert_eq!(
        context_info(Err(gss_error(4)), ExpCtxType::Default, None).unwrap_err().major,
        4
    );
    let lucid = context_info(Ok(ctx_info()), ExpCtxType::Lucid, None).unwrap_err();
    assert_eq!((lucid.major, lucid.minor), (GSS_S_FAILURE, ENOSYS as u32));
    assert_eq!(
        lucid.messages,
        ["linux_lucid_v1 context export is not implemented"]
    );
}

// ---- credentials ----

fn service(extra: &str) -> Service {
    let content = format!("[service/s]\nmechs = krb5\neuid = 7\n{extra}");
    config(&content).unwrap().services.remove(0)
}

#[test]
fn sealing_keys_are_kept_by_service() {
    let mut reg = CredsRegistry::new();
    let svc = service("cred_store = keytab:/k\n");
    assert_eq!(service_keytab(&svc).as_deref(), Some("/k"));
    assert!(!reg.get_or_init(&svc, None));
    assert!(reg.find(&svc).is_none());
    assert!(reg.get_or_init(&svc, Some(CredHandle { enctype: 18, key: vec![1] })));
    assert!(reg.get_or_init(&svc, Some(CredHandle { enctype: 17, key: vec![2] })));
    assert_eq!(reg.find(&svc).unwrap().enctype, 18);
}

#[test]
fn rules_of_a_service() {
    let svc = service("");
    assert!(allowed_mech(&svc, &KRB5_MECH_OID));
    assert!(!allowed_mech(&svc, &[1, 2]));
    assert!(!try_impersonate(&svc, GSS_C_INITIATE, AcquireType::ImpName));
    let trusted = service("trusted = yes\n");
    assert!(try_impersonate(&trusted, GSS_C_ACCEPT, AcquireType::ImpName));
    assert!(!try_impersonate(&trusted, GSS_C_BOTH, AcquireType::Normal));
    let imp = service("impersonate = yes\n");
    assert!(try_impersonate(&imp, GSS_C_BOTH, AcquireType::Normal));
    assert!(!try_impersonate(&imp, GSS_C_ACCEPT, AcquireType::Normal));
}

#[test]
fn configured_values_are_expanded() {
    let f = |v| get_formatted_string(v, 42, Some("bob"));
    assert_eq!(f("FILE:/tmp/cc_%U_%u_%%").as_deref(), Some("FILE:/tmp/cc_42_bob_%"));
    assert_eq!(f("plain").as_deref(), Some("plain"));
    assert_eq!(f("%x"), None);
    assert_eq!(f("end%"), None);
    assert_eq!(get_formatted_string("%u", 42, None), None);
}

#[test]
fn leading_uids() {
    assert_eq!(parse_leading_uid(b"1000"), 1000);
    assert_eq!(parse_leading_uid(b" \t42abc"), 42);
    assert_eq!(parse_leading_uid(b"abc"), 0);
    // The number ends at the first byte that is no digit.
    assert_eq!(parse_leading_uid(b"0 5"), 0);
    assert_eq!(parse_leading_uid(b"12 34"), 12);
    assert_eq!(parse_leading_uid(b"4294967296"), 0);
    assert_eq!(parse_leading_uid(b""), 0);
}

#[test]
fn environment_is_planned() {
    let svc = service("cred_usage = initiate\n");
    assert!(matches!(plan_environment(7, &svc, None, GSS_C_ACCEPT), Err(EACCES)));
    let plan = plan_environment(7, &svc, None, GSS_C_BOTH).unwrap();
    assert_eq!((plan.usage, plan.target_uid), (GSS_C_INITIATE, 7));
    assert!(plan.name.is_none() && !plan.service_keytab);

    let svc = service("trusted = yes\nkrb5_principal = host/x\n");
    let plan = plan_environment(7, &svc, None, GSS_C_BOTH).unwrap();
    assert!(plan.service_keytab);
    let name = plan.name.unwrap();
    assert_eq!(name.value, b"host/x\0");
    assert_eq!(name.name_type.unwrap(), KRB5_NT_PRINCIPAL_NAME_OID);
    let uid = GssxName {
        display_name: Opaque::new(b"1001".to_vec()),
        name_type: Opaque::new(NT_STRING_UID_NAME_OID.to_vec()),
        ..Default::default()
    };
    let plan = plan_environment(7, &svc, Some(&uid), GSS_C_BOTH).unwrap();
    assert_eq!(plan.target_uid, 1001);
    assert!(plan.name.is_none() && !plan.service_keytab);
    // Another caller may not ask for a uid.
    let plan = plan_environment(8, &svc, Some(&uid), GSS_C_BOTH).unwrap();
    assert_eq!(plan.target_uid, 8);
    assert_eq!(plan.name.unwrap().value, b"1001");
}

fn pairs(p: &[(&str, &str)]) -> Vec<(String, String)> {
    p.iter().map(|(k, v)| (k.to_string(), v.to_string())).collect()
}

#[test]
fn credential_store_is_made() {
    let svc = service("cred_store = keytab:/k\ncred_store = x:%U\n");
    let make = |svc: &Service, kt| get_cred_environment(svc, 5, None, true, kt, 99);
    assert_eq!(
        make(&svc, false),
        Ok(pairs(&[("keytab", "/k"), ("x", "5"), ("ccache", "MEMORY:internal_99")]))
    );
    assert_eq!(
        make(&svc, true),
        Ok(pairs(&[
            ("keytab", "/k"),
            ("x", "5"),
            ("client_keytab", "/k"),
            ("ccache", "MEMORY:internal_99")
        ]))
    );
    let both = service(
        "cred_store = client_keytab:/c\ncred_store = keytab:/k\ncred_store = ccache:/cc\n",
    );
    assert_eq!(
        make(&both, true),
        Ok(pairs(&[("client_keytab", "/k"), ("keytab", "/k"), ("ccache", "/cc")]))
    );
    let client = service("cred_store = client_keytab:/c\n");
    assert_eq!(make(&client, true), Ok(pairs(&[("client_keytab", "/c")])));
    let none = service("cred_store = x:y\n");
    assert_eq!(make(&none, true), Err(EINVAL));
    let bad = service("cred_store = x:%q\n");
    assert_eq!(make(&bad, false), Err(ENOMEM));
    assert_eq!(get_cred_environment(&svc, 5, None, false, false, 1), Err(EINVAL));
    assert_eq!(make(&service(""), true), Ok(vec![]));
}

#[test]
fn credentials_are_checked_before_reuse() {
    let svc = service("min_lifetime = 20\n");
    let info = |mech: &[u8], usage, lifetime| {
        Ok(CredInfo { mechs: vec![mech.to_vec()], usage, lifetime })
    };
    let check = |i: Result<CredInfo, u32>, n, u| check_cred(&svc, &i, n, u);
    let good = || info(&KRB5_MECH_OID, GSS_C_BOTH, 20);
    assert_eq!(check(good(), NameCheck::Any, GSS_C_BOTH), Ok(()));
    assert_eq!(check(good(), NameCheck::Compared(true), GSS_C_INITIATE), Ok(()));
    assert_eq!(check(Err(5), NameCheck::Any, GSS_C_BOTH), Err(5));
    assert_eq!(
        check(info(&[1], GSS_C_BOTH, 20), NameCheck::Any, GSS_C_BOTH),
        Err(GSS_S_CRED_UNAVAIL)
    );
    assert_eq!(check(good(), NameCheck::Failed(6), GSS_C_BOTH), Err(6));
    assert_eq!(
        check(good(), NameCheck::Compared(false), GSS_C_BOTH),
        Err(GSS_S_CRED_UNAVAIL)
    );
    assert_eq!(
        check(info(&KRB5_MECH_OID, GSS_C_ACCEPT, 20), NameCheck::Any, GSS_C_INITIATE),
        Err(GSS_S_NO_CRED)
    );
    for lifetime in [0, 19] {
        assert_eq!(
            check(info(&KRB5_MECH_OID, GSS_C_BOTH, lifetime), NameCheck::Any, GSS_C_BOTH),
            Err(GSS_S_CREDENTIALS_EXPIRED)
        );
    }
}

#[test]
fn acquiring_takes_its_steps() {
    let svc = service("");
    let unsupported = AddStep::Failed(AcqError { major: GSS_S_FAILURE, minor: ENOSYS as u32 });
    assert_eq!(add_krb5_creds(&svc, AcquireType::Normal, true, GSS_C_BOTH), AddStep::Check);
    assert_eq!(
        add_krb5_creds(&svc, AcquireType::Normal, false, GSS_C_BOTH),
        AddStep::Environment
    );
    assert_eq!(
        add_krb5_creds(&svc, AcquireType::ImpName, true, GSS_C_BOTH),
        AddStep::NameOnly
    );
    assert_eq!(
        add_krb5_creds(&service("trusted = yes\n"), AcquireType::ImpName, true, GSS_C_BOTH),
        unsupported
    );
    assert_eq!(cred_checked(Ok(())), AddStep::Reuse);
    for again in [GSS_S_CREDENTIALS_EXPIRED, GSS_S_NO_CRED, GSS_S_DEFECTIVE_CREDENTIAL] {
        assert_eq!(cred_checked(Err(again)), AddStep::Environment);
    }
    assert_eq!(
        cred_checked(Err(GSS_S_UNAVAILABLE)),
        AddStep::Failed(AcqError { major: GSS_S_CRED_UNAVAIL, minor: 0 })
    );
    assert_eq!(
        environment_failed(EACCES),
        AcqError { major: GSS_S_CRED_UNAVAIL, minor: EACCES as u32 }
    );
}

// ---- extraction ----

#[test]
fn sealed_token_is_extracted() {
    let cred = GssxCred {
        cred_handle_reference: Opaque::new(b"sealed".to_vec()),
        ..Default::default()
    };
    let blob = gpm::encode_cred(&cred);
    assert_eq!(read_sealed_blob(blob.clone()), Ok(blob.clone()));
    assert_eq!(extract_ccache(&blob), Ok(b"sealed".to_vec()));
    assert_eq!(
        read_sealed_blob(vec![]),
        Err("empty gssproxy credential ticket".to_string())
    );
    assert_eq!(extract_ccache(&blob[..3]), Err("decoding gssx_cred: Eof".to_string()));
    let mut odd = blob.clone();
    let last = odd.len() - 1;
    odd[last] = 7;
    assert_eq!(
        extract_ccache(&odd),
        Err("decoding gssx_cred: InvalidValue(\"bool\")".to_string())
    );
}

#[test]
fn extraction_says_what_failed() {
    let mut step = ReadStep::Context;
    let mut said = vec![];
    loop {
        said.push(step.done(false, "FILE:/cc").unwrap_err());
        let next = step.done(true, "FILE:/cc").unwrap();
        if next == step {
            break;
        }
        step = next;
    }
    assert_eq!(
        said,
        [
            "krb5_init_context failed",
            "invalid ccache name",
            "cannot resolve ccache FILE:/cc",
            "cannot read ccache principal",
            "cannot parse gssproxy server principal",
            "no gssproxy credential in ccache",
            "empty gssproxy credential ticket",
        ]
    );
    assert_eq!(ExtractStep::Derive.failed("x"), "deriving sealing key: x");
    assert_eq!(ExtractStep::Unseal.failed("x"), "decrypting credential handle: x");
    assert_eq!(ExtractStep::Import.failed("x"), "importing credential: x");
    assert_eq!(ExtractStep::Store.failed("x"), "storing credential: x");
}

// ---- texts ----

#[test]
fn blanks_are_those_of_unicode() {
    for n in 0..=0x11_0000u32 {
        if let Some(c) = char::from_u32(n) {
            assert_eq!(text::space(c), c.is_whitespace(), "U+{n:04X}");
        }
    }
}

#[test]
fn numbers_are_written_and_read() {
    let mut s = String::new();
    text::push_decimal(&mut s, 18446744073709551615);
    s.push(' ');
    text::push_signed(&mut s, i32::MIN);
    assert_eq!(s, "18446744073709551615 -2147483648");
    let chars = |s: &str| s.chars().collect::<Vec<char>>();
    assert_eq!(text::parse_i32(&chars("-2147483648")), Some(i32::MIN));
    assert_eq!(text::parse_i32(&chars("2147483648")), None);
    assert_eq!(text::parse_u32(&chars("ff"), 16), Some(255));
    assert_eq!(text::parse_u32(&chars(""), 10), None);
    assert_eq!(text::parse_i64(&chars("+5")), Some(5));
}
