//! What the command line asks for, who a caller is, and what is taken out of a cache.

use vstd::prelude::*;

use crate::gssx::GssxCred;
use crate::server::args;
use crate::server::args::{Args, ArgsModel, LogLevel, Opt, Parsed, ParsedModel, State};
use crate::server::call;
use crate::server::call::CallContext;
use crate::server::config;
use crate::server::config::Config;
use crate::server::config_laws;
use crate::server::extract;
use crate::server::extract::{ExtractStep, ReadStep};
use crate::text;
use crate::text_laws;
use crate::wire_laws;
use crate::xdr;
use crate::xdr::Xdr;

verus! {

// ---- the command line ----

/// Without arguments the daemon runs with its defaults.
pub proof fn what_runs_by_default(d: Args, argv: &Vec<String>, r: Parsed)
    requires
        call_ensures(Args::defaults, (), d),
        argv@.len() == 0,
        call_ensures(args::parse_args_from, (argv,), r),
    ensures
        d.socket@ == "/var/lib/gssproxy/default.sock"@,
        d.config@ == "/etc/gssproxy/gssproxy.conf"@,
        d.config_dir is None,
        !d.interactive && !d.daemon && !d.debug && !d.syslog_status && !d.userproxy,
        d.debug_level == 0 && d.idle_timeout == 1000,
        r is Run,
        r->Run_0@ == d@,
{
    assert(d@.config_dir is None);
    assert(config::strings_view(argv@).len() == 0);
}

proof fn lemma_plain(name: Seq<char>)
    requires
        !name.contains('='),
    ensures
        args::name_and_value(name) == (name, None::<Seq<char>>),
{
    text_laws::first_position(name, '=');
}

proof fn lemma_inline(name: Seq<char>, v: Seq<char>)
    requires
        !name.contains('='),
    ensures
        args::name_and_value(name.push('=') + v) == (name, Some(v)),
{
    text_laws::cut_at_the_first(name, '=', v);
}

/// Each name is that of one option, the short one and the long one alike.
#[verifier::rlimit(60)]
pub proof fn options_by_name()
    ensures
        args::option_named("-i"@) is Interactive && args::option_named("--interactive"@)
            is Interactive,
        args::option_named("-D"@) is Daemon && args::option_named("--daemon"@) is Daemon,
        args::option_named("-s"@) is Socket && args::option_named("--socket"@) is Socket,
        args::option_named("-c"@) is Conf && args::option_named("--config"@) is Conf,
        args::option_named("-C"@) is ConfDir && args::option_named("--configdir"@) is ConfDir,
        args::option_named("-u"@) is UserProxy && args::option_named("--userproxy"@) is UserProxy,
        args::option_named("-d"@) is Debug && args::option_named("--debug"@) is Debug,
        args::option_named("--debug-level"@) is DebugLevel,
        args::option_named("--syslog-status"@) is SyslogStatus,
        args::option_named("--idle-timeout"@) is IdleTimeout,
        args::option_named("--extract-ccache"@) is ExtractCcache,
        args::option_named("--into-ccache"@) is IntoCcache,
        args::option_named("--version"@) is Version,
        args::option_named("-h"@) is Help && args::option_named("--help"@) is Help
            && args::option_named("--usage"@) is Help && args::option_named("-?"@) is Help,
{
    reveal_strlit("-i");
    reveal_strlit("--interactive");
    reveal_strlit("-D");
    reveal_strlit("--daemon");
    reveal_strlit("-s");
    reveal_strlit("--socket");
    reveal_strlit("-c");
    reveal_strlit("--config");
    reveal_strlit("-C");
    reveal_strlit("--configdir");
    reveal_strlit("-u");
    reveal_strlit("--userproxy");
    reveal_strlit("-d");
    reveal_strlit("--debug");
    reveal_strlit("--debug-level");
    reveal_strlit("--syslog-status");
    reveal_strlit("--idle-timeout");
    reveal_strlit("--extract-ccache");
    reveal_strlit("--into-ccache");
    reveal_strlit("--version");
    reveal_strlit("-h");
    reveal_strlit("--help");
    reveal_strlit("--usage");
    reveal_strlit("-?");
    assert("-i"@.len() == 2 && "-i"@[1] == 'i');
    assert("-D"@.len() == 2 && "-D"@[1] == 'D');
    assert("-s"@.len() == 2 && "-s"@[1] == 's');
    assert("-c"@.len() == 2 && "-c"@[1] == 'c');
    assert("-C"@.len() == 2 && "-C"@[1] == 'C');
    assert("-u"@.len() == 2 && "-u"@[1] == 'u');
    assert("-d"@.len() == 2 && "-d"@[1] == 'd');
    assert("-h"@.len() == 2 && "-h"@[1] == 'h');
    assert("-?"@.len() == 2 && "-?"@[1] == '?');
    assert("--interactive"@.len() == 13 && "--interactive"@[5] == 'e');
    assert("--daemon"@.len() == 8 && "--daemon"@[2] == 'd');
    assert("--socket"@.len() == 8 && "--socket"@[2] == 's');
    assert("--config"@.len() == 8 && "--config"@[2] == 'c');
    assert("--configdir"@.len() == 11 && "--configdir"@[2] == 'c');
    assert("--userproxy"@.len() == 11 && "--userproxy"@[2] == 'u');
    assert("--debug"@.len() == 7 && "--debug"@[2] == 'd');
    assert("--debug-level"@.len() == 13 && "--debug-level"@[5] == 'u');
    assert("--syslog-status"@.len() == 15 && "--syslog-status"@[2] == 's');
    assert("--idle-timeout"@.len() == 14 && "--idle-timeout"@[2] == 'i');
    assert("--extract-ccache"@.len() == 16 && "--extract-ccache"@[2] == 'e');
    assert("--into-ccache"@.len() == 13 && "--into-ccache"@[5] == 'o');
    assert("--version"@.len() == 9 && "--version"@[2] == 'v');
    assert("--help"@.len() == 6 && "--help"@[2] == 'h');
    assert("--usage"@.len() == 7 && "--usage"@[2] == 'u');
}

/// No other name is that of an option that runs the daemon otherwise.
pub proof fn other_names_are_unknown(name: Seq<char>)
    ensures
        args::option_named(name) is Interactive ==> name == "-i"@ || name == "--interactive"@,
        args::option_named(name) is Daemon ==> name == "-D"@ || name == "--daemon"@,
        args::option_named(name) is Socket ==> name == "-s"@ || name == "--socket"@,
        args::option_named(name) is Conf ==> name == "-c"@ || name == "--config"@,
        args::option_named(name) is ConfDir ==> name == "-C"@ || name == "--configdir"@,
        args::option_named(name) is UserProxy ==> name == "-u"@ || name == "--userproxy"@,
        args::option_named(name) is Debug ==> name == "-d"@ || name == "--debug"@,
        args::option_named(name) is DebugLevel ==> name == "--debug-level"@,
        args::option_named(name) is SyslogStatus ==> name == "--syslog-status"@,
        args::option_named(name) is IdleTimeout ==> name == "--idle-timeout"@,
        args::option_named(name) is ExtractCcache ==> name == "--extract-ccache"@,
        args::option_named(name) is IntoCcache ==> name == "--into-ccache"@,
        args::option_named(name) is Version ==> name == "--version"@,
{
}

proof fn lemma_from(argv: Seq<Seq<char>>, i: int, j: int, st: State)
    requires
        0 <= i <= argv.len(),
        0 <= j <= argv.len() - i,
    ensures
        args::scanned(argv, i + j, st) == args::scanned(argv.skip(i), j, st),
    decreases argv.len() - i - j,
{
    let t = argv.skip(i);
    if j < t.len() {
        assert(t[j] == argv[i + j]);
        let (name, inline) = args::name_and_value(argv[i + j]);
        let opt = args::option_named(name);
        lemma_from(argv, i, j + 1, args::with_flag(st, opt));
        if inline is Some {
            if let Ok(after) = args::with_value(st, opt, inline->Some_0) {
                lemma_from(argv, i, j + 1, after);
            }
        } else if j + 1 < t.len() {
            assert(t[j + 1] == argv[i + j + 1]);
            if let Ok(after) = args::with_value(st, opt, argv[i + j + 1]) {
                lemma_from(argv, i, j + 2, after);
            }
        }
    }
}

/// Arguments add up: a flag in front is set for all the rest, and so is an option with its
/// value, in one argument or in two. The later of two values for an option counts.
pub proof fn arguments_add_up(
    rest: Seq<Seq<char>>,
    st: State,
    name: Seq<char>,
    v: Seq<char>,
)
    requires
        !name.contains('='),
    ensures
        args::option_named(name) is Debug ==> args::scanned(seq![name] + rest, 0, st)
            == args::scanned(rest, 0, (State { args: (ArgsModel { debug: true, ..st.args }), ..st })),
        args::option_named(name) is Daemon ==> args::scanned(seq![name] + rest, 0, st)
            == args::scanned(
            rest,
            0,
            (State { args: (ArgsModel { daemon: true, ..st.args }), ..st }),
        ),
        args::option_named(name) is Interactive ==> args::scanned(seq![name] + rest, 0, st)
            == args::scanned(
            rest,
            0,
            (State { args: (ArgsModel { interactive: true, ..st.args }), ..st }),
        ),
        args::option_named(name) is Socket ==> args::scanned(seq![name, v] + rest, 0, st)
            == args::scanned(
            rest,
            0,
            (State { args: (ArgsModel { socket: v, ..st.args }), ..st }),
        ) && args::scanned(seq![name.push('=') + v] + rest, 0, st) == args::scanned(
            rest,
            0,
            (State { args: (ArgsModel { socket: v, ..st.args }), ..st }),
        ),
        args::option_named(name) is Conf ==> args::scanned(seq![name, v] + rest, 0, st)
            == args::scanned(
            rest,
            0,
            (State { args: (ArgsModel { config: v, ..st.args }), ..st }),
        ) && args::scanned(seq![name.push('=') + v] + rest, 0, st) == args::scanned(
            rest,
            0,
            (State { args: (ArgsModel { config: v, ..st.args }), ..st }),
        ),
        args::option_named(name) is ExtractCcache ==> args::scanned(seq![name, v] + rest, 0, st)
            == args::scanned(rest, 0, (State { extract: Some(v), ..st })),
        args::option_named(name) is IntoCcache ==> args::scanned(seq![name, v] + rest, 0, st)
            == args::scanned(rest, 0, (State { into: Some(v), ..st })),
{
    lemma_plain(name);
    lemma_inline(name, v);
    let opt = args::option_named(name);
    let a = seq![name] + rest;
    let b = seq![name, v] + rest;
    let c = seq![name.push('=') + v] + rest;
    assert(a.skip(1) =~= rest && b.skip(2) =~= rest && c.skip(1) =~= rest);
    lemma_from(a, 1, 0, args::with_flag(st, opt));
    if let Ok(after) = args::with_value(st, opt, v) {
        lemma_from(b, 2, 0, after);
        lemma_from(c, 1, 0, after);
    }
    assert(b[0] == name && b[1] == v && c[0] == name.push('=') + v && a[0] == name);
}

/// The arguments, and what they come to.
proof fn lemma_one(argv: Seq<Seq<char>>, st: State)
    ensures
        argv.len() == 1 ==> args::scanned(argv, 1, st) == args::finished(st),
        argv.len() == 2 ==> args::scanned(argv, 2, st) == args::finished(st),
{
}

/// A lone flag switches on what it is for, and nothing else.
pub proof fn what_a_lone_flag_does(argv: &Vec<String>, r: Parsed, name: Seq<char>)
    requires
        argv@.len() == 1,
        argv@[0]@ == name,
        !name.contains('='),
        call_ensures(args::parse_args_from, (argv,), r),
    ensures
        args::option_named(name) is Help ==> r is Help,
        args::option_named(name) is Version ==> r is Version,
        args::option_named(name) is Unknown ==> r is Error,
        args::option_named(name) is Interactive ==> r is Run && r->Run_0.interactive
            && !r->Run_0.daemon && !r->Run_0.debug && !r->Run_0.syslog_status
            && !r->Run_0.userproxy,
        args::option_named(name) is Daemon ==> r is Run && r->Run_0.daemon
            && !r->Run_0.interactive && !r->Run_0.debug && !r->Run_0.syslog_status
            && !r->Run_0.userproxy,
        args::option_named(name) is Debug ==> r is Run && r->Run_0.debug && !r->Run_0.daemon
            && !r->Run_0.interactive && !r->Run_0.syslog_status && !r->Run_0.userproxy,
        args::option_named(name) is SyslogStatus ==> r is Run && r->Run_0.syslog_status
            && !r->Run_0.daemon && !r->Run_0.interactive && !r->Run_0.debug
            && !r->Run_0.userproxy,
        args::option_named(name) is UserProxy ==> r is Run && r->Run_0.userproxy
            && !r->Run_0.daemon && !r->Run_0.interactive && !r->Run_0.debug
            && !r->Run_0.syslog_status,
        args::option_named(name) is Socket || args::option_named(name) is Conf
            || args::option_named(name) is ConfDir ==> r is Error,
        args::option_named(name) is DebugLevel || args::option_named(name) is IdleTimeout
            || args::option_named(name) is ExtractCcache || args::option_named(name) is IntoCcache
            ==> r is Error,
        r is Run ==> r->Run_0.socket@ == "/var/lib/gssproxy/default.sock"@ && r->Run_0.config@
            == "/etc/gssproxy/gssproxy.conf"@ && r->Run_0.config_dir is None
            && r->Run_0.debug_level == 0 && r->Run_0.idle_timeout == 1000,
{
    let v = config::strings_view(argv@);
    assert(v.len() == 1 && v[0] == name);
    lemma_plain(name);
    let st = args::start();
    let opt = args::option_named(name);
    lemma_one(v, args::with_flag(st, opt));
    if r is Run {
        assert(r@ == ParsedModel::Run(r->Run_0@));
        assert(r->Run_0@.config_dir is None);
    }
}

/// An option with a value sets what it is for, and nothing else, whether the value stands
/// behind an equals sign or is the next argument.
pub proof fn what_a_lone_value_does(
    argv: &Vec<String>,
    r: Parsed,
    name: Seq<char>,
    v: Seq<char>,
    t: &[char],
    n: Option<i32>,
)
    requires
        !name.contains('='),
        argv@.len() == 1 && argv@[0]@ == name.push('=') + v || argv@.len() == 2 && argv@[0]@
            == name && argv@[1]@ == v,
        call_ensures(args::parse_args_from, (argv,), r),
        t@ == v,
        call_ensures(text::parse_i32, (t,), n),
        args::takes_value(args::option_named(name)),
    ensures
        args::option_named(name) is Socket ==> r is Run && r->Run_0.socket@ == v && r->Run_0.config@
            == "/etc/gssproxy/gssproxy.conf"@ && r->Run_0.config_dir is None,
        args::option_named(name) is Conf ==> r is Run && r->Run_0.config@ == v && r->Run_0.socket@
            == "/var/lib/gssproxy/default.sock"@ && r->Run_0.config_dir is None,
        args::option_named(name) is ConfDir ==> r is Run && r->Run_0.config_dir is Some
            && r->Run_0.config_dir->Some_0@ == v && r->Run_0.config@
            == "/etc/gssproxy/gssproxy.conf"@,
        args::option_named(name) is DebugLevel && n is Some ==> r is Run && r->Run_0.debug_level
            == n->Some_0 && r->Run_0.idle_timeout == 1000,
        args::option_named(name) is DebugLevel && n is None ==> r is Error,
        args::option_named(name) is IdleTimeout && n is Some ==> r is Run && r->Run_0.idle_timeout
            == n->Some_0 && r->Run_0.debug_level == 0,
        args::option_named(name) is IdleTimeout && n is None ==> r is Error,
        args::option_named(name) is ExtractCcache ==> r is ExtractCcache && r->source@ == v
            && r->dest is None,
        args::option_named(name) is IntoCcache ==> r is Run,
{
    let a = config::strings_view(argv@);
    assert(a.len() == argv@.len());
    assert(a[0] == argv@[0]@);
    if argv@.len() == 1 {
        lemma_inline(name, v);
    } else {
        lemma_plain(name);
        assert(a[1] == v);
    }
    let st = args::start();
    let opt = args::option_named(name);
    if let Ok(after) = args::with_value(st, opt, v) {
        lemma_one(a, after);
        assert(r@ == args::finished(after));
        if r is Run {
            assert(r@ == ParsedModel::Run(r->Run_0@));
            assert(r->Run_0@.config_dir == config::opt_view(r->Run_0.config_dir));
        }
        if r is ExtractCcache {
            assert(r@ == (ParsedModel::ExtractCcache {
                source: r->source@,
                dest: config::opt_view(r->dest),
            }));
        }
    }
}

/// The options that take a value.
pub proof fn options_with_values(opt: Opt)
    ensures
        opt is Socket || opt is Conf || opt is ConfDir ==> args::takes_value(opt),
        opt is DebugLevel || opt is IdleTimeout || opt is ExtractCcache || opt is IntoCcache
            ==> args::takes_value(opt),
        opt is Interactive || opt is Daemon || opt is UserProxy || opt is Debug
            || opt is SyslogStatus || opt is Version || opt is Help ==> !args::takes_value(opt),
{
}

/// Options add up: one that stands behind the others is read on top of what they set.
pub proof fn what_arguments_come_to(st: State)
    ensures
        st.version ==> args::finished(st) is Version,
        !st.version && st.extract is Some ==> args::finished(st) == (ParsedModel::ExtractCcache {
            source: st.extract->Some_0,
            dest: st.into,
        }),
        !st.version && st.extract is None && st.args.daemon && st.args.interactive
            ==> args::finished(st) is DaemonInteractiveConflict,
        !st.version && st.extract is None && !(st.args.daemon && st.args.interactive)
            ==> args::finished(st) == ParsedModel::Run(st.args),
{
}

/// More debugging gives a finer log.
pub proof fn levels_of_the_log(debug: bool, level: i32, r: LogLevel)
    requires
        call_ensures(args::log_level, (debug, level), r),
    ensures
        level >= 2 ==> r is Trace,
        level == 1 ==> r is Debug,
        level < 1 && debug ==> r is Debug,
        level < 1 && !debug ==> r is Info,
{
}

// ---- callers ----

/// The program of a process is read through its link under `/proc`.
pub proof fn program_of_a_process(pid: Option<i32>, r: Option<String>)
    requires
        call_ensures(call::program_for_pid, (pid,), r),
    ensures
        pid is None ==> r is None,
        pid is Some && pid->Some_0 <= 0 ==> r is None,
        pid is Some && pid->Some_0 > 0 ==> r is Some && r->Some_0@ == "/proc/"@ + text::decimal(
            pid->Some_0 as nat,
        ) + "/exe"@,
{
}

/// A caller is who the socket says, and gets the service that the connection belongs to.
pub proof fn callers_are_resolved(
    cfg: &Config,
    socket: &str,
    uid: u32,
    gid: u32,
    pid: Option<i32>,
    program: Option<String>,
    r: CallContext,
    i: int,
)
    requires
        call_ensures(CallContext::resolve, (cfg, socket, uid, gid, pid, program), r),
    ensures
        r.uid == uid && r.gid == gid && r.pid == pid && r.program == program,
        r.socket@ == socket@,
        r.service matches Some(svc) ==> {
            &&& svc.any_uid || svc.euid == uid
            &&& svc.program is Some ==> program is Some && program->Some_0@
                == svc.program->Some_0@
            &&& svc.socket is Some ==> svc.socket->Some_0@ == socket@
            &&& svc.socket is None ==> cfg.socket_name@ == socket@
        },
        0 <= i < cfg.services@.len() && (cfg.services@[i].any_uid || cfg.services@[i].euid == uid)
            && config_laws::listens_on(cfg.services@[i], *cfg, socket@)
            && cfg.services@[i].program is None ==> r.service is Some,
{
    if let Some(svc) = r.service {
        let k = choose|k: int|
            config::is_match(
                cfg.services@,
                cfg.socket_name@,
                uid,
                socket@,
                config::opt_view(program),
                k,
            ) && (#[trigger] cfg.services@[k])@ == svc@;
        assert(svc@.program == config::opt_view(svc.program));
        assert(svc@.socket == config::opt_view(svc.socket));
        assert(config::serves(svc@, cfg.socket_name@, uid, socket@, config::opt_view(program)));
    }
    if 0 <= i < cfg.services@.len() && (cfg.services@[i].any_uid || cfg.services@[i].euid == uid)
        && config_laws::listens_on(cfg.services@[i], *cfg, socket@) && cfg.services@[i].program
        is None {
        let s = cfg.services@[i];
        assert(s@.program is None);
        assert(config::serves(s@, cfg.socket_name@, uid, socket@, config::opt_view(program)));
    }
}

/// Nobody in particular has no service.
pub proof fn anonymous_callers(socket: &str, r: CallContext)
    requires
        call_ensures(CallContext::anonymous, (socket,), r),
    ensures
        r.service is None && r.program is None && r.pid is None,
        r.uid == u32::MAX && r.gid == u32::MAX,
        r.socket@ == socket@,
{
}

// ---- extracting ----

/// The steps of reading a cache come one after another, and a step that fails says which.
pub proof fn steps_of_reading(s: ReadStep, ok: bool, name: &str, r: Result<ReadStep, String>)
    requires
        call_ensures(ReadStep::done, (s, ok, name), r),
    ensures
        r is Ok <==> ok,
        ok && s is Context ==> r->Ok_0 is Name,
        ok && s is Name ==> r->Ok_0 is Resolve,
        ok && s is Resolve ==> r->Ok_0 is Client,
        ok && s is Client ==> r->Ok_0 is Server,
        ok && s is Server ==> r->Ok_0 is Retrieve,
        ok && s is Retrieve ==> r->Ok_0 is Ticket,
        !ok && s is Context ==> r->Err_0@ == "krb5_init_context failed"@,
        !ok && s is Name ==> r->Err_0@ == "invalid ccache name"@,
        !ok && s is Resolve ==> r->Err_0@ == "cannot resolve ccache "@ + name@,
        !ok && s is Client ==> r->Err_0@ == "cannot read ccache principal"@,
        !ok && s is Server ==> r->Err_0@ == "cannot parse gssproxy server principal"@,
        !ok && s is Retrieve ==> r->Err_0@ == "no gssproxy credential in ccache"@,
        !ok && s is Ticket ==> r->Err_0@ == "empty gssproxy credential ticket"@,
{
}

/// A ticket is what is kept in the cache, and must hold something.
pub proof fn tickets_hold_something(ticket: Vec<u8>, r: Result<Vec<u8>, String>)
    requires
        call_ensures(extract::read_sealed_blob, (ticket,), r),
    ensures
        ticket@.len() > 0 ==> r is Ok && r->Ok_0@ == ticket@,
        ticket@.len() == 0 ==> r is Err && r->Err_0@ == "empty gssproxy credential ticket"@,
{
}

/// What is extracted of a kept credential is its reference, the sealed form.
pub proof fn what_is_extracted(blob: &[u8], r: Result<Vec<u8>, String>, cred: GssxCred)
    requires
        call_ensures(extract::extract_ccache, (blob,), r),
        cred.canonical(),
        xdr::sized(cred.tree()),
    ensures
        blob@ == wire_laws::wire(cred) ==> r is Ok && r->Ok_0@ == cred.cred_handle_reference@,
        blob@.len() == 0 ==> r is Err,
{
    extract::kept_reference_is_extracted(cred);
    if blob@.len() == 0 {
        cred.lemma_fits();
        wire_laws::gssx_cred_on_the_wire(cred);
        crate::xdr_laws::prefix_is_rejected_at(GssxCred::shape(), cred.tree(), Seq::empty(), 0);
        assert(Seq::<u8>::empty() + xdr::bytes(cred.tree()).take(0) =~= blob@);
    }
}

/// A failure to extract says at which step.
pub proof fn extraction_that_fails(s: ExtractStep, e: &str, r: String)
    requires
        call_ensures(ExtractStep::failed, (s, e), r),
    ensures
        s is Derive ==> r@ == "deriving sealing key: "@ + e@,
        s is Unseal ==> r@ == "decrypting credential handle: "@ + e@,
        s is Import ==> r@ == "importing credential: "@ + e@,
        s is Store ==> r@ == "storing credential: "@ + e@,
{
}

} // verus!
