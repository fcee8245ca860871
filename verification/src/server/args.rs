//! The command line of the daemon.

use vstd::prelude::*;

use crate::server::config;
use crate::text;

verus! {

/// Compiled-in default configuration path.
pub const DEFAULT_CONF: &'static str = "/etc/gssproxy/gssproxy.conf";

/// Compiled-in default socket path.
pub const DEFAULT_SOCKET: &'static str = "/var/lib/gssproxy/default.sock";

/// The idle timeout in seconds where none is given.
pub const DEFAULT_IDLE_TIMEOUT: i32 = 1000;

/// The command-line arguments.
#[derive(Debug, PartialEq, Eq)]
pub struct Args {
    pub socket: String,
    pub config: String,
    pub config_dir: Option<String>,
    pub interactive: bool,
    pub daemon: bool,
    pub debug: bool,
    pub debug_level: i32,
    pub syslog_status: bool,
    pub userproxy: bool,
    pub idle_timeout: i32,
}

/// What the arguments are.
pub struct ArgsModel {
    pub socket: Seq<char>,
    pub config: Seq<char>,
    pub config_dir: Option<Seq<char>>,
    pub interactive: bool,
    pub daemon: bool,
    pub debug: bool,
    pub debug_level: i32,
    pub syslog_status: bool,
    pub userproxy: bool,
    pub idle_timeout: i32,
}

impl View for Args {
    type V = ArgsModel;

    open spec fn view(&self) -> ArgsModel {
        ArgsModel {
            socket: self.socket@,
            config: self.config@,
            config_dir: config::opt_view(self.config_dir),
            interactive: self.interactive,
            daemon: self.daemon,
            debug: self.debug,
            debug_level: self.debug_level,
            syslog_status: self.syslog_status,
            userproxy: self.userproxy,
            idle_timeout: self.idle_timeout,
        }
    }
}

/// The arguments where no option is given.
pub open spec fn default_args() -> ArgsModel {
    ArgsModel {
        socket: DEFAULT_SOCKET@,
        config: DEFAULT_CONF@,
        config_dir: None,
        interactive: false,
        daemon: false,
        debug: false,
        debug_level: 0,
        syslog_status: false,
        userproxy: false,
        idle_timeout: DEFAULT_IDLE_TIMEOUT,
    }
}

impl Args {
    pub fn defaults() -> (r: Args)
        ensures
            r@ == default_args(),
    {
        Args {
            socket: DEFAULT_SOCKET.to_owned(),
            config: DEFAULT_CONF.to_owned(),
            config_dir: None,
            interactive: false,
            daemon: false,
            debug: false,
            debug_level: 0,
            syslog_status: false,
            userproxy: false,
            idle_timeout: DEFAULT_IDLE_TIMEOUT,
        }
    }
}

/// What the command line asks for.
#[derive(Debug, PartialEq, Eq)]
pub enum Parsed {
    Run(Args),
    Help,
    Version,
    /// Extract the credential of a cache into another.
    ExtractCcache { source: String, dest: Option<String> },
    /// Running as a daemon and interactively were both asked for.
    DaemonInteractiveConflict,
    Error(String),
}

/// What the command line asks for, as texts.
pub enum ParsedModel {
    Run(ArgsModel),
    Help,
    Version,
    ExtractCcache { source: Seq<char>, dest: Option<Seq<char>> },
    DaemonInteractiveConflict,
    Error(Seq<char>),
}

impl View for Parsed {
    type V = ParsedModel;

    open spec fn view(&self) -> ParsedModel {
        match self {
            Parsed::Run(a) => ParsedModel::Run(a@),
            Parsed::Help => ParsedModel::Help,
            Parsed::Version => ParsedModel::Version,
            Parsed::ExtractCcache { source, dest } => ParsedModel::ExtractCcache {
                source: source@,
                dest: config::opt_view(*dest),
            },
            Parsed::DaemonInteractiveConflict => ParsedModel::DaemonInteractiveConflict,
            Parsed::Error(m) => ParsedModel::Error(m@),
        }
    }
}

/// The options.
#[derive(Debug, Clone, Copy, PartialEq, Eq, Structural)]
pub enum Opt {
    Interactive,
    Daemon,
    Socket,
    Conf,
    ConfDir,
    UserProxy,
    Debug,
    DebugLevel,
    SyslogStatus,
    IdleTimeout,
    ExtractCcache,
    IntoCcache,
    Version,
    Help,
    Unknown,
}

/// The option with a name.
pub open spec fn option_named(name: Seq<char>) -> Opt {
    if name == "-i"@ || name == "--interactive"@ {
        Opt::Interactive
    } else if name == "-D"@ || name == "--daemon"@ {
        Opt::Daemon
    } else if name == "-s"@ || name == "--socket"@ {
        Opt::Socket
    } else if name == "-c"@ || name == "--config"@ {
        Opt::Conf
    } else if name == "-C"@ || name == "--configdir"@ {
        Opt::ConfDir
    } else if name == "-u"@ || name == "--userproxy"@ {
        Opt::UserProxy
    } else if name == "-d"@ || name == "--debug"@ {
        Opt::Debug
    } else if name == "--debug-level"@ {
        Opt::DebugLevel
    } else if name == "--syslog-status"@ {
        Opt::SyslogStatus
    } else if name == "--idle-timeout"@ {
        Opt::IdleTimeout
    } else if name == "--extract-ccache"@ {
        Opt::ExtractCcache
    } else if name == "--into-ccache"@ {
        Opt::IntoCcache
    } else if name == "--version"@ {
        Opt::Version
    } else if name == "-h"@ || name == "--help"@ || name == "--usage"@ || name == "-?"@ {
        Opt::Help
    } else {
        Opt::Unknown
    }
}

/// The options that take a value.
pub open spec fn takes_value(opt: Opt) -> bool {
    ||| opt is Socket
    ||| opt is Conf
    ||| opt is ConfDir
    ||| opt is DebugLevel
    ||| opt is IdleTimeout
    ||| opt is ExtractCcache
    ||| opt is IntoCcache
}

/// What was read of the command line so far.
pub struct State {
    pub args: ArgsModel,
    pub version: bool,
    pub extract: Option<Seq<char>>,
    pub into: Option<Seq<char>>,
}

/// A 32-bit integer that a text is.
pub open spec fn int_of(v: Seq<char>) -> Option<i32> {
    match text::integer(v) {
        Some(n) => if i32::MIN <= n <= i32::MAX {
            Some(n as i32)
        } else {
            None
        },
        None => None,
    }
}

/// After an option without a value.
pub open spec fn with_flag(st: State, opt: Opt) -> State {
    match opt {
        Opt::Interactive => State { args: ArgsModel { interactive: true, ..st.args }, ..st },
        Opt::Daemon => State { args: ArgsModel { daemon: true, ..st.args }, ..st },
        Opt::UserProxy => State { args: ArgsModel { userproxy: true, ..st.args }, ..st },
        Opt::Debug => State { args: ArgsModel { debug: true, ..st.args }, ..st },
        Opt::SyslogStatus => State { args: ArgsModel { syslog_status: true, ..st.args }, ..st },
        Opt::Version => State { version: true, ..st },
        _ => st,
    }
}

/// After an option with a value, or the text of an error.
pub open spec fn with_value(st: State, opt: Opt, v: Seq<char>) -> Result<State, Seq<char>> {
    match opt {
        Opt::Socket => Ok(State { args: ArgsModel { socket: v, ..st.args }, ..st }),
        Opt::Conf => Ok(State { args: ArgsModel { config: v, ..st.args }, ..st }),
        Opt::ConfDir => Ok(State { args: ArgsModel { config_dir: Some(v), ..st.args }, ..st }),
        Opt::DebugLevel => match int_of(v) {
            Some(n) => Ok(State { args: ArgsModel { debug_level: n, ..st.args }, ..st }),
            None => Err("--debug-level expects an integer"@),
        },
        Opt::IdleTimeout => match int_of(v) {
            Some(n) => Ok(State { args: ArgsModel { idle_timeout: n, ..st.args }, ..st }),
            None => Err("--idle-timeout expects an integer"@),
        },
        Opt::ExtractCcache => Ok(State { extract: Some(v), ..st }),
        Opt::IntoCcache => Ok(State { into: Some(v), ..st }),
        _ => Ok(st),
    }
}

/// What a command line that was read to its end asks for: the version before
/// anything else, then extraction, then the conflict.
pub open spec fn finished(st: State) -> ParsedModel {
    if st.version {
        ParsedModel::Version
    } else {
        match st.extract {
            Some(source) => ParsedModel::ExtractCcache { source, dest: st.into },
            None => if st.args.daemon && st.args.interactive {
                ParsedModel::DaemonInteractiveConflict
            } else {
                ParsedModel::Run(st.args)
            },
        }
    }
}

/// The name of an argument, and the value that is written to it after `=`.
pub open spec fn name_and_value(arg: Seq<char>) -> (Seq<char>, Option<Seq<char>>) {
    match text::cut(arg, '=') {
        Some((n, v)) => (n, Some(v)),
        None => (arg, None),
    }
}

/// What the arguments from `i` on ask for, after what was read before. Help and
/// an error end the reading at once.
pub open spec fn scanned(argv: Seq<Seq<char>>, i: int, st: State) -> ParsedModel
    decreases argv.len() - i,
{
    if i < 0 || i >= argv.len() {
        finished(st)
    } else {
        let (name, inline) = name_and_value(argv[i]);
        let opt = option_named(name);
        if opt is Help {
            ParsedModel::Help
        } else if opt is Unknown {
            ParsedModel::Error("unknown option '"@ + name + "'"@)
        } else if !takes_value(opt) {
            scanned(argv, i + 1, with_flag(st, opt))
        } else {
            match inline {
                Some(v) => match with_value(st, opt, v) {
                    Ok(after) => scanned(argv, i + 1, after),
                    Err(m) => ParsedModel::Error(m),
                },
                None => if i + 1 < argv.len() {
                    match with_value(st, opt, argv[i + 1]) {
                        Ok(after) => scanned(argv, i + 2, after),
                        Err(m) => ParsedModel::Error(m),
                    }
                } else {
                    ParsedModel::Error("option "@ + name + " requires an argument"@)
                },
            }
        }
    }
}

/// Before anything was read.
pub open spec fn start() -> State {
    State { args: default_args(), version: false, extract: None, into: None }
}

fn option_of(name: &str) -> (r: Opt)
    ensures
        r == option_named(name@),
{
    if text::same(name, "-i") || text::same(name, "--interactive") {
        Opt::Interactive
    } else if text::same(name, "-D") || text::same(name, "--daemon") {
        Opt::Daemon
    } else if text::same(name, "-s") || text::same(name, "--socket") {
        Opt::Socket
    } else if text::same(name, "-c") || text::same(name, "--config") {
        Opt::Conf
    } else if text::same(name, "-C") || text::same(name, "--configdir") {
        Opt::ConfDir
    } else if text::same(name, "-u") || text::same(name, "--userproxy") {
        Opt::UserProxy
    } else if text::same(name, "-d") || text::same(name, "--debug") {
        Opt::Debug
    } else if text::same(name, "--debug-level") {
        Opt::DebugLevel
    } else if text::same(name, "--syslog-status") {
        Opt::SyslogStatus
    } else if text::same(name, "--idle-timeout") {
        Opt::IdleTimeout
    } else if text::same(name, "--extract-ccache") {
        Opt::ExtractCcache
    } else if text::same(name, "--into-ccache") {
        Opt::IntoCcache
    } else if text::same(name, "--version") {
        Opt::Version
    } else if text::same(name, "-h") || text::same(name, "--help") || text::same(name, "--usage")
        || text::same(name, "-?") {
        Opt::Help
    } else {
        Opt::Unknown
    }
}

fn wants_value(opt: Opt) -> (r: bool)
    ensures
        r == takes_value(opt),
{
    match opt {
        Opt::Socket => true,
        Opt::Conf => true,
        Opt::ConfDir => true,
        Opt::DebugLevel => true,
        Opt::IdleTimeout => true,
        Opt::ExtractCcache => true,
        Opt::IntoCcache => true,
        _ => false,
    }
}

/// What was read so far.
struct Reading {
    args: Args,
    version: bool,
    extract: Option<String>,
    into: Option<String>,
}

impl View for Reading {
    type V = State;

    closed spec fn view(&self) -> State {
        State {
            args: self.args@,
            version: self.version,
            extract: config::opt_view(self.extract),
            into: config::opt_view(self.into),
        }
    }
}

impl Reading {
    fn flag(&mut self, opt: Opt)
        ensures
            final(self)@ == with_flag(old(self)@, opt),
    {
        match opt {
            Opt::Interactive => {
                self.args.interactive = true;
            },
            Opt::Daemon => {
                self.args.daemon = true;
            },
            Opt::UserProxy => {
                self.args.userproxy = true;
            },
            Opt::Debug => {
                self.args.debug = true;
            },
            Opt::SyslogStatus => {
                self.args.syslog_status = true;
            },
            Opt::Version => {
                self.version = true;
            },
            _ => {},
        }
    }

    fn value(&mut self, opt: Opt, v: String) -> (r: Result<(), String>)
        ensures
            match with_value(old(self)@, opt, v@) {
                Ok(after) => r is Ok && final(self)@ == after,
                Err(m) => r matches Err(e) && e@ == m,
            },
    {
        match opt {
            Opt::Socket => {
                self.args.socket = v;
            },
            Opt::Conf => {
                self.args.config = v;
            },
            Opt::ConfDir => {
                self.args.config_dir = Some(v);
            },
            Opt::DebugLevel => {
                let chars = text::chars_of(v.as_str());
                match text::parse_i32(chars.as_slice()) {
                    Some(n) => {
                        self.args.debug_level = n;
                    },
                    None => {
                        return Err("--debug-level expects an integer".to_owned());
                    },
                }
            },
            Opt::IdleTimeout => {
                let chars = text::chars_of(v.as_str());
                match text::parse_i32(chars.as_slice()) {
                    Some(n) => {
                        self.args.idle_timeout = n;
                    },
                    None => {
                        return Err("--idle-timeout expects an integer".to_owned());
                    },
                }
            },
            Opt::ExtractCcache => {
                self.extract = Some(v);
            },
            Opt::IntoCcache => {
                self.into = Some(v);
            },
            _ => {},
        }
        Ok(())
    }

    fn finish(self) -> (r: Parsed)
        ensures
            r@ == finished(self@),
    {
        if self.version {
            return Parsed::Version;
        }
        match self.extract {
            Some(source) => Parsed::ExtractCcache { source, dest: self.into },
            None => {
                if self.args.daemon && self.args.interactive {
                    Parsed::DaemonInteractiveConflict
                } else {
                    Parsed::Run(self.args)
                }
            },
        }
    }
}

fn split_arg(arg: &str) -> (r: (String, Option<String>))
    ensures
        r.0@ == name_and_value(arg@).0,
        config::opt_view(r.1) == name_and_value(arg@).1,
{
    let chars = text::chars_of(arg);
    match text::split_once(chars.as_slice(), '=') {
        Some((n, v)) => (
            text::string_of(n.as_slice()),
            Some(text::string_of(v.as_slice())),
        ),
        None => (arg.to_owned(), None),
    }
}

/// Read the arguments of a command line, after the name of the program.
pub fn parse_args_from(argv: &Vec<String>) -> (r: Parsed)
    ensures
        r@ == scanned(config::strings_view(argv@), 0, start()),
{
    let ghost all = config::strings_view(argv@);
    let mut st = Reading { args: Args::defaults(), version: false, extract: None, into: None };
    let mut i: usize = 0;
    while i < argv.len()
        invariant
            i <= argv@.len(),
            all == config::strings_view(argv@),
            scanned(all, 0, start()) == scanned(all, i as int, st@),
        decreases argv@.len() - i,
    {
        assert(all[i as int] == argv@[i as int]@);
        let (name, inline) = split_arg(argv[i].as_str());
        let opt = option_of(name.as_str());
        match opt {
            Opt::Help => {
                return Parsed::Help;
            },
            Opt::Unknown => {
                let mut m: String = "unknown option '".to_owned();
                m.push_str(name.as_str());
                m.push_str("'");
                return Parsed::Error(m);
            },
            _ => {},
        }
        if !wants_value(opt) {
            st.flag(opt);
            i += 1;
            continue ;
        }
        match inline {
            Some(v) => {
                match st.value(opt, v) {
                    Ok(_) => {},
                    Err(m) => {
                        return Parsed::Error(m);
                    },
                }
                i += 1;
            },
            None => {
                if argv.len() - i < 2 {
                    let mut m: String = "option ".to_owned();
                    m.push_str(name.as_str());
                    m.push_str(" requires an argument");
                    return Parsed::Error(m);
                }
                assert(all[i + 1] == argv@[i + 1]@);
                match st.value(opt, argv[i + 1].as_str().to_owned()) {
                    Ok(_) => {},
                    Err(m) => {
                        return Parsed::Error(m);
                    },
                }
                i += 2;
            },
        }
    }
    st.finish()
}

/// How much is logged.
#[derive(Debug, Clone, Copy, PartialEq, Eq, Structural)]
pub enum LogLevel {
    Info,
    Debug,
    Trace,
}

/// What the debugging options ask to be logged.
pub fn log_level(debug: bool, debug_level: i32) -> (r: LogLevel)
    ensures
        r == if debug_level >= 2 {
            LogLevel::Trace
        } else if debug || debug_level >= 1 {
            LogLevel::Debug
        } else {
            LogLevel::Info
        },
{
    if debug_level >= 2 {
        LogLevel::Trace
    } else if debug || debug_level >= 1 {
        LogLevel::Debug
    } else {
        LogLevel::Info
    }
}

// ---- laws ----

/// The option is a flag that leads to running the daemon.
pub open spec fn is_run_flag(opt: Opt) -> bool {
    ||| opt is Interactive
    ||| opt is Daemon
    ||| opt is UserProxy
    ||| opt is Debug
    ||| opt is SyslogStatus
}

/// One of the arguments from `i` on is this option.
pub open spec fn given(argv: Seq<Seq<char>>, i: int, opt: Opt) -> bool {
    exists|j: int| i <= j < argv.len() && option_named(#[trigger] argv[j]) == opt
}

proof fn lemma_given_step(argv: Seq<Seq<char>>, i: int, opt: Opt)
    requires
        0 <= i < argv.len(),
    ensures
        given(argv, i, opt) == (option_named(argv[i]) == opt || given(argv, i + 1, opt)),
{
    if given(argv, i, opt) {
        let j = choose|j: int| i <= j < argv.len() && option_named(#[trigger] argv[j]) == opt;
        if j > i {
            assert(given(argv, i + 1, opt));
        }
    }
    if given(argv, i + 1, opt) {
        let j = choose|j: int| i + 1 <= j < argv.len() && option_named(#[trigger] argv[j]) == opt;
        assert(option_named(argv[j]) == opt);
    }
    if option_named(argv[i]) == opt {
        assert(given(argv, i, opt));
    }
}

proof fn lemma_flags(argv: Seq<Seq<char>>, i: int, st: State)
    requires
        0 <= i <= argv.len(),
        forall|j: int|
            i <= j < argv.len() ==> is_run_flag(option_named(#[trigger] argv[j]))
                && name_and_value(argv[j]) == (argv[j], None::<Seq<char>>),
    ensures
        scanned(argv, i, st) == finished(
            State {
                args: ArgsModel {
                    interactive: st.args.interactive || given(argv, i, Opt::Interactive),
                    daemon: st.args.daemon || given(argv, i, Opt::Daemon),
                    userproxy: st.args.userproxy || given(argv, i, Opt::UserProxy),
                    debug: st.args.debug || given(argv, i, Opt::Debug),
                    syslog_status: st.args.syslog_status || given(argv, i, Opt::SyslogStatus),
                    ..st.args
                },
                ..st
            },
        ),
    decreases argv.len() - i,
{
    if i < argv.len() {
        let opt = option_named(argv[i]);
        lemma_given_step(argv, i, Opt::Interactive);
        lemma_given_step(argv, i, Opt::Daemon);
        lemma_given_step(argv, i, Opt::UserProxy);
        lemma_given_step(argv, i, Opt::Debug);
        lemma_given_step(argv, i, Opt::SyslogStatus);
        lemma_flags(argv, i + 1, with_flag(st, opt));
    }
}

/// A command line of such flags alone runs the daemon with each of them set that
/// is given, unless it is to be a daemon and interactive at once.
pub proof fn flags_alone_run(argv: Seq<Seq<char>>)
    requires
        forall|j: int|
            0 <= j < argv.len() ==> is_run_flag(option_named(#[trigger] argv[j]))
                && name_and_value(argv[j]) == (argv[j], None::<Seq<char>>),
    ensures
        scanned(argv, 0, start()) == if given(argv, 0, Opt::Daemon) && given(
            argv,
            0,
            Opt::Interactive,
        ) {
            ParsedModel::DaemonInteractiveConflict
        } else {
            ParsedModel::Run(
                ArgsModel {
                    interactive: given(argv, 0, Opt::Interactive),
                    daemon: given(argv, 0, Opt::Daemon),
                    userproxy: given(argv, 0, Opt::UserProxy),
                    debug: given(argv, 0, Opt::Debug),
                    syslog_status: given(argv, 0, Opt::SyslogStatus),
                    ..default_args()
                },
            )
        },
{
    lemma_flags(argv, 0, start());
}

/// A request for help at the beginning wins, whatever follows, and an unknown
/// option there is an error, whatever follows.
pub proof fn first_argument_decides(argv: Seq<Seq<char>>)
    requires
        argv.len() > 0,
    ensures
        ({
            let name = name_and_value(argv[0]).0;
            &&& option_named(name) is Help ==> scanned(argv, 0, start()) is Help
            &&& option_named(name) is Unknown ==> scanned(argv, 0, start()) is Error
        }),
{
}

/// Once the version was asked for, it is what the command line asks for, unless
/// help or an error comes later.
pub proof fn version_wins(argv: Seq<Seq<char>>, i: int, st: State)
    requires
        st.version,
    ensures
        ({
            let p = scanned(argv, i, st);
            p is Version || p is Help || p is Error
        }),
    decreases argv.len() - i,
{
    if 0 <= i < argv.len() {
        let (name, inline) = name_and_value(argv[i]);
        let opt = option_named(name);
        if !takes_value(opt) {
            version_wins(argv, i + 1, with_flag(st, opt));
        } else {
            match inline {
                Some(v) => {
                    if with_value(st, opt, v) is Ok {
                        version_wins(argv, i + 1, with_value(st, opt, v)->Ok_0);
                    }
                },
                None => {
                    if i + 1 < argv.len() && with_value(st, opt, argv[i + 1]) is Ok {
                        version_wins(argv, i + 2, with_value(st, opt, argv[i + 1])->Ok_0);
                    }
                },
            }
        }
    }
}

} // verus!
