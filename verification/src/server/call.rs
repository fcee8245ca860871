//! The context of a call: who is calling, over which socket, and for which
//! service.

use vstd::prelude::*;

use crate::server::config;
use crate::server::config::{Config, Service};
use crate::text;

verus! {

/// What a handler knows of the connection that a request came over.
#[derive(Debug)]
pub struct CallContext {
    /// The uid, the gid and the pid of the peer; the pid may be unknown.
    pub uid: u32,
    pub gid: u32,
    pub pid: Option<i32>,
    /// The path of the socket.
    pub socket: String,
    /// The executable of the peer, if it could be found.
    pub program: Option<String>,
    /// The service that the connection belongs to.
    pub service: Option<Service>,
}

/// The link that leads to the executable of a process, for a valid pid.
pub open spec fn exe_link(pid: Option<i32>) -> Option<Seq<char>> {
    match pid {
        Some(p) => if p > 0 {
            Some("/proc/"@ + text::decimal(p as nat) + "/exe"@)
        } else {
            None
        },
        None => None,
    }
}

/// Where the executable of a peer is found.
pub fn program_for_pid(pid: Option<i32>) -> (r: Option<String>)
    ensures
        config::opt_view(r) == exe_link(pid),
{
    match pid {
        Some(p) => {
            if p <= 0 {
                return None;
            }
            let mut out: String = "/proc/".to_owned();
            text::push_decimal(&mut out, p as u64);
            out.push_str("/exe");
            Some(out)
        },
        None => None,
    }
}

impl CallContext {
    /// The context of a connection from a peer, whose executable is handed in.
    pub fn resolve(
        config: &Config,
        socket: &str,
        uid: u32,
        gid: u32,
        pid: Option<i32>,
        program: Option<String>,
    ) -> (r: CallContext)
        ensures
            r.uid == uid,
            r.gid == gid,
            r.pid == pid,
            r.socket@ == socket@,
            r.program == program,
            match r.service {
                Some(svc) => exists|i: int|
                    config::is_match(
                        config.services@,
                        config.socket_name@,
                        uid,
                        socket@,
                        config::opt_view(program),
                        i,
                    ) && (#[trigger] config.services@[i])@ == svc@,
                None => config::no_match(
                    config.services@,
                    config.socket_name@,
                    uid,
                    socket@,
                    config::opt_view(program),
                    config.services@.len() as int,
                ),
            },
    {
        let peer = match &program {
            Some(p) => Some(p.as_str()),
            None => None,
        };
        let service = match config.match_service(uid, socket, peer) {
            Some(svc) => Some(svc.clone()),
            None => None,
        };
        CallContext { uid, gid, pid, socket: socket.to_owned(), program, service }
    }

    /// The context of a connection of which nothing is known.
    pub fn anonymous(socket: &str) -> (r: CallContext)
        ensures
            r.uid == u32::MAX,
            r.gid == u32::MAX,
            r.pid is None,
            r.socket@ == socket@,
            r.program is None,
            r.service is None,
    {
        CallContext {
            uid: u32::MAX,
            gid: u32::MAX,
            pid: None,
            socket: socket.to_owned(),
            program: None,
            service: None,
        }
    }
}

/// A service that does not take every uid, or that has a program, is never the
/// service of a peer with another uid or program.
pub proof fn service_matches_its_peer(
    services: Seq<Service>,
    default: Seq<char>,
    uid: u32,
    socket: Seq<char>,
    program: Option<Seq<char>>,
    i: int,
)
    requires
        config::is_match(services, default, uid, socket, program, i),
    ensures
        services[i]@.any_uid || services[i]@.euid == uid,
        services[i]@.program is Some ==> program == services[i]@.program,
        socket == match services[i]@.socket {
            Some(s) => s,
            None => default,
        },
{
}

} // verus!
