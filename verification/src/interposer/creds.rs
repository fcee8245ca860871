//! Credentials.
//!
//! A call that can take more than one step is carried through them: the caller
//! performs what a step asks for and hands in what came of it.

use vstd::prelude::*;

use crate::consts::{
    EINVAL, GSS_C_ACCEPT, GSS_C_BOTH, GSS_C_INITIATE, GSS_S_BAD_MECH, GSS_S_BAD_NAME,
    GSS_S_CALL_INACCESSIBLE_READ, GSS_S_CALL_INACCESSIBLE_WRITE, GSS_S_COMPLETE,
    GSS_S_CRED_UNAVAIL, GSS_S_FAILURE, GSS_S_NO_CRED, GSS_S_UNAVAILABLE,
};
use crate::gpm;
use crate::gpm::{AcquireCred, InquireCred, InquireCredByMech};
use crate::gssx::{GssxCred, GssxName};
use crate::interposer::attempt::{Attempt, Operation, Status, Turn};
use crate::interposer::behavior::Behavior;
use crate::interposer::convert;
use crate::interposer::error;
use crate::interposer::handle;
use crate::interposer::handle::{CredHandle, NameHandle};
use crate::interposer::special;
use crate::interposer::special::Registry;
use crate::octets;
use crate::proc::ArgAcquireCred;
use crate::xdr;
use crate::xdr::Xdr;

verus! {

// ---- acquiring ----

/// What a step of acquiring asks for.
#[derive(Debug, Clone, Copy, PartialEq, Eq)]
pub enum AcquireStep {
    /// Look for a remote credential in the credential cache.
    Retrieve,
    /// Prepare the mechanisms for the local attempt.
    Prepare,
    /// Turn the remote name into a local one, for its own mechanism.
    NameToLocal,
    /// Acquire with the local mechanism.
    Local,
    /// Turn the local name into a remote one.
    LocalToName,
    /// Ask the daemon.
    Remote,
    /// Store the credential that the daemon gave.
    Store,
    /// Report this major and this minor status.
    Done(u32, u32),
}

impl AcquireStep {
    /// The step is for the daemon's sake.
    pub open spec fn for_daemon(self) -> bool {
        self is Retrieve || self is LocalToName || self is Remote || self is Store
    }

    /// The step is for the local mechanism's sake.
    pub open spec fn for_local(self) -> bool {
        self is Prepare || self is NameToLocal || self is Local
    }
}

/// A credential being acquired.
pub struct AcquireCall {
    pub attempt: Attempt,
    pub out: CredHandle,
    /// The credential that the daemon is asked to work on: the one from the
    /// cache, or the impersonator's.
    pub input: Option<GssxCred>,
    pub name: Option<NameHandle>,
    /// The special forms of the desired mechanisms, for the local attempt.
    pub mechs: Vec<Vec<u8>>,
    /// The mechanisms and the lifetime of what the daemon gave.
    pub actual_mechs: Option<Vec<Vec<u8>>>,
    pub time_rec: Option<u32>,
}

/// What is reported: the minor status mapped.
pub open spec fn report(s: Status) -> AcquireStep {
    AcquireStep::Done(s.0, error::mapped(s.1))
}

/// The behavior once the credential cache was looked at: remote first with a
/// remote credential, and local first where a cache was named that holds none.
pub open spec fn behavior_for_cache(behavior: Behavior, found: bool, named: bool) -> Behavior {
    if found {
        Behavior::RemoteFirst
    } else if named {
        Behavior::LocalFirst
    } else {
        behavior
    }
}

impl AcquireCall {
    /// The step that the call has come to.
    pub open spec fn step(self) -> AcquireStep {
        match self.attempt.turn {
            Turn::Remote => if self.name is Some && self.name->Some_0.local != 0
                && self.name->Some_0.remote is None {
                AcquireStep::LocalToName
            } else {
                AcquireStep::Remote
            },
            Turn::Report(s) => report(s),
            _ => AcquireStep::Prepare,
        }
    }

    /// The step that leads to the local attempt, once its mechanisms are there.
    pub open spec fn local_step(self) -> AcquireStep {
        if self.name is Some && self.name->Some_0.local == 0 && self.name->Some_0.remote is Some {
            AcquireStep::NameToLocal
        } else {
            AcquireStep::Local
        }
    }

    /// Under `LOCAL_ONLY` and `REMOTE_ONLY` the call stays on its side.
    pub open spec fn apart(self) -> bool {
        &&& self.attempt.behavior is LocalOnly ==> self.attempt.turn is LocalFirst
            || self.attempt.turn is Report
        &&& self.attempt.behavior is RemoteOnly ==> self.attempt.turn is Remote
            || self.attempt.turn is Report
        &&& self.attempt.rule is Acquire || self.attempt.rule is Impersonate
    }

    /// The call stays on its side with this step.
    pub open spec fn stays_apart(self, step: AcquireStep) -> bool {
        &&& self.apart()
        &&& self.attempt.behavior is LocalOnly ==> !step.for_daemon()
        &&& self.attempt.behavior is RemoteOnly ==> !step.for_local()
    }

    /// A local attempt is under way.
    pub open spec fn at_local(self) -> bool {
        self.attempt.turn is LocalFirst || self.attempt.turn is LocalLast
    }

    /// Nothing but the attempts has changed.
    pub open spec fn same_data(self, other: AcquireCall) -> bool {
        &&& self.out == other.out
        &&& self.input == other.input
        &&& self.name == other.name
        &&& self.mechs == other.mechs
        &&& self.actual_mechs == other.actual_mechs
        &&& self.time_rec == other.time_rec
    }

    /// Nothing has come of the call yet.
    pub open spec fn fresh(self) -> bool {
        &&& self.out.remote is None && self.out.local == 0
        &&& self.mechs@.len() == 0
        &&& self.actual_mechs is None
        &&& self.time_rec is None
    }

    fn next(&self) -> (r: AcquireStep)
        ensures
            r == self.step(),
    {
        match self.attempt.turn {
            Turn::Remote => {
                match &self.name {
                    Some(n) => {
                        if n.local != 0 && n.remote.is_none() {
                            AcquireStep::LocalToName
                        } else {
                            AcquireStep::Remote
                        }
                    },
                    None => AcquireStep::Remote,
                }
            },
            Turn::Report(s) => AcquireStep::Done(s.0, error::map_error(s.1)),
            _ => AcquireStep::Prepare,
        }
    }

    /// Begin to acquire a credential, kept in the named credential cache if one
    /// is named. Unless only local is to be tried, the cache is looked at first.
    pub fn gssi_acquire_cred_from(
        output_wanted: bool,
        behavior: Behavior,
        ccache_name: Option<&str>,
        name: Option<NameHandle>,
    ) -> (r: (AcquireCall, AcquireStep))
        ensures
            r.0.fresh(),
            r.0.out.default_creds == ccache_name is None,
            crate::server::config::props_view(r.0.out.store@) == match ccache_name {
                Some(c) => seq![("ccache"@, c@)],
                None => seq![],
            },
            r.0.input is None,
            r.0.name == name,
            if !output_wanted {
                &&& r.0.attempt == Attempt::begun(Operation::Acquire, behavior).abandoned(
                    (GSS_S_FAILURE, EINVAL as u32),
                )
                &&& r.1 == r.0.step()
            } else {
                &&& r.0.attempt == Attempt::begun(Operation::Acquire, behavior)
                &&& r.1 == if behavior is LocalOnly {
                    r.0.step()
                } else {
                    AcquireStep::Retrieve
                }
            },
            r.0.stays_apart(r.1),
    {
        let mut attempt = Attempt::begin(Operation::Acquire, behavior);
        if !output_wanted {
            attempt.abandon((GSS_S_FAILURE, EINVAL as u32));
        }
        let call = AcquireCall {
            attempt,
            out: CredHandle::new(ccache_name.is_none(), ccache_name),
            input: None,
            name,
            mechs: Vec::new(),
            actual_mechs: None,
            time_rec: None,
        };
        if !output_wanted {
            let step = call.next();
            return (call, step);
        }
        match behavior {
            Behavior::LocalOnly => {
                let step = call.next();
                (call, step)
            },
            _ => (call, AcquireStep::Retrieve),
        }
    }

    /// The credential cache was looked at. What it holds decides which attempt
    /// comes first.
    pub fn retrieved(
        &mut self,
        found: (u32, u32, Option<GssxCred>),
        cache_named: bool,
    ) -> (r: AcquireStep)
        requires
            old(self).attempt.rule is Acquire,
            !(old(self).attempt.behavior is LocalOnly),
        ensures
            final(self).attempt == Attempt::begun(
                Operation::Acquire,
                behavior_for_cache(
                    old(self).attempt.behavior,
                    found.0 == GSS_S_COMPLETE,
                    cache_named,
                ),
            ),
            final(self).input == if found.0 == GSS_S_COMPLETE {
                found.2
            } else {
                old(self).input
            },
            final(self).same_data(AcquireCall { input: final(self).input, ..*old(self) }),
            r == final(self).step(),
            final(self).stays_apart(r),
    {
        let mut behavior = self.attempt.behavior;
        if found.0 == GSS_S_COMPLETE {
            self.input = found.2;
            behavior = Behavior::RemoteFirst;
        } else if cache_named {
            behavior = Behavior::LocalFirst;
        }
        self.attempt = Attempt::begin(Operation::Acquire, behavior);
        self.next()
    }

    /// Begin to acquire a credential for another name, with the credential of the
    /// impersonator.
    pub fn gssi_acquire_cred_impersonate_name(
        impersonator: Option<&CredHandle>,
        output_wanted: bool,
        behavior: Behavior,
        name: Option<NameHandle>,
    ) -> (r: (AcquireCall, AcquireStep))
        ensures
            r.0.fresh(),
            !r.0.out.default_creds,
            r.0.out.store@.len() == 0,
            match impersonator {
                Some(c) => xdr::optional_tree(r.0.input) == xdr::optional_tree(c.remote),
                None => r.0.input is None,
            },
            r.0.name == name,
            ({
                let begun = Attempt::begun(Operation::Impersonate, behavior);
                r.0.attempt == if impersonator is None {
                    begun.abandoned((GSS_S_NO_CRED, EINVAL as u32))
                } else if !output_wanted {
                    begun.abandoned((GSS_S_FAILURE, EINVAL as u32))
                } else {
                    begun
                }
            }),
            r.1 == r.0.step(),
            r.0.stays_apart(r.1),
    {
        let mut attempt = Attempt::begin(Operation::Impersonate, behavior);
        let mut input: Option<GssxCred> = None;
        match impersonator {
            None => {
                attempt.abandon((GSS_S_NO_CRED, EINVAL as u32));
            },
            Some(c) => {
                input = match &c.remote {
                    Some(g) => Some(g.clone()),
                    None => None,
                };
                if !output_wanted {
                    attempt.abandon((GSS_S_FAILURE, EINVAL as u32));
                }
            },
        }
        let out = CredHandle::new(false, None);
        assert(crate::server::config::props_view(out.store@).len() == 0);
        let call = AcquireCall {
            attempt,
            out,
            input,
            name,
            mechs: Vec::new(),
            actual_mechs: None,
            time_rec: None,
        };
        let step = call.next();
        (call, step)
    }

    /// Prepare the local attempt: the desired mechanisms in their special forms.
    /// Without any, the attempt has failed.
    pub fn prepare(&mut self, reg: &mut Registry, desired: &[Vec<u8>]) -> (r: AcquireStep)
        requires
            old(self).at_local(),
            special::well_formed(old(reg)@),
        ensures
            special::well_formed(final(reg)@),
            final(reg)@ == special::with_mechs(
                old(reg)@,
                octets::views(desired@),
                desired@.len() as int,
            ),
            if desired@.len() == 0 {
                &&& final(self).attempt == old(self).attempt.after_local((GSS_S_BAD_MECH, 0))
                &&& final(self).same_data(*old(self))
                &&& r == final(self).step()
            } else {
                &&& final(self).attempt == old(self).attempt
                &&& final(self).mechs@.len() == desired@.len()
                &&& forall|i: int|
                    0 <= i < desired@.len() ==> (#[trigger] final(self).mechs@[i])@
                        == special::special_of(desired@[i]@)
                &&& final(self).same_data(AcquireCall { mechs: final(self).mechs, ..*old(self) })
                &&& r == old(self).local_step()
            },
            old(self).apart() ==> final(self).stays_apart(r),
    {
        match reg.special_available_mechs(desired) {
            None => {
                self.attempt.local((GSS_S_BAD_MECH, 0));
                self.next()
            },
            Some(mechs) => {
                self.mechs = mechs;
                match &self.name {
                    Some(n) => {
                        if n.local == 0 && n.remote.is_some() {
                            AcquireStep::NameToLocal
                        } else {
                            AcquireStep::Local
                        }
                    },
                    None => AcquireStep::Local,
                }
            },
        }
    }

    /// The remote name was turned into this local one, or not: then the local
    /// attempt has failed.
    pub fn named(&mut self, s: Status, local: usize) -> (r: AcquireStep)
        requires
            old(self).at_local(),
        ensures
            if s.0 == GSS_S_COMPLETE {
                &&& final(self).attempt == old(self).attempt
                &&& final(self).name == match old(self).name {
                    Some(n) => Some(NameHandle { local, ..n }),
                    None => None,
                }
                &&& r == AcquireStep::Local
            } else {
                &&& final(self).attempt == old(self).attempt.after_local(s)
                &&& final(self).name == old(self).name
                &&& r == final(self).step()
            },
            final(self).same_data(AcquireCall { name: final(self).name, ..*old(self) }),
            old(self).apart() ==> final(self).stays_apart(r),
    {
        if s.0 != GSS_S_COMPLETE {
            self.attempt.local(s);
            return self.next();
        }
        self.name = match self.name.take() {
            Some(n) => Some(NameHandle { mech_type: n.mech_type, remote: n.remote, local }),
            None => None,
        };
        AcquireStep::Local
    }

    /// The local mechanism has answered, and this is its credential.
    pub fn local_done(&mut self, s: Status, local: usize) -> (r: AcquireStep)
        requires
            old(self).at_local(),
        ensures
            final(self).attempt == old(self).attempt.after_local(s),
            final(self).out == (CredHandle { local, ..old(self).out }),
            final(self).same_data(AcquireCall { out: final(self).out, ..*old(self) }),
            r == final(self).step(),
            old(self).apart() ==> final(self).stays_apart(r),
    {
        self.out.local = local;
        self.attempt.local(s);
        self.next()
    }

    /// The local name was turned into this remote one, or not: then the call is
    /// over.
    pub fn told_name(&mut self, told: (u32, u32, Option<GssxName>)) -> (r: AcquireStep)
        requires
            old(self).attempt.turn is Remote,
        ensures
            if told.0 == GSS_S_COMPLETE {
                &&& final(self).attempt == old(self).attempt
                &&& final(self).name == match old(self).name {
                    Some(n) => Some(NameHandle { remote: told.2, ..n }),
                    None => None,
                }
                &&& r == AcquireStep::Remote
            } else {
                &&& final(self).attempt == old(self).attempt.abandoned((told.0, told.1))
                &&& final(self).name == old(self).name
                &&& r == final(self).step()
            },
            final(self).same_data(AcquireCall { name: final(self).name, ..*old(self) }),
            old(self).apart() ==> final(self).stays_apart(r),
    {
        if told.0 != GSS_S_COMPLETE {
            self.attempt.abandon((told.0, told.1));
            return self.next();
        }
        self.name = match self.name.take() {
            Some(n) => Some(NameHandle { mech_type: n.mech_type, remote: told.2, local: n.local }),
            None => None,
        };
        AcquireStep::Remote
    }

    /// The name that the daemon is sent.
    pub open spec fn remote_name(self) -> Option<GssxName> {
        match self.name {
            Some(n) => n.remote,
            None => None,
        }
    }

    /// What the daemon is asked.
    pub fn remote_arg(&self, time_req: u32, desired: &[Vec<u8>], cred_usage: i32) -> (r:
        ArgAcquireCred)
        ensures
            r.call_ctx.blank(),
            xdr::optional_tree(r.input_cred_handle) == xdr::optional_tree(self.input),
            !r.add_cred_to_input_handle,
            xdr::optional_tree(r.desired_name) == xdr::optional_tree(self.remote_name()),
            r.time_req == time_req,
            r.desired_mechs@.len() == desired@.len(),
            forall|i: int|
                0 <= i < desired@.len() ==> (#[trigger] r.desired_mechs@[i])@ == desired@[i]@,
            r.cred_usage == gpm::usage_on_wire(cred_usage),
            r.initiator_time_req == 0 && r.acceptor_time_req == 0,
            if self.attempt.rule is Impersonate {
                &&& r.options@.len() == 1
                &&& r.options@[0].option@ == gpm::ACQUIRE_TYPE_OPTION@
                &&& r.options@[0].value@ == gpm::ACQUIRE_IMPERSONATE_NAME@
            } else {
                r.options@.len() == 0
            },
    {
        let name = match &self.name {
            Some(n) => n.remote.as_ref(),
            None => None,
        };
        let impersonate = match self.attempt.rule {
            Operation::Impersonate => true,
            _ => false,
        };
        gpm::acquire_cred_arg(
            self.input.as_ref(),
            name,
            time_req,
            desired,
            cred_usage,
            impersonate,
        )
    }

    /// What the daemon gave is stored, unless it is for another name or the same
    /// as what was found.
    pub open spec fn to_store(self, acquired: Option<GssxCred>) -> bool {
        self.attempt.rule is Acquire && acquired is Some && !handle::same_creds(
            self.input,
            acquired,
        )
    }

    /// The daemon has answered.
    pub fn remote_done(&mut self, acq: AcquireCred) -> (r: AcquireStep)
        requires
            old(self).attempt.turn is Remote,
        ensures
            final(self).input == old(self).input,
            final(self).name == old(self).name,
            final(self).mechs == old(self).mechs,
            if acq.major == GSS_S_COMPLETE {
                &&& final(self).out == (CredHandle { remote: acq.cred, ..old(self).out })
                &&& match acq.cred {
                    Some(c) => if c.elements@.len() > 0 {
                        final(self).actual_mechs matches Some(m) && octets::views(m@)
                            == convert::element_mechs(c)
                    } else {
                        final(self).actual_mechs is None
                    },
                    None => final(self).actual_mechs is None,
                }
                &&& final(self).time_rec == Some(acq.time_rec)
            } else {
                final(self).same_data(*old(self))
            },
            if acq.major == GSS_S_COMPLETE && old(self).to_store(acq.cred) {
                &&& final(self).attempt == old(self).attempt
                &&& r == AcquireStep::Store
            } else {
                &&& final(self).attempt == old(self).attempt.after_remote((acq.major, acq.minor))
                &&& r == final(self).step()
            },
            old(self).apart() ==> final(self).stays_apart(r),
    {
        if acq.major == GSS_S_COMPLETE {
            self.out.remote = acq.cred;
            self.actual_mechs = convert::actual_mechs(self.out.remote.as_ref());
            self.time_rec = Some(acq.time_rec);
            let acquire = match self.attempt.rule {
                Operation::Acquire => true,
                _ => false,
            };
            if acquire && self.out.remote.is_some() && !handle::creds_are_equal(
                self.input.as_ref(),
                self.out.remote.as_ref(),
            ) {
                return AcquireStep::Store;
            }
        }
        self.attempt.remote((acq.major, acq.minor));
        self.next()
    }

    /// The credential was stored, or could not be: then the call has failed, and
    /// nothing more is tried. The minor status is the daemon's.
    pub fn stored(&mut self, s: Status, minor: u32) -> (r: AcquireStep)
        ensures
            final(self).attempt == old(self).attempt.abandoned((s.0, minor)),
            final(self).same_data(*old(self)),
            r == final(self).step(),
            old(self).apart() ==> final(self).stays_apart(r),
    {
        self.attempt.abandon((s.0, minor));
        self.next()
    }
}

/// What the daemon acquired is reported as a success, whatever has failed before.
pub proof fn daemons_success_is_reported(call: AcquireCall, acq: AcquireCred)
    requires
        call.attempt.turn is Remote,
        acq.major == GSS_S_COMPLETE,
    ensures
        call.attempt.after_remote((acq.major, acq.minor)).turn == Turn::Report(
            (GSS_S_COMPLETE, acq.minor),
        ),
{
}

/// Where the remote attempt comes first and everything fails, acquiring reports
/// the daemon's failure, and impersonating the local one.
pub proof fn failure_after_remote_first(remote: Status, local: Status)
    requires
        remote.0 != GSS_S_COMPLETE,
        !gpm::keeps_context(local.0),
    ensures
        Attempt::begun(Operation::Acquire, Behavior::RemoteFirst).after_remote(remote).after_local(
            local,
        ).turn == Turn::Report(remote),
        Attempt::begun(Operation::Impersonate, Behavior::RemoteFirst).after_remote(
            remote,
        ).after_local(local).turn == Turn::Report(local),
{
}

// ---- adding ----

/// The lifetime to ask for when a credential is added: that of its usage, and the
/// longer one where it is for both.
pub open spec fn added_time_req(cred_usage: i32, initiator: u32, acceptor: u32) -> u32 {
    if cred_usage == GSS_C_ACCEPT {
        acceptor
    } else if cred_usage == GSS_C_INITIATE {
        initiator
    } else if cred_usage == GSS_C_BOTH {
        if acceptor >= initiator {
            acceptor
        } else {
            initiator
        }
    } else {
        0
    }
}

/// What is acquired when a credential is added.
#[derive(Debug)]
pub struct AddRequest {
    pub desired_mechs: Vec<Vec<u8>>,
    pub time_req: u32,
}

/// A credential is added by acquiring one for the desired mechanism alone; there
/// must be a place to put it.
pub fn gssi_add_cred_from(
    output_wanted: bool,
    desired_mech: Option<&[u8]>,
    cred_usage: i32,
    initiator_time_req: u32,
    acceptor_time_req: u32,
) -> (r: Result<AddRequest, u32>)
    ensures
        match r {
            Err(major) => !output_wanted && major == GSS_S_CALL_INACCESSIBLE_WRITE,
            Ok(q) => {
                &&& output_wanted
                &&& octets::views(q.desired_mechs@) == match desired_mech {
                    Some(m) => seq![m@],
                    None => seq![],
                }
                &&& q.time_req == added_time_req(cred_usage, initiator_time_req, acceptor_time_req)
            },
        },
{
    if !output_wanted {
        return Err(GSS_S_CALL_INACCESSIBLE_WRITE);
    }
    let mut desired_mechs: Vec<Vec<u8>> = Vec::new();
    match desired_mech {
        Some(m) => {
            desired_mechs.push(octets::copy(m));
            assert(octets::views(desired_mechs@) =~= seq![m@]);
        },
        None => {
            assert(octets::views(desired_mechs@) =~= seq![]);
        },
    }
    let time_req: u32 = match cred_usage {
        GSS_C_ACCEPT => acceptor_time_req,
        GSS_C_INITIATE => initiator_time_req,
        GSS_C_BOTH => if acceptor_time_req >= initiator_time_req {
            acceptor_time_req
        } else {
            initiator_time_req
        },
        _ => 0,
    };
    Ok(AddRequest { desired_mechs, time_req })
}

/// The lifetimes that are reported for an added credential, for the initiator and
/// for the acceptor: with success, those of its usage.
pub fn added_times(major: u32, cred_usage: i32, time_rec: u32) -> (r: (Option<u32>, Option<u32>))
    ensures
        r.0 == if major == GSS_S_COMPLETE && (cred_usage == GSS_C_INITIATE || cred_usage
            == GSS_C_BOTH) {
            Some(time_rec)
        } else {
            None
        },
        r.1 == if major == GSS_S_COMPLETE && (cred_usage == GSS_C_ACCEPT || cred_usage
            == GSS_C_BOTH) {
            Some(time_rec)
        } else {
            None
        },
{
    if major != GSS_S_COMPLETE {
        return (None, None);
    }
    let initiator = if cred_usage == GSS_C_INITIATE || cred_usage == GSS_C_BOTH {
        Some(time_rec)
    } else {
        None
    };
    let acceptor = if cred_usage == GSS_C_ACCEPT || cred_usage == GSS_C_BOTH {
        Some(time_rec)
    } else {
        None
    };
    (initiator, acceptor)
}

// ---- acquiring with a password ----

/// What a step of acquiring with a password asks for.
#[derive(Debug, Clone, Copy, PartialEq, Eq)]
pub enum PasswordStep {
    /// Turn the remote name into a local one, for its own mechanism.
    NameToLocal,
    /// Acquire with the local mechanism.
    Local,
    /// Report this major status, and this minor status where one is set.
    Done(u32, Option<u32>),
}

/// The major and the minor status of a call that cannot be made: without a name,
/// without a place for the credential, without a set of mechanisms, or with an
/// empty one; and under `REMOTE_ONLY`, since a password is never sent.
pub open spec fn password_refusal(
    name: Option<NameHandle>,
    output_wanted: bool,
    desired: Option<&[Vec<u8>]>,
    behavior: Behavior,
) -> Option<(u32, Option<u32>)> {
    let einval = Some(error::mapped(EINVAL as u32));
    match (name, desired) {
        (None, _) => Some((GSS_S_BAD_NAME, einval)),
        (Some(_), None) => if !output_wanted {
            Some((GSS_S_FAILURE, einval))
        } else {
            Some((GSS_S_CALL_INACCESSIBLE_READ, None))
        },
        (Some(_), Some(d)) => if !output_wanted || behavior is RemoteOnly || d@.len() == 0 {
            Some((GSS_S_FAILURE, einval))
        } else {
            None
        },
    }
}

/// Begin to acquire a credential with a password: always with the local
/// mechanism. The mechanisms are handed out in their special forms.
pub fn gssi_acquire_cred_with_password(
    reg: &mut Registry,
    name: Option<&NameHandle>,
    output_wanted: bool,
    desired: Option<&[Vec<u8>]>,
    behavior: Behavior,
) -> (r: (PasswordStep, Vec<Vec<u8>>))
    requires
        special::well_formed(old(reg)@),
    ensures
        special::well_formed(final(reg)@),
        match password_refusal(handle::by_value(name), output_wanted, desired, behavior) {
            Some((major, minor)) => {
                &&& r.0 == PasswordStep::Done(major, minor)
                &&& r.1@.len() == 0
                &&& final(reg)@ == old(reg)@
            },
            None => {
                let d = desired->Some_0@;
                let n = name->Some_0;
                &&& r.0 == if n.local == 0 && n.remote is Some {
                    PasswordStep::NameToLocal
                } else {
                    PasswordStep::Local
                }
                &&& r.1@.len() == d.len()
                &&& forall|i: int|
                    0 <= i < d.len() ==> (#[trigger] r.1@[i])@ == special::special_of(d[i]@)
                &&& final(reg)@ == special::with_mechs(
                    old(reg)@,
                    octets::views(d),
                    d.len() as int,
                )
            },
        },
{
    let einval: u32 = error::map_error(EINVAL as u32);
    let n = match name {
        Some(n) => n,
        None => {
            return (PasswordStep::Done(GSS_S_BAD_NAME, Some(einval)), Vec::new());
        },
    };
    if !output_wanted {
        return (PasswordStep::Done(GSS_S_FAILURE, Some(einval)), Vec::new());
    }
    let d = match desired {
        Some(d) => d,
        None => {
            return (PasswordStep::Done(GSS_S_CALL_INACCESSIBLE_READ, None), Vec::new());
        },
    };
    match behavior {
        Behavior::RemoteOnly => {
            return (PasswordStep::Done(GSS_S_FAILURE, Some(einval)), Vec::new());
        },
        _ => {},
    }
    match reg.special_available_mechs(d) {
        None => (PasswordStep::Done(GSS_S_FAILURE, Some(einval)), Vec::new()),
        Some(mechs) => {
            if n.local == 0 && n.remote.is_some() {
                (PasswordStep::NameToLocal, mechs)
            } else {
                (PasswordStep::Local, mechs)
            }
        },
    }
}

/// After the name was turned into a local one, or not: then the call is over.
pub fn password_named(s: Status) -> (r: PasswordStep)
    ensures
        r == if s.0 == GSS_S_COMPLETE {
            PasswordStep::Local
        } else {
            PasswordStep::Done(s.0, Some(error::mapped(s.1)))
        },
{
    if s.0 == GSS_S_COMPLETE {
        PasswordStep::Local
    } else {
        PasswordStep::Done(s.0, Some(error::map_error(s.1)))
    }
}

// ---- inquiries ----

/// Where an inquiry is answered.
pub enum Inquiry<T> {
    /// By the local mechanism.
    Local,
    /// From what is known of the remote credential.
    Remote(T),
    /// Nowhere: report this major and this minor status.
    Done(u32, u32),
}

/// The answer about a remote credential: its minor status is reported mapped.
pub fn gssi_inquire_cred(cred: &CredHandle) -> (r: Inquiry<InquireCred>)
    ensures
        if cred.local != 0 {
            r is Local
        } else {
            match cred.remote {
                None => r == Inquiry::<InquireCred>::Done(GSS_S_FAILURE, 0),
                Some(c) => r matches Inquiry::Remote(info) && gpm::inquired(c, info),
            }
        },
{
    if cred.local != 0 {
        return Inquiry::Local;
    }
    match &cred.remote {
        None => Inquiry::Done(GSS_S_FAILURE, 0),
        Some(c) => Inquiry::Remote(gpm::inquire_cred(c)),
    }
}

/// The local mechanism is asked about the special form of the mechanism; of a
/// remote credential, what is known for the regular form is the answer.
pub fn gssi_inquire_cred_by_mech(
    reg: &mut Registry,
    cred: &CredHandle,
    mech_type: Option<&[u8]>,
) -> (r: (Inquiry<InquireCredByMech>, Option<Vec<u8>>))
    requires
        special::well_formed(old(reg)@),
    ensures
        special::well_formed(final(reg)@),
        if cred.local != 0 {
            &&& r.0 is Local
            &&& match mech_type {
                Some(m) => {
                    &&& final(reg)@ == special::with_mech(old(reg)@, m@)
                    &&& r.1 matches Some(sp) && sp@ == special::special_of(m@)
                },
                None => {
                    &&& final(reg)@ == old(reg)@
                    &&& if old(reg)@.len() > 0 {
                        r.1 matches Some(sp) && sp@ == special::special_of(old(reg)@[0])
                    } else {
                        r.1 is None
                    }
                },
            }
        } else {
            &&& final(reg)@ == old(reg)@
            &&& r.1 is None
            &&& match cred.remote {
                None => r.0 == Inquiry::<InquireCredByMech>::Done(GSS_S_FAILURE, 0),
                Some(c) => r.0 matches Inquiry::Remote(info) && gpm::inquired_by_mech(
                    c,
                    match mech_type {
                        Some(m) => special::regular_of(old(reg)@, m@),
                        None => Seq::empty(),
                    },
                    info,
                ),
            }
        },
{
    if cred.local != 0 {
        let sp = reg.special_bytes(mech_type);
        return (Inquiry::Local, sp);
    }
    match &cred.remote {
        None => (Inquiry::Done(GSS_S_FAILURE, 0), None),
        Some(c) => {
            let mech = match reg.unspecial_bytes(mech_type) {
                Some(m) => m,
                None => Vec::new(),
            };
            (Inquiry::Remote(gpm::inquire_cred_by_mech(c, mech.as_slice())), None)
        },
    }
}

// ---- operations on one credential ----

/// What an operation does with the credential that it is given.
#[derive(Debug, Clone, Copy, PartialEq, Eq)]
pub enum CredUse {
    /// It is done with the local credential.
    Local(usize),
    /// It is done with the remote credential.
    Remote,
    /// It is refused with this major status.
    Refused(u32),
}

/// An inquiry by OID is for local credentials.
pub fn gssi_inquire_cred_by_oid(cred: Option<&CredHandle>) -> (r: CredUse)
    ensures
        r == match cred {
            None => CredUse::Refused(GSS_S_CALL_INACCESSIBLE_READ),
            Some(c) => if c.local == 0 {
                CredUse::Refused(GSS_S_UNAVAILABLE)
            } else {
                CredUse::Local(c.local)
            },
        },
{
    match cred {
        None => CredUse::Refused(GSS_S_CALL_INACCESSIBLE_READ),
        Some(c) => if c.local == 0 {
            CredUse::Refused(GSS_S_UNAVAILABLE)
        } else {
            CredUse::Local(c.local)
        },
    }
}

/// Options can be set on local credentials alone.
pub fn gssi_set_cred_option(cred: Option<&CredHandle>) -> (r: CredUse)
    ensures
        r == match cred {
            None => CredUse::Refused(GSS_S_CALL_INACCESSIBLE_READ),
            Some(c) => if c.remote is Some || c.local == 0 {
                CredUse::Refused(GSS_S_UNAVAILABLE)
            } else {
                CredUse::Local(c.local)
            },
        },
{
    match cred {
        None => CredUse::Refused(GSS_S_CALL_INACCESSIBLE_READ),
        Some(c) => if c.remote.is_some() || c.local == 0 {
            CredUse::Refused(GSS_S_UNAVAILABLE)
        } else {
            CredUse::Local(c.local)
        },
    }
}

/// A remote credential is stored in a credential cache, and any other by the
/// local mechanism.
pub fn gssi_store_cred_into(cred: Option<&CredHandle>) -> (r: CredUse)
    ensures
        r == match cred {
            None => CredUse::Refused(GSS_S_CALL_INACCESSIBLE_READ),
            Some(c) => if c.remote is Some {
                CredUse::Remote
            } else {
                CredUse::Local(c.local)
            },
        },
{
    match cred {
        None => CredUse::Refused(GSS_S_CALL_INACCESSIBLE_READ),
        Some(c) => if c.remote.is_some() {
            CredUse::Remote
        } else {
            CredUse::Local(c.local)
        },
    }
}

/// Only a local credential can be exported.
pub fn gssi_export_cred(cred: Option<&CredHandle>) -> (r: CredUse)
    ensures
        r == match cred {
            None => CredUse::Refused(GSS_S_CALL_INACCESSIBLE_READ),
            Some(c) => if c.local == 0 {
                CredUse::Refused(GSS_S_CRED_UNAVAIL)
            } else {
                CredUse::Local(c.local)
            },
        },
{
    match cred {
        None => CredUse::Refused(GSS_S_CALL_INACCESSIBLE_READ),
        Some(c) => if c.local == 0 {
            CredUse::Refused(GSS_S_CRED_UNAVAIL)
        } else {
            CredUse::Local(c.local)
        },
    }
}

/// Credentials cannot be imported without a mechanism.
pub fn gssi_import_cred() -> (r: u32)
    ensures
        r == GSS_S_UNAVAILABLE,
{
    GSS_S_UNAVAILABLE
}

/// Releasing: the daemon is told of a remote credential, and what it says is the
/// status; nothing to release is a success.
pub fn gssi_release_cred(handle_given: bool, released: Option<Status>) -> (r: (u32, Option<u32>))
    ensures
        r == if !handle_given {
            (GSS_S_CALL_INACCESSIBLE_READ, None)
        } else {
            match released {
                Some(s) => if s.0 != GSS_S_COMPLETE {
                    (s.0, Some(s.1))
                } else {
                    (GSS_S_COMPLETE, Some(0))
                },
                None => (GSS_S_COMPLETE, Some(0)),
            }
        },
{
    if !handle_given {
        return (GSS_S_CALL_INACCESSIBLE_READ, None);
    }
    match released {
        Some(s) => if s.0 != GSS_S_COMPLETE {
            (s.0, Some(s.1))
        } else {
            (GSS_S_COMPLETE, Some(0))
        },
        None => (GSS_S_COMPLETE, Some(0)),
    }
}

/// An exported credential as the mechglue takes it: the length of the whole, the
/// special form of the mechanism, and the token.
pub fn gssi_import_cred_by_mech(
    reg: &mut Registry,
    mech_type: Option<&[u8]>,
    token: &[u8],
) -> (r: Result<Vec<u8>, u32>)
    requires
        special::well_formed(old(reg)@),
    ensures
        special::well_formed(final(reg)@),
        match mech_type {
            Some(m) => {
                let sp = special::special_of(m@);
                &&& final(reg)@ == special::with_mech(old(reg)@, m@)
                &&& r matches Ok(out) && out@ == xdr::be32(
                    (4 + sp.len() + token@.len()) as u32,
                ) + sp + token@
            },
            None => {
                &&& final(reg)@ == old(reg)@
                &&& if old(reg)@.len() > 0 {
                    let sp = special::special_of(old(reg)@[0]);
                    r matches Ok(out) && out@ == xdr::be32(
                        (4 + sp.len() + token@.len()) as u32,
                    ) + sp + token@
                } else {
                    r == Err::<Vec<u8>, u32>(GSS_S_FAILURE)
                }
            },
        },
{
    match reg.special_bytes(mech_type) {
        None => Err(GSS_S_FAILURE),
        Some(sp) => {
            let total: u128 = 4 + sp.len() as u128 + token.len() as u128;
            let head = xdr::word_bytes(total as u32);
            let mut out: Vec<u8> = octets::copy(head.as_slice());
            xdr::append_bytes(&mut out, sp.as_slice());
            xdr::append_bytes(&mut out, token);
            Ok(out)
        },
    }
}

} // verus!
