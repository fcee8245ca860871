//! Context initiation and acceptance.
//!
//! A call is carried through steps: the caller performs what a step asks for and
//! hands in what came of it.

use vstd::prelude::*;

use crate::server::config;
use crate::consts::{
    GSS_S_BAD_MECH, GSS_S_CALL_INACCESSIBLE_READ, GSS_S_COMPLETE, GSS_S_DEFECTIVE_CREDENTIAL,
    GSS_S_FAILURE,
};
use crate::gpm;
use crate::gpm::{AcceptSecContext, InitSecContext};
use crate::gssx::{GssxCb, GssxCred, GssxCtx, GssxName};
use crate::interposer::attempt;
use crate::interposer::attempt::{Attempt, Operation, Status, Turn};
use crate::interposer::behavior::Behavior;
use crate::interposer::error;
use crate::interposer::handle::{CredHandle, CtxHandle, NameHandle};
use crate::interposer::special;
use crate::proc::{ArgAcceptSecContext, ArgInitSecContext};
use crate::xdr;

verus! {

// ---- initiation ----

/// A call to initiate a context must name a target, and a mechanism that is not
/// special; the major status of one that does not.
pub fn check_init(target_given: bool, mech_type: Option<&[u8]>) -> (r: Option<u32>)
    ensures
        r == if !target_given {
            Some(GSS_S_CALL_INACCESSIBLE_READ)
        } else if mech_type is None || special::is_special(mech_type->Some_0@) {
            Some(GSS_S_BAD_MECH)
        } else {
            None
        },
{
    if !target_given {
        return Some(GSS_S_CALL_INACCESSIBLE_READ);
    }
    if mech_type.is_none() || special::is_special_oid(mech_type) {
        return Some(GSS_S_BAD_MECH);
    }
    None
}

/// What a step of initiation asks for.
#[derive(Debug, Clone, Copy, PartialEq, Eq)]
pub enum InitStep {
    /// Turn the remote name into a local one, for the mechanism.
    NameToLocal,
    /// Initiate with the local mechanism.
    Local,
    /// Turn the local name into a remote one.
    LocalToName,
    /// Obtain remote default credentials for initiation.
    DefaultCreds,
    /// Ask the daemon.
    Remote,
    /// Store the credential that the daemon has modified.
    Store,
    /// Report this major and this minor status.
    Done(u32, u32),
}

impl InitStep {
    /// The step is for the daemon's sake.
    pub open spec fn for_daemon(self) -> bool {
        self is LocalToName || self is DefaultCreds || self is Remote || self is Store
    }

    /// The step is for the local mechanism's sake.
    pub open spec fn for_local(self) -> bool {
        self is NameToLocal || self is Local
    }
}

/// What a successful answer of the daemon gives the caller.
#[derive(Debug)]
pub struct InitOutput {
    pub actual_mech: Vec<u8>,
    pub output_token: Option<Vec<u8>>,
    /// The context flags and the lifetime, where the daemon gave a context.
    pub ret_flags: Option<u32>,
    pub time_rec: Option<u32>,
}

/// A context being initiated.
pub struct InitCall {
    pub attempt: Attempt,
    pub ctx: CtxHandle,
    pub cred: CredHandle,
    pub name: NameHandle,
    pub output: Option<InitOutput>,
}

/// A context or a credential of the local mechanism is carried on with it alone.
pub open spec fn local_only(context: Option<CtxHandle>, cred: Option<CredHandle>) -> bool {
    (context is Some && context->Some_0.local != 0) || (cred is Some && cred->Some_0.local != 0)
}

/// A local context does not go with a credential that is not local.
pub open spec fn mismatched(context: Option<CtxHandle>, cred: Option<CredHandle>) -> bool {
    context is Some && context->Some_0.local != 0 && cred is Some && cred->Some_0.local == 0
}

/// What is reported: the minor status only with a failure, and mapped.
pub open spec fn init_report(s: Status) -> InitStep {
    InitStep::Done(
        s.0,
        if gpm::keeps_context(s.0) {
            0
        } else {
            error::mapped(s.1)
        },
    )
}

impl InitCall {
    /// The step that the call has come to.
    pub open spec fn step(self) -> InitStep {
        match self.attempt.turn {
            Turn::Remote => if self.name.local != 0 && self.name.remote is None {
                InitStep::LocalToName
            } else if self.cred.remote is None {
                InitStep::DefaultCreds
            } else {
                InitStep::Remote
            },
            Turn::Report(s) => init_report(s),
            _ => if self.name.local == 0 && self.name.remote is Some {
                InitStep::NameToLocal
            } else {
                InitStep::Local
            },
        }
    }

    /// Under `LOCAL_ONLY` and `REMOTE_ONLY` the call stays on its side.
    pub open spec fn apart(self) -> bool {
        &&& self.attempt.rule is Initiate
        &&& self.attempt.behavior is LocalOnly ==> self.attempt.turn is LocalFirst
            || self.attempt.turn is Report
        &&& self.attempt.behavior is RemoteOnly ==> self.attempt.turn is Remote
            || self.attempt.turn is Report
    }

    /// The call stays on its side with this step.
    pub open spec fn stays_apart(self, step: InitStep) -> bool {
        &&& self.apart()
        &&& self.attempt.behavior is LocalOnly ==> !step.for_daemon()
        &&& self.attempt.behavior is RemoteOnly ==> !step.for_local()
    }

    /// A local attempt is under way.
    pub open spec fn at_local(self) -> bool {
        self.attempt.turn is LocalFirst || self.attempt.turn is LocalLast
    }

    fn next(&self) -> (r: InitStep)
        ensures
            r == self.step(),
    {
        match self.attempt.turn {
            Turn::Remote => {
                if self.name.local != 0 && self.name.remote.is_none() {
                    InitStep::LocalToName
                } else if self.cred.remote.is_none() {
                    InitStep::DefaultCreds
                } else {
                    InitStep::Remote
                }
            },
            Turn::Report(s) => {
                let minor: u32 = if attempt::keep(s.0) {
                    0
                } else {
                    error::map_error(s.1)
                };
                InitStep::Done(s.0, minor)
            },
            _ => {
                if self.name.local == 0 && self.name.remote.is_some() {
                    InitStep::NameToLocal
                } else {
                    InitStep::Local
                }
            },
        }
    }

    /// Begin, with the context and the credential that were given, if any.
    pub fn gssi_init_sec_context(
        behavior: Behavior,
        context: Option<CtxHandle>,
        cred: Option<CredHandle>,
        name: NameHandle,
    ) -> (r: (InitCall, InitStep))
        ensures
            r.0.name == name,
            r.0.output is None,
            match context {
                Some(c) => r.0.ctx == c,
                None => r.0.ctx.holds_nothing(),
            },
            match cred {
                Some(c) => r.0.cred == c,
                None => {
                    &&& r.0.cred.remote is None && r.0.cred.local == 0
                    &&& r.0.cred.default_creds && r.0.cred.store@.len() == 0
                },
            },
            ({
                let begun = Attempt::begun(
                    Operation::Initiate,
                    if local_only(context, cred) {
                        Behavior::LocalOnly
                    } else {
                        behavior
                    },
                );
                r.0.attempt == if mismatched(context, cred) {
                    begun.abandoned((GSS_S_DEFECTIVE_CREDENTIAL, 0))
                } else {
                    begun
                }
            }),
            r.1 == r.0.step(),
            r.0.stays_apart(r.1),
    {
        let mut local = false;
        let ctx = match context {
            Some(c) => {
                if c.local != 0 {
                    local = true;
                }
                c
            },
            None => CtxHandle::empty(),
        };
        let mut defective = false;
        let cred = match cred {
            Some(c) => {
                if c.local != 0 {
                    local = true;
                } else if local {
                    defective = true;
                }
                c
            },
            None => {
                let c = CredHandle::new(true, None);
                assert(config::props_view(c.store@).len() == 0);
                c
            },
        };
        let behavior = if local {
            Behavior::LocalOnly
        } else {
            behavior
        };
        let mut attempt = Attempt::begin(Operation::Initiate, behavior);
        if defective {
            attempt.abandon((GSS_S_DEFECTIVE_CREDENTIAL, 0));
        }
        let call = InitCall { attempt, ctx, cred, name, output: None };
        let step = call.next();
        (call, step)
    }

    /// The remote name was turned into this local one, or not: then the local
    /// attempt has failed.
    pub fn named(&mut self, s: Status, local: usize) -> (r: InitStep)
        requires
            old(self).at_local(),
        ensures
            final(self).ctx == old(self).ctx,
            final(self).cred == old(self).cred,
            final(self).output == old(self).output,
            if s.0 == GSS_S_COMPLETE {
                &&& final(self).name == (NameHandle { local, ..old(self).name })
                &&& final(self).attempt == old(self).attempt
                &&& r == InitStep::Local
            } else {
                &&& final(self).name == old(self).name
                &&& final(self).attempt == old(self).attempt.after_local(s)
                &&& r == final(self).step()
            },
            old(self).apart() ==> final(self).stays_apart(r),
    {
        if s.0 == GSS_S_COMPLETE {
            self.name.local = local;
            InitStep::Local
        } else {
            self.attempt.local(s);
            self.next()
        }
    }

    /// The local mechanism has answered, and this is its context.
    pub fn local_done(&mut self, s: Status, local: usize) -> (r: InitStep)
        requires
            old(self).at_local(),
        ensures
            final(self).ctx == (CtxHandle { local, ..old(self).ctx }),
            final(self).cred == old(self).cred,
            final(self).name == old(self).name,
            final(self).output == old(self).output,
            final(self).attempt == old(self).attempt.after_local(s),
            r == final(self).step(),
            old(self).apart() ==> final(self).stays_apart(r),
    {
        self.ctx.local = local;
        self.attempt.local(s);
        self.next()
    }

    /// The local name was turned into this remote one, or not: then the call is
    /// over.
    pub fn told_name(&mut self, told: (u32, u32, Option<GssxName>)) -> (r: InitStep)
        requires
            old(self).attempt.turn is Remote,
        ensures
            final(self).ctx == old(self).ctx,
            final(self).cred == old(self).cred,
            final(self).output == old(self).output,
            if told.0 == GSS_S_COMPLETE {
                &&& final(self).name == (NameHandle { remote: told.2, ..old(self).name })
                &&& final(self).attempt == old(self).attempt
                &&& r == if old(self).cred.remote is None {
                    InitStep::DefaultCreds
                } else {
                    InitStep::Remote
                }
            } else {
                &&& final(self).name == old(self).name
                &&& final(self).attempt == old(self).attempt.abandoned((told.0, told.1))
                &&& r == final(self).step()
            },
            old(self).apart() ==> final(self).stays_apart(r),
    {
        if told.0 == GSS_S_COMPLETE {
            self.name.remote = told.2;
            if self.cred.remote.is_none() {
                InitStep::DefaultCreds
            } else {
                InitStep::Remote
            }
        } else {
            self.attempt.abandon((told.0, told.1));
            self.next()
        }
    }

    /// The remote default credentials, if there are any.
    pub fn defaulted(&mut self, remote: Option<GssxCred>) -> (r: InitStep)
        requires
            old(self).attempt.turn is Remote,
        ensures
            final(self).ctx == old(self).ctx,
            final(self).cred == (CredHandle { remote, ..old(self).cred }),
            final(self).name == old(self).name,
            final(self).output == old(self).output,
            final(self).attempt == old(self).attempt,
            r == InitStep::Remote,
            old(self).apart() ==> final(self).stays_apart(r),
    {
        self.cred.remote = remote;
        InitStep::Remote
    }

    /// What the daemon is asked.
    pub fn remote_arg(
        &self,
        mech: &[u8],
        req_flags: u32,
        time_req: u32,
        input_cb: Option<&GssxCb>,
        input_token: Option<&[u8]>,
    ) -> (r: ArgInitSecContext)
        ensures
            r.call_ctx.blank(),
            xdr::optional_tree(r.context_handle) == xdr::optional_tree(self.ctx.remote),
            xdr::optional_tree(r.cred_handle) == xdr::optional_tree(self.cred.remote),
            xdr::optional_tree(r.target_name) == xdr::optional_tree(self.name.remote),
            r.mech_type@ == mech@,
            r.req_flags == req_flags,
            r.time_req == time_req,
            xdr::optional_tree(r.input_cb) == gpm::ref_tree(input_cb),
            match input_token {
                Some(t) => r.input_token matches Some(o) && o@ == t@,
                None => r.input_token is None,
            },
            r.options@.len() == 1,
            r.options@[0].option@ == gpm::CRED_SYNC_OPTION@,
            r.options@[0].value@ == gpm::CRED_SYNC_DEFAULT@,
    {
        gpm::init_sec_context_arg(
            self.cred.remote.as_ref(),
            self.ctx.remote.as_ref(),
            self.name.remote.as_ref(),
            mech,
            req_flags,
            time_req,
            input_cb,
            input_token,
        )
    }

    /// The daemon has answered. A success gives the context and the outputs, and
    /// a modified credential, which is then stored.
    pub fn remote_done(&mut self, res: InitSecContext) -> (r: InitStep)
        requires
            old(self).attempt.turn is Remote,
        ensures
            final(self).name == old(self).name,
            final(self).attempt == old(self).attempt.after_remote((res.major, res.minor)),
            if gpm::keeps_context(res.major) {
                &&& final(self).ctx == (CtxHandle { remote: res.context, ..old(self).ctx })
                &&& final(self).cred == if res.out_cred is Some {
                    CredHandle { remote: res.out_cred, ..old(self).cred }
                } else {
                    old(self).cred
                }
                &&& final(self).output matches Some(out) && {
                    &&& out.actual_mech == res.actual_mech
                    &&& out.output_token == res.output_token
                    &&& out.ret_flags == match res.context {
                        Some(c) => Some(c.ctx_flags as u32),
                        None => None,
                    }
                    &&& out.time_rec == match res.context {
                        Some(c) => Some(c.lifetime as u32),
                        None => None,
                    }
                }
                &&& r == if res.out_cred is Some {
                    InitStep::Store
                } else {
                    final(self).step()
                }
            } else {
                &&& final(self).ctx == old(self).ctx
                &&& final(self).cred == old(self).cred
                &&& final(self).output == old(self).output
                &&& r == final(self).step()
            },
            old(self).apart() ==> final(self).stays_apart(r),
    {
        self.attempt.remote((res.major, res.minor));
        if !attempt::keep(res.major) {
            return self.next();
        }
        let (ret_flags, time_rec) = match &res.context {
            Some(c) => (Some(c.ctx_flags as u32), Some(c.lifetime as u32)),
            None => (None, None),
        };
        self.output = Some(
            InitOutput {
                actual_mech: res.actual_mech,
                output_token: res.output_token,
                ret_flags,
                time_rec,
            },
        );
        self.ctx.remote = res.context;
        if res.out_cred.is_some() {
            self.cred.remote = res.out_cred;
            return InitStep::Store;
        }
        self.next()
    }

    /// The modified credential was stored, or not: that does not matter.
    pub fn stored(&self) -> (r: InitStep)
        requires
            self.attempt.turn is Report,
        ensures
            r == self.step(),
    {
        self.next()
    }

    /// Whether the context handle stays with the caller: it does with a success,
    /// and with a failure where there is still a context behind it.
    pub fn keeps_handle(&self, major: u32) -> (r: bool)
        ensures
            r == (gpm::keeps_context(major) || !self.ctx.holds_nothing()),
    {
        attempt::keep(major) || self.ctx.local != 0 || self.ctx.remote.is_some()
    }
}

/// The daemon's success is reported as it is, with the daemon's context, also
/// where a local attempt has failed before.
pub proof fn remote_success_is_reported(call: InitCall, res: InitSecContext)
    requires
        call.attempt.rule is Initiate,
        gpm::keeps_context(res.major),
    ensures
        call.attempt.after_remote((res.major, res.minor)).turn == Turn::Report(
            (res.major, res.minor),
        ),
        init_report((res.major, res.minor)) == InitStep::Done(res.major, 0),
{
}

/// Where the first local attempt fails and the daemon fails too, the local
/// failure is reported, with its minor status mapped.
pub proof fn local_failure_is_reported(call: InitCall, local: Status, remote: Status)
    requires
        call.attempt == Attempt::begun(Operation::Initiate, Behavior::LocalFirst),
        !gpm::keeps_context(local.0),
        !gpm::keeps_context(remote.0),
    ensures
        call.attempt.after_local(local).turn is Remote,
        call.attempt.after_local(local).after_remote(remote).turn == Turn::Report(local),
        init_report(local) == InitStep::Done(local.0, error::mapped(local.1)),
{
}

// ---- acceptance ----

/// What a step of acceptance asks for.
#[derive(Debug, Clone, Copy, PartialEq, Eq)]
pub enum AcceptStep {
    /// Obtain default credentials for acceptance, under this behavior.
    DefaultCreds(Behavior),
    /// Accept with the local mechanism.
    Local,
    /// Ask the daemon.
    Remote,
    /// Report this major and this minor status.
    Done(u32, u32),
}

/// What a successful answer of the daemon gives the caller.
#[derive(Debug)]
pub struct AcceptOutput {
    pub actual_mech: Vec<u8>,
    pub output_token: Option<Vec<u8>>,
    /// The context flags and the lifetime, where the daemon gave a context.
    pub ret_flags: Option<u32>,
    pub time_rec: Option<u32>,
}

/// A context being accepted.
pub struct AcceptCall {
    pub behavior: Behavior,
    pub ctx: CtxHandle,
    pub cred: CredHandle,
    /// The credential was obtained for this call, and is released with it.
    pub owned: bool,
    /// Where the caller wants to know the initiator.
    pub name: Option<NameHandle>,
    /// Where the caller wants a delegated credential.
    pub deleg: Option<CredHandle>,
    pub output: Option<AcceptOutput>,
}

/// A context that has begun on one side stays there.
pub open spec fn accept_behavior(behavior: Behavior, context: Option<CtxHandle>) -> Behavior {
    match context {
        Some(c) => if c.local != 0 {
            Behavior::LocalOnly
        } else if c.remote is Some {
            Behavior::RemoteOnly
        } else {
            behavior
        },
        None => behavior,
    }
}

/// The step for a credential: the side that it is on, which must not be the one
/// that the call may not use.
pub open spec fn accept_step(behavior: Behavior, cred: CredHandle) -> AcceptStep {
    if cred.local != 0 {
        if behavior is RemoteOnly {
            AcceptStep::Done(GSS_S_DEFECTIVE_CREDENTIAL, 0)
        } else {
            AcceptStep::Local
        }
    } else if cred.remote is Some {
        if behavior is LocalOnly {
            AcceptStep::Done(GSS_S_DEFECTIVE_CREDENTIAL, 0)
        } else {
            AcceptStep::Remote
        }
    } else {
        match behavior {
            Behavior::LocalOnly => AcceptStep::Local,
            Behavior::RemoteOnly => AcceptStep::Remote,
            _ => AcceptStep::Done(GSS_S_FAILURE, 0),
        }
    }
}

/// The minor status is always reported, mapped.
pub open spec fn accept_report(s: Status) -> AcceptStep {
    AcceptStep::Done(s.0, error::mapped(s.1))
}

impl AcceptCall {
    fn choose_step(&self) -> (r: AcceptStep)
        ensures
            r == accept_step(self.behavior, self.cred),
    {
        if self.cred.local != 0 {
            match self.behavior {
                Behavior::RemoteOnly => AcceptStep::Done(GSS_S_DEFECTIVE_CREDENTIAL, 0),
                _ => AcceptStep::Local,
            }
        } else if self.cred.remote.is_some() {
            match self.behavior {
                Behavior::LocalOnly => AcceptStep::Done(GSS_S_DEFECTIVE_CREDENTIAL, 0),
                _ => AcceptStep::Remote,
            }
        } else {
            match self.behavior {
                Behavior::LocalOnly => AcceptStep::Local,
                Behavior::RemoteOnly => AcceptStep::Remote,
                _ => AcceptStep::Done(GSS_S_FAILURE, 0),
            }
        }
    }

    /// Begin, with the context and the credential that were given, if any.
    pub fn gssi_accept_sec_context(
        behavior: Behavior,
        context: Option<CtxHandle>,
        cred: Option<CredHandle>,
        wants_name: bool,
        wants_deleg: bool,
    ) -> (r: (AcceptCall, AcceptStep))
        ensures
            r.0.behavior == accept_behavior(behavior, context),
            match context {
                Some(c) => r.0.ctx == c,
                None => r.0.ctx.holds_nothing(),
            },
            r.0.owned == cred is None,
            match cred {
                Some(c) => {
                    &&& r.0.cred == c
                    &&& r.1 == accept_step(r.0.behavior, c)
                },
                None => {
                    &&& r.0.cred.remote is None && r.0.cred.local == 0
                    &&& r.0.cred.default_creds && r.0.cred.store@.len() == 0
                    &&& r.1 == AcceptStep::DefaultCreds(r.0.behavior)
                },
            },
            r.0.name is Some == wants_name,
            r.0.name matches Some(n) ==> n.mech_type is None && !n.usable(),
            r.0.deleg is Some == wants_deleg,
            r.0.deleg matches Some(d) ==> d.remote is None && d.local == 0 && !d.default_creds
                && d.store@.len() == 0,
            r.0.output is None,
    {
        let mut behavior = behavior;
        let ctx = match context {
            Some(c) => {
                if c.local != 0 {
                    behavior = Behavior::LocalOnly;
                } else if c.remote.is_some() {
                    behavior = Behavior::RemoteOnly;
                }
                c
            },
            None => CtxHandle::empty(),
        };
        let name = if wants_name {
            Some(NameHandle::empty())
        } else {
            None
        };
        let deleg = if wants_deleg {
            let d = CredHandle::new(false, None);
            assert(crate::server::config::props_view(d.store@).len() == 0);
            Some(d)
        } else {
            None
        };
        match cred {
            Some(c) => {
                let call = AcceptCall {
                    behavior,
                    ctx,
                    cred: c,
                    owned: false,
                    name,
                    deleg,
                    output: None,
                };
                let step = call.choose_step();
                (call, step)
            },
            None => {
                let defaults = CredHandle::new(true, None);
                assert(crate::server::config::props_view(defaults.store@).len() == 0);
                let call = AcceptCall {
                    behavior,
                    ctx,
                    cred: defaults,
                    owned: true,
                    name,
                    deleg,
                    output: None,
                };
                (call, AcceptStep::DefaultCreds(behavior))
            },
        }
    }

    /// The default credentials; without them the call is over.
    pub fn defaulted(&mut self, s: Status, cred: CredHandle) -> (r: AcceptStep)
        ensures
            final(self).behavior == old(self).behavior,
            final(self).ctx == old(self).ctx,
            final(self).cred == cred,
            final(self).owned == old(self).owned,
            final(self).name == old(self).name,
            final(self).deleg == old(self).deleg,
            final(self).output == old(self).output,
            r == if s.0 == GSS_S_COMPLETE {
                accept_step(old(self).behavior, cred)
            } else {
                accept_report(s)
            },
    {
        self.cred = cred;
        if s.0 == GSS_S_COMPLETE {
            self.choose_step()
        } else {
            AcceptStep::Done(s.0, error::map_error(s.1))
        }
    }

    /// The local mechanism has answered: its context, and the name and the
    /// delegated credential where they are wanted.
    pub fn local_done(&mut self, s: Status, ctx: usize, name: usize, deleg: usize) -> (r:
        AcceptStep)
        ensures
            final(self).behavior == old(self).behavior,
            final(self).ctx == (CtxHandle { local: ctx, ..old(self).ctx }),
            final(self).cred == old(self).cred,
            final(self).owned == old(self).owned,
            final(self).name == match old(self).name {
                Some(n) => Some(NameHandle { local: name, ..n }),
                None => None,
            },
            final(self).deleg == match old(self).deleg {
                Some(d) => Some(CredHandle { local: deleg, ..d }),
                None => None,
            },
            final(self).output == old(self).output,
            r == accept_report(s),
    {
        self.ctx.local = ctx;
        self.name = match self.name.take() {
            Some(n) => Some(
                NameHandle { mech_type: n.mech_type, remote: n.remote, local: name },
            ),
            None => None,
        };
        self.deleg = match self.deleg.take() {
            Some(d) => Some(
                CredHandle {
                    remote: d.remote,
                    store: d.store,
                    default_creds: d.default_creds,
                    local: deleg,
                },
            ),
            None => None,
        };
        AcceptStep::Done(s.0, error::map_error(s.1))
    }

    /// What the daemon is asked.
    pub fn remote_arg(&self, input_token: &[u8], input_cb: Option<&GssxCb>) -> (r:
        ArgAcceptSecContext)
        ensures
            r.call_ctx.blank(),
            xdr::optional_tree(r.context_handle) == xdr::optional_tree(self.ctx.remote),
            xdr::optional_tree(r.cred_handle) == xdr::optional_tree(self.cred.remote),
            r.input_token@ == input_token@,
            xdr::optional_tree(r.input_cb) == gpm::ref_tree(input_cb),
            r.ret_deleg_cred == self.deleg is Some,
            r.options@.len() == 0,
    {
        gpm::accept_sec_context_arg(
            self.ctx.remote.as_ref(),
            self.cred.remote.as_ref(),
            input_token,
            input_cb,
            self.deleg.is_some(),
        )
    }

    /// The daemon has answered. A success gives the context, the outputs, and the
    /// name and the delegated credential where they are wanted.
    pub fn remote_done(&mut self, res: AcceptSecContext) -> (r: AcceptStep)
        ensures
            final(self).behavior == old(self).behavior,
            final(self).cred == old(self).cred,
            final(self).owned == old(self).owned,
            if gpm::keeps_context(res.major) {
                &&& final(self).ctx == (CtxHandle { remote: res.context, ..old(self).ctx })
                &&& final(self).name == match old(self).name {
                    Some(n) => Some(NameHandle { remote: res.src_name, ..n }),
                    None => None,
                }
                &&& final(self).deleg == match old(self).deleg {
                    Some(d) => Some(CredHandle { remote: res.delegated_cred, ..d }),
                    None => None,
                }
                &&& final(self).output matches Some(out) && {
                    &&& out.actual_mech == res.actual_mech
                    &&& out.output_token == res.output_token
                    &&& out.ret_flags == match res.context {
                        Some(c) => Some(c.ctx_flags as u32),
                        None => None,
                    }
                    &&& out.time_rec == match res.context {
                        Some(c) => Some(c.lifetime as u32),
                        None => None,
                    }
                }
            } else {
                &&& final(self).ctx == old(self).ctx
                &&& final(self).name == old(self).name
                &&& final(self).deleg == old(self).deleg
                &&& final(self).output == old(self).output
            },
            r == accept_report((res.major, res.minor)),
    {
        let step = AcceptStep::Done(res.major, error::map_error(res.minor));
        if !attempt::keep(res.major) {
            return step;
        }
        let (ret_flags, time_rec) = match &res.context {
            Some(c) => (Some(c.ctx_flags as u32), Some(c.lifetime as u32)),
            None => (None, None),
        };
        self.output = Some(
            AcceptOutput {
                actual_mech: res.actual_mech,
                output_token: res.output_token,
                ret_flags,
                time_rec,
            },
        );
        self.ctx.remote = res.context;
        self.name = match self.name.take() {
            Some(n) => Some(
                NameHandle { mech_type: n.mech_type, remote: res.src_name, local: n.local },
            ),
            None => None,
        };
        self.deleg = match self.deleg.take() {
            Some(d) => Some(
                CredHandle {
                    remote: res.delegated_cred,
                    store: d.store,
                    default_creds: d.default_creds,
                    local: d.local,
                },
            ),
            None => None,
        };
        step
    }

    /// Whether the context handle stays with the caller, as in initiation.
    pub fn keeps_handle(&self, major: u32) -> (r: bool)
        ensures
            r == (gpm::keeps_context(major) || !self.ctx.holds_nothing()),
    {
        attempt::keep(major) || self.ctx.local != 0 || self.ctx.remote.is_some()
    }

    /// The remote credential that the daemon is told to release after the call:
    /// that of the default credentials.
    pub fn to_release(&self) -> (r: Option<&GssxCred>)
        ensures
            match (self.owned, self.cred.remote) {
                (true, Some(c)) => r matches Some(x) && *x == c,
                _ => r is None,
            },
    {
        if self.owned {
            self.cred.remote.as_ref()
        } else {
            None
        }
    }
}

/// Acceptance that has begun with a context of one side never changes to the
/// other: it goes on there, or fails.
pub proof fn acceptance_stays_on_its_side(
    behavior: Behavior,
    context: CtxHandle,
    cred: CredHandle,
)
    requires
        !context.holds_nothing(),
    ensures
        ({
            let step = accept_step(accept_behavior(behavior, Some(context)), cred);
            if context.local != 0 {
                !(step is Remote)
            } else {
                !(step is Local)
            }
        }),
{
}

} // verus!
