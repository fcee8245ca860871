//! Contexts after they were established: export and import, inquiry, options and
//! deletion.

use vstd::prelude::*;

use crate::consts::{
    GSS_S_CALL_INACCESSIBLE_READ, GSS_S_COMPLETE, GSS_S_CONTEXT_EXPIRED, GSS_S_FAILURE,
    GSS_S_NO_CONTEXT, GSS_S_UNAVAILABLE,
};
use crate::gpm;
use crate::gssx::{GssxCtx, GssxName};
use crate::interposer::attempt::Status;
use crate::interposer::error;
use crate::interposer::handle;
use crate::interposer::handle::{CtxHandle, LocalCtx, NameHandle, OwnedOid};
use crate::interposer::special;
use crate::interposer::special::Registry;
use crate::octets;
use crate::xdr::Xdr;

verus! {

/// What is reported when there is no local context to work on: the minor status
/// mapped.
pub fn no_local_context(s: Status) -> (r: (u32, u32))
    ensures
        r == (s.0, error::mapped(s.1)),
{
    (s.0, error::map_error(s.1))
}

// ---- export and import ----

/// After the local mechanism has exported a context: with a success the context
/// is given up, and the daemon is told of the remote one that is handed back.
pub fn gssi_export_sec_context(ctx: &mut CtxHandle, major: u32, local: usize) -> (r: Option<
    GssxCtx,
>)
    ensures
        final(ctx).local == local,
        if major == GSS_S_COMPLETE {
            final(ctx).remote is None && r == old(ctx).remote
        } else {
            final(ctx).remote == old(ctx).remote && r is None
        },
{
    ctx.local = local;
    if major == GSS_S_COMPLETE {
        ctx.remote.take()
    } else {
        None
    }
}

/// Contexts cannot be imported without a mechanism.
pub fn gssi_import_sec_context() -> (r: u32)
    ensures
        r == GSS_S_UNAVAILABLE,
{
    GSS_S_UNAVAILABLE
}

/// A context is imported by the local mechanism, under the special form of its
/// mechanism.
pub fn gssi_import_sec_context_by_mech(
    reg: &mut Registry,
    mech_type: Option<&[u8]>,
    token: &[u8],
) -> (r: Result<Vec<u8>, u32>)
    requires
        special::well_formed(old(reg)@),
    ensures
        special::well_formed(final(reg)@),
        match mech_type {
            Some(m) => {
                &&& final(reg)@ == special::with_mech(old(reg)@, m@)
                &&& r matches Ok(out) && out@ == handle::wrapped(special::special_of(m@), token@)
            },
            None => {
                &&& final(reg)@ == old(reg)@
                &&& if old(reg)@.len() > 0 {
                    r matches Ok(out) && out@ == handle::wrapped(
                        special::special_of(old(reg)@[0]),
                        token@,
                    )
                } else {
                    r == Err::<Vec<u8>, u32>(GSS_S_FAILURE)
                }
            },
        },
{
    match handle::wrap_sec_ctx_token(reg, mech_type, token) {
        Some(w) => Ok(w),
        None => Err(GSS_S_FAILURE),
    }
}

// ---- inquiry ----

/// How the remaining lifetime of a context is known.
#[derive(Debug, Clone, Copy, PartialEq, Eq)]
pub enum ContextTime {
    /// This is the major status and the lifetime.
    Known(u32, u32),
    /// The local mechanism is asked about this context.
    Local(usize),
    /// There is none: this is the major status.
    Refused(u32),
}

/// The remaining lifetime of a context. A remote context without any left is
/// expired.
pub fn gssi_context_time(ctx: Option<&CtxHandle>) -> (r: ContextTime)
    ensures
        r == match ctx {
            None => ContextTime::Refused(GSS_S_CALL_INACCESSIBLE_READ),
            Some(c) => match c.remote {
                Some(remote) => if remote.lifetime as u32 > 0 {
                    ContextTime::Known(GSS_S_COMPLETE, remote.lifetime as u32)
                } else {
                    ContextTime::Known(GSS_S_CONTEXT_EXPIRED, 0)
                },
                None => if c.local != 0 {
                    ContextTime::Local(c.local)
                } else {
                    ContextTime::Refused(GSS_S_NO_CONTEXT)
                },
            },
        },
{
    let c = match ctx {
        None => {
            return ContextTime::Refused(GSS_S_CALL_INACCESSIBLE_READ);
        },
        Some(c) => c,
    };
    match &c.remote {
        Some(remote) => {
            let info = gpm::inquire_context(remote);
            if info.lifetime > 0 {
                ContextTime::Known(GSS_S_COMPLETE, info.lifetime)
            } else {
                ContextTime::Known(GSS_S_CONTEXT_EXPIRED, 0)
            }
        },
        None => {
            if c.local != 0 {
                ContextTime::Local(c.local)
            } else {
                ContextTime::Refused(GSS_S_NO_CONTEXT)
            }
        },
    }
}

/// What is known of a context.
pub struct ContextInfo {
    /// The names that were wanted.
    pub src_name: Option<NameHandle>,
    pub targ_name: Option<NameHandle>,
    pub lifetime: u32,
    pub mech: Vec<u8>,
    pub ctx_flags: u32,
    pub locally_initiated: i32,
    pub open: i32,
}

/// Where an inquiry about a context is answered.
pub enum ContextInquiry {
    /// By the local mechanism, about this context.
    Local(usize),
    /// From what is known of the remote context.
    Remote(ContextInfo),
    /// Nowhere: this is the major status.
    Refused(u32),
}

/// A name that is handed out for a context: it belongs to the mechanism of the
/// context.
pub open spec fn is_context_name(
    n: Option<NameHandle>,
    wanted: bool,
    remote: GssxName,
    mech: Seq<u8>,
) -> bool {
    if wanted {
        n matches Some(h) && {
            &&& h.local == 0
            &&& h.remote matches Some(g) && g.tree() == remote.tree()
            &&& h.mech() == Some(mech)
        }
    } else {
        n is None
    }
}

fn context_name(wanted: bool, remote: GssxName, mech: &Vec<u8>) -> (r: Option<NameHandle>)
    ensures
        is_context_name(r, wanted, remote, mech@),
{
    if wanted {
        let mech_type = OwnedOid::new(octets::copy(mech.as_slice()));
        Some(NameHandle { mech_type: Some(mech_type), remote: Some(remote), local: 0 })
    } else {
        None
    }
}

/// A flag as C has it.
pub open spec fn flag(b: bool) -> i32 {
    if b {
        1
    } else {
        0
    }
}

/// Inquire about a context: the local mechanism is asked where it has the
/// context, and otherwise what the daemon said is the answer.
pub fn gssi_inquire_context(
    ctx: Option<&CtxHandle>,
    wants_src_name: bool,
    wants_targ_name: bool,
) -> (r: ContextInquiry)
    ensures
        match ctx {
            None => r == ContextInquiry::Refused(GSS_S_CALL_INACCESSIBLE_READ),
            Some(c) => if c.local != 0 {
                r == ContextInquiry::Local(c.local)
            } else {
                match c.remote {
                    None => r == ContextInquiry::Refused(GSS_S_CALL_INACCESSIBLE_READ),
                    Some(g) => r matches ContextInquiry::Remote(info) && {
                        &&& is_context_name(info.src_name, wants_src_name, g.src_name, g.mech@)
                        &&& is_context_name(info.targ_name, wants_targ_name, g.targ_name, g.mech@)
                        &&& info.lifetime == g.lifetime as u32
                        &&& info.mech@ == g.mech@
                        &&& info.ctx_flags == g.ctx_flags as u32
                        &&& info.locally_initiated == flag(g.locally_initiated)
                        &&& info.open == flag(g.open)
                    },
                }
            },
        },
{
    let c = match ctx {
        None => {
            return ContextInquiry::Refused(GSS_S_CALL_INACCESSIBLE_READ);
        },
        Some(c) => c,
    };
    if c.local != 0 {
        return ContextInquiry::Local(c.local);
    }
    let g = match &c.remote {
        None => {
            return ContextInquiry::Refused(GSS_S_CALL_INACCESSIBLE_READ);
        },
        Some(g) => g,
    };
    let info = gpm::inquire_context(g);
    let mech = info.mech;
    let src_name = context_name(wants_src_name, info.src_name, &mech);
    let targ_name = context_name(wants_targ_name, info.targ_name, &mech);
    ContextInquiry::Remote(
        ContextInfo {
            src_name,
            targ_name,
            lifetime: info.lifetime,
            mech,
            ctx_flags: info.ctx_flags,
            locally_initiated: if info.locally_initiated {
                1
            } else {
                0
            },
            open: if info.open {
                1
            } else {
                0
            },
        },
    )
}

/// A name that the local mechanism gave for a context, with the mechanism of the
/// context, which is empty where it gave none.
pub fn local_context_name(local: usize, mech: Option<&[u8]>) -> (r: NameHandle)
    ensures
        r.local == local,
        r.remote is None,
        r.mech() == Some(
            match mech {
                Some(m) => m@,
                None => Seq::empty(),
            },
        ),
{
    let bytes = match mech {
        Some(m) => octets::copy(m),
        None => Vec::new(),
    };
    let mech_type = OwnedOid::new(bytes);
    NameHandle { mech_type: Some(mech_type), remote: None, local }
}

// ---- options and deletion ----

/// How an option is set on a context.
#[derive(Debug)]
pub enum OptionStep {
    /// On this local context, which may not exist yet.
    Local(usize),
    /// After importing it from this token.
    Import(Vec<u8>),
    /// Not at all: the context is deleted, and this is reported.
    Delete(u32, u32),
}

/// Begin to set an option on a context. A remote context is imported first; where
/// that fails the context is given up.
pub fn gssi_set_sec_context_option(reg: &mut Registry, ctx: &CtxHandle) -> (r: OptionStep)
    requires
        special::well_formed(old(reg)@),
    ensures
        special::well_formed(final(reg)@),
        match (ctx.remote, ctx.local == 0) {
            (Some(remote), true) => match handle::exported_parts(remote.exported_context_token@) {
                Some((mech, inner)) => {
                    &&& final(reg)@ == special::with_mech(old(reg)@, mech)
                    &&& r matches OptionStep::Import(t) && t@ == handle::wrapped(
                        special::special_of(mech),
                        inner,
                    )
                },
                None => r == OptionStep::Delete(GSS_S_FAILURE, 0) && final(reg)@ == old(reg)@,
            },
            _ => r == OptionStep::Local(ctx.local) && final(reg)@ == old(reg)@,
        },
{
    match handle::ensure_local_ctx(reg, Some(ctx)) {
        Ok(LocalCtx::Ready(l)) => OptionStep::Local(l),
        Ok(LocalCtx::Import(t)) => OptionStep::Import(t),
        Err(s) => OptionStep::Delete(s.0, error::map_error(s.1)),
    }
}

/// After the import, or after the option was set: a failure deletes the context.
/// The minor status of a failed import is reported mapped; that of the option is
/// the local mechanism's own.
pub fn option_failed(s: Status, importing: bool) -> (r: Option<(u32, Option<u32>)>)
    ensures
        r == if s.0 == GSS_S_COMPLETE {
            None::<(u32, Option<u32>)>
        } else {
            Some(
                (
                    s.0,
                    if importing {
                        Some(error::mapped(s.1))
                    } else {
                        None
                    },
                ),
            )
        },
{
    if s.0 == GSS_S_COMPLETE {
        None
    } else if importing {
        Some((s.0, Some(error::map_error(s.1))))
    } else {
        Some((s.0, None))
    }
}

/// The status of deleting a context, from what the local mechanism and the daemon
/// said, each where it had one: the first failure.
pub fn gssi_delete_sec_context(local: Option<Status>, remote: Option<Status>) -> (r: (
    u32,
    Option<u32>,
))
    ensures
        r == match (local, remote) {
            (Some(l), _) if l.0 != GSS_S_COMPLETE => (l.0, Some(error::mapped(l.1))),
            (_, Some(g)) if g.0 != GSS_S_COMPLETE => (g.0, Some(error::mapped(g.1))),
            _ => (GSS_S_COMPLETE, None),
        },
{
    match local {
        Some(l) => {
            if l.0 != GSS_S_COMPLETE {
                return (l.0, Some(error::map_error(l.1)));
            }
        },
        None => {},
    }
    match remote {
        Some(g) => {
            if g.0 != GSS_S_COMPLETE {
                return (g.0, Some(error::map_error(g.1)));
            }
        },
        None => {},
    }
    (GSS_S_COMPLETE, None)
}

} // verus!
