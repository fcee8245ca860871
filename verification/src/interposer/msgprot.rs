//! Message protection: always with the local mechanism, on the local context or
//! on one that is imported from the daemon's.

use vstd::prelude::*;

use crate::interposer::attempt::Status;
use crate::interposer::error;
use crate::interposer::handle;
use crate::interposer::handle::{CtxHandle, LocalCtx};
use crate::interposer::special;
use crate::interposer::special::Registry;

verus! {

/// What is reported when there is no local context: the minor status only where
/// there is one, mapped.
pub open spec fn protection_refusal(s: Status) -> (u32, Option<u32>) {
    (
        s.0,
        if s.1 != 0 {
            Some(error::mapped(s.1))
        } else {
            None
        },
    )
}

/// The report of a refusal.
pub fn refuse(s: Status) -> (r: (u32, Option<u32>))
    ensures
        r == protection_refusal(s),
{
    if s.1 != 0 {
        (s.0, Some(error::map_error(s.1)))
    } else {
        (s.0, None)
    }
}

/// The local context that a message is protected with, or what is reported
/// instead.
pub fn ensure_local(reg: &mut Registry, ctx: Option<&CtxHandle>) -> (r: Result<
    LocalCtx,
    (u32, Option<u32>),
>)
    requires
        special::well_formed(old(reg)@),
    ensures
        special::well_formed(final(reg)@),
        match ctx {
            None => r == Err::<LocalCtx, (u32, Option<u32>)>(
                (crate::consts::GSS_S_CALL_INACCESSIBLE_READ, None),
            ) && final(reg)@ == old(reg)@,
            Some(c) => match (c.remote, c.local == 0) {
                (Some(remote), true) => match handle::exported_parts(
                    remote.exported_context_token@,
                ) {
                    Some((mech, inner)) => {
                        &&& final(reg)@ == special::with_mech(old(reg)@, mech)
                        &&& r matches Ok(LocalCtx::Import(t)) && t@ == handle::wrapped(
                            special::special_of(mech),
                            inner,
                        )
                    },
                    None => r == Err::<LocalCtx, (u32, Option<u32>)>(
                        (crate::consts::GSS_S_FAILURE, None),
                    ) && final(reg)@ == old(reg)@,
                },
                _ => r == Ok::<LocalCtx, (u32, Option<u32>)>(LocalCtx::Ready(c.local))
                    && final(reg)@ == old(reg)@,
            },
        },
{
    match handle::ensure_local_ctx(reg, ctx) {
        Ok(l) => Ok(l),
        Err(s) => Err(refuse(s)),
    }
}

} // verus!
