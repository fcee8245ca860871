//! Which of the local mechanism and the daemon an operation is tried on, and
//! whether the interposer takes part at all.

use vstd::prelude::*;

use crate::text;

verus! {

/// Where each operation is attempted.
#[derive(Debug, Clone, Copy, PartialEq, Eq, Structural)]
pub enum Behavior {
    LocalOnly,
    LocalFirst,
    RemoteFirst,
    RemoteOnly,
}

/// The behavior where none is configured.
pub const DEFAULT_BEHAVIOR: Behavior = Behavior::LocalFirst;

/// Whether the interposer is active where nothing is configured.
pub const GSS_ALWAYS_INTERPOSE: bool = false;

/// The behavior that a value of `GSSPROXY_BEHAVIOR` names.
pub open spec fn named_behavior(value: Option<Seq<char>>) -> Behavior {
    match value {
        Some(v) => if v == "LOCAL_ONLY"@ {
            Behavior::LocalOnly
        } else if v == "LOCAL_FIRST"@ {
            Behavior::LocalFirst
        } else if v == "REMOTE_FIRST"@ {
            Behavior::RemoteFirst
        } else if v == "REMOTE_ONLY"@ {
            Behavior::RemoteOnly
        } else {
            DEFAULT_BEHAVIOR
        },
        None => DEFAULT_BEHAVIOR,
    }
}

/// The view of an optional string.
pub open spec fn opt_chars(value: Option<&str>) -> Option<Seq<char>> {
    match value {
        Some(v) => Some(v@),
        None => None,
    }
}

/// Map a `GSSPROXY_BEHAVIOR` value to a behavior; an unknown or absent value
/// means the default.
pub fn parse_behavior(value: Option<&str>) -> (r: Behavior)
    ensures
        r == named_behavior(opt_chars(value)),
{
    match value {
        Some(v) => if text::same(v, "LOCAL_ONLY") {
            Behavior::LocalOnly
        } else if text::same(v, "LOCAL_FIRST") {
            Behavior::LocalFirst
        } else if text::same(v, "REMOTE_FIRST") {
            Behavior::RemoteFirst
        } else if text::same(v, "REMOTE_ONLY") {
            Behavior::RemoteOnly
        } else {
            DEFAULT_BEHAVIOR
        },
        None => DEFAULT_BEHAVIOR,
    }
}

/// The behavior of this process: the one resolved before, if any, and otherwise
/// the one that the environment names, which is then kept.
pub fn get(resolved: &mut Option<Behavior>, value: Option<&str>) -> (r: Behavior)
    ensures
        *final(resolved) == Some(r),
        match *old(resolved) {
            Some(b) => r == b,
            None => r == named_behavior(opt_chars(value)),
        },
{
    match *resolved {
        Some(b) => b,
        None => {
            let b = parse_behavior(value);
            *resolved = Some(b);
            b
        },
    }
}

/// Whether the interposer is active, given the value of `GSS_USE_PROXY`.
pub fn enabled_from(value: Option<&str>) -> (r: bool)
    ensures
        r == match value {
            Some(v) => text::means_true(v@),
            None => GSS_ALWAYS_INTERPOSE,
        },
{
    match value {
        Some(v) => text::boolean_is_true(v),
        None => GSS_ALWAYS_INTERPOSE,
    }
}

} // verus!
