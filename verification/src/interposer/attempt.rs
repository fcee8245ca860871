//! The order in which an operation is tried locally and remotely, and which of
//! the statuses is reported.

use vstd::prelude::*;

use crate::consts::{GSS_S_COMPLETE, GSS_S_CONTINUE_NEEDED};
use crate::gpm;
use crate::interposer::behavior::Behavior;

verus! {

/// A major and a minor status.
pub type Status = (u32, u32);

/// The operations that are attempted both ways.
#[derive(Debug, Clone, Copy, PartialEq, Eq, Structural)]
pub enum Operation {
    /// Context initiation.
    Initiate,
    /// Acquiring credentials.
    Acquire,
    /// Acquiring credentials for another name.
    Impersonate,
    /// Default credentials.
    Defaults,
    /// Inquiries about a mechanism.
    Inquire,
}

/// Where an operation stands.
#[derive(Debug, Clone, Copy, PartialEq, Eq)]
pub enum Turn {
    /// Local is tried, before remote if that is tried at all.
    LocalFirst,
    /// Remote is tried.
    Remote,
    /// Local is tried, after remote.
    LocalLast,
    /// This is reported.
    Report(Status),
}

/// An operation under way.
#[derive(Debug, Clone, Copy, PartialEq, Eq)]
pub struct Attempt {
    pub rule: Operation,
    pub behavior: Behavior,
    /// The failure that is reported if nothing succeeds; complete where there
    /// is none.
    pub kept: Status,
    pub turn: Turn,
}

impl Operation {
    /// `GSS_S_CONTINUE_NEEDED` is a success of an attempt.
    pub open spec fn continues(self) -> bool {
        self is Initiate
    }

    /// The status of a failed remote attempt is kept before the local one that
    /// follows it.
    pub open spec fn keeps_remote(self) -> bool {
        self is Acquire
    }

    /// After local and remote attempts have failed, local is tried once more
    /// also where it was tried first.
    pub open spec fn retries(self) -> bool {
        self is Inquire
    }

    /// `GSS_S_CONTINUE_NEEDED` is reported as it is, whatever was kept.
    pub open spec fn spares_continue(self) -> bool {
        self is Initiate || self is Acquire || self is Impersonate
    }

    /// An attempt with this major status has succeeded.
    pub open spec fn succeeded(self, major: u32) -> bool {
        major == GSS_S_COMPLETE || (self.continues() && major == GSS_S_CONTINUE_NEEDED)
    }

    /// What is reported in the end: the kept failure in place of a failure.
    pub open spec fn settled(self, last: Status, kept: Status) -> Status {
        if last.0 != GSS_S_COMPLETE && !(self.spares_continue() && last.0 == GSS_S_CONTINUE_NEEDED)
            && kept.0 != GSS_S_COMPLETE {
            kept
        } else {
            last
        }
    }

    fn success(self, major: u32) -> (r: bool)
        ensures
            r == self.succeeded(major),
    {
        match self {
            Operation::Initiate => major == GSS_S_COMPLETE || major == GSS_S_CONTINUE_NEEDED,
            _ => major == GSS_S_COMPLETE,
        }
    }

    /// Settle what is reported.
    pub fn settle(self, last: Status, kept: Status) -> (r: Status)
        ensures
            r == self.settled(last, kept),
    {
        let spares = match self {
            Operation::Defaults => false,
            Operation::Inquire => false,
            _ => true,
        };
        if last.0 != GSS_S_COMPLETE && !(spares && last.0 == GSS_S_CONTINUE_NEEDED) && kept.0
            != GSS_S_COMPLETE {
            kept
        } else {
            last
        }
    }
}

impl Attempt {
    /// The attempts of a behavior, before the first.
    pub open spec fn begun(rule: Operation, behavior: Behavior) -> Attempt {
        Attempt {
            rule,
            behavior,
            kept: (GSS_S_COMPLETE, 0),
            turn: if behavior is LocalOnly || behavior is LocalFirst {
                Turn::LocalFirst
            } else {
                Turn::Remote
            },
        }
    }

    /// After a local attempt: success, or a failure with nothing left to try,
    /// is settled; a failure before remote is kept.
    pub open spec fn after_local(self, s: Status) -> Attempt {
        if self.turn is LocalFirst && !self.rule.succeeded(s.0) && !(self.behavior is LocalOnly) {
            Attempt { kept: s, turn: Turn::Remote, ..self }
        } else {
            Attempt { turn: Turn::Report(self.rule.settled(s, self.kept)), ..self }
        }
    }

    /// After a remote attempt: success is settled, and so is a failure unless
    /// local is to be tried after it.
    pub open spec fn after_remote(self, s: Status) -> Attempt {
        if !self.rule.succeeded(s.0) && (self.behavior is RemoteFirst || (self.rule.retries()
            && !(self.behavior is RemoteOnly))) {
            Attempt {
                kept: if self.rule.keeps_remote() {
                    s
                } else {
                    self.kept
                },
                turn: Turn::LocalLast,
                ..self
            }
        } else {
            Attempt { turn: Turn::Report(self.rule.settled(s, self.kept)), ..self }
        }
    }

    /// Something before an attempt has failed: nothing more is tried.
    pub open spec fn abandoned(self, s: Status) -> Attempt {
        Attempt { turn: Turn::Report(self.rule.settled(s, self.kept)), ..self }
    }

    /// Begin an operation.
    pub fn begin(rule: Operation, behavior: Behavior) -> (r: Attempt)
        ensures
            r == Attempt::begun(rule, behavior),
    {
        Attempt {
            rule,
            behavior,
            kept: (GSS_S_COMPLETE, 0),
            turn: match behavior {
                Behavior::LocalOnly => Turn::LocalFirst,
                Behavior::LocalFirst => Turn::LocalFirst,
                _ => Turn::Remote,
            },
        }
    }

    /// The status of a local attempt.
    pub fn local(&mut self, s: Status)
        ensures
            *final(self) == old(self).after_local(s),
    {
        let first = match self.turn {
            Turn::LocalFirst => true,
            _ => false,
        };
        let only = match self.behavior {
            Behavior::LocalOnly => true,
            _ => false,
        };
        if first && !self.rule.success(s.0) && !only {
            self.kept = s;
            self.turn = Turn::Remote;
        } else {
            self.turn = Turn::Report(self.rule.settle(s, self.kept));
        }
    }

    /// The status of a remote attempt.
    pub fn remote(&mut self, s: Status)
        ensures
            *final(self) == old(self).after_remote(s),
    {
        let again = match self.behavior {
            Behavior::RemoteFirst => true,
            Behavior::RemoteOnly => false,
            _ => match self.rule {
                Operation::Inquire => true,
                _ => false,
            },
        };
        if !self.rule.success(s.0) && again {
            match self.rule {
                Operation::Acquire => {
                    self.kept = s;
                },
                _ => {},
            }
            self.turn = Turn::LocalLast;
        } else {
            self.turn = Turn::Report(self.rule.settle(s, self.kept));
        }
    }

    /// Give up with a status.
    pub fn abandon(&mut self, s: Status)
        ensures
            *final(self) == old(self).abandoned(s),
    {
        self.turn = Turn::Report(self.rule.settle(s, self.kept));
    }
}

/// What an operation reports, given what the local attempt, the remote attempt
/// and a local attempt after it would give.
pub open spec fn outcome(
    rule: Operation,
    behavior: Behavior,
    local: Status,
    remote: Status,
    again: Status,
) -> Status {
    match behavior {
        Behavior::LocalOnly => local,
        Behavior::RemoteOnly => remote,
        Behavior::LocalFirst => if rule.succeeded(local.0) {
            local
        } else if rule.succeeded(remote.0) {
            rule.settled(remote, local)
        } else if rule.retries() {
            rule.settled(again, local)
        } else {
            rule.settled(remote, local)
        },
        Behavior::RemoteFirst => if rule.succeeded(remote.0) {
            remote
        } else if rule.keeps_remote() {
            rule.settled(again, remote)
        } else {
            again
        },
    }
}

/// The attempts of an operation, answered one after the other, end in the
/// outcome: a first attempt that succeeds is reported as it is, and what is
/// left over does not matter.
pub proof fn attempts_end_in_the_outcome(
    rule: Operation,
    behavior: Behavior,
    local: Status,
    remote: Status,
    again: Status,
)
    ensures
        ({
            let a = Attempt::begun(rule, behavior);
            let b = if a.turn is LocalFirst {
                a.after_local(local)
            } else {
                a
            };
            let c = if b.turn is Remote {
                b.after_remote(remote)
            } else {
                b
            };
            let d = if c.turn is LocalLast {
                c.after_local(again)
            } else {
                c
            };
            d.turn == Turn::Report(outcome(rule, behavior, local, remote, again))
        }),
{
}

/// Under `LOCAL_ONLY` the daemon is never asked, and under `REMOTE_ONLY` the
/// local mechanism is never asked, whatever the answers.
pub proof fn exclusive_behaviors_are_kept(a: Attempt, s: Status)
    requires
        a.behavior is LocalOnly ==> a.turn is LocalFirst || a.turn is Report,
        a.behavior is RemoteOnly ==> a.turn is Remote || a.turn is Report,
    ensures
        a.abandoned(s).turn is Report,
        a.behavior is LocalOnly ==> a.after_local(s).turn is Report,
        a.behavior is RemoteOnly ==> a.after_remote(s).turn is Report,
        Attempt::begun(a.rule, Behavior::LocalOnly).turn is LocalFirst,
        Attempt::begun(a.rule, Behavior::RemoteOnly).turn is Remote,
{
}

/// When a first local attempt fails and nothing succeeds after it, its failure
/// is what is reported. Where remote came first, what is reported is the
/// failure of the local attempt after it, or of remote where that is kept. The
/// exception is a last attempt that asks to be continued.
pub proof fn the_right_failure_is_reported(
    rule: Operation,
    local: Status,
    remote: Status,
    again: Status,
)
    requires
        !rule.succeeded(local.0),
        !rule.succeeded(remote.0),
        !rule.succeeded(again.0),
    ensures
        rule.spares_continue() && remote.0 == GSS_S_CONTINUE_NEEDED || outcome(
            rule,
            Behavior::LocalFirst,
            local,
            remote,
            again,
        ) == local,
        rule.keeps_remote() && again.0 == GSS_S_CONTINUE_NEEDED || outcome(
            rule,
            Behavior::RemoteFirst,
            local,
            remote,
            again,
        ) == if rule.keeps_remote() {
            remote
        } else {
            again
        },
{
}

/// Whether a context is kept with a major status.
pub fn keep(maj: u32) -> (r: bool)
    ensures
        r == gpm::keeps_context(maj),
{
    maj == GSS_S_COMPLETE || maj == GSS_S_CONTINUE_NEEDED
}

} // verus!
