//! The ordered steps of one sandboxed run, as a state machine.
//!
//! The program asks the machine for an action, performs it, and hands back
//! a report of how it went; the machine decides the next action. Resources
//! are acquired strictly in order (namespace, scratch area, snapshot binding,
//! overlay) and, once the overlay stands or a later acquisition fails,
//! released in reverse order on every path before the run exits.
use vstd::prelude::*;
use crate::exit::{
    child_code_spec, child_exit_code, relay_code_spec, relay_exit_code, FAILURE, SPAWN_FAILURE,
};

verus! {

/// The step that a run is waiting on.
#[derive(PartialEq, Eq, Structural, Clone, Copy, Debug)]
pub enum Phase {
    Elevating,
    Isolating,
    Privatizing,
    Resolving,
    Allocating,
    Layering,
    Binding,
    Overlaying,
    Running,
    Synchronizing,
    DetachingOverlay,
    DetachingSnapshot,
    RemovingScratch,
    Finished,
}

/// What the program is to do next.
#[derive(PartialEq, Eq, Structural, Clone, Copy, Debug)]
pub enum Action {
    /// Run this program again, with the same arguments, through the
    /// elevation relay, and report the relay's exit status.
    ReInvoke,
    /// Move the process into a mount namespace of its own.
    Isolate,
    /// Make every mount of the new namespace private, recursively.
    MakePrivate,
    /// Resolve the target directory to its canonical absolute path.
    Resolve,
    /// Create a uniquely named scratch directory.
    AllocateScratch,
    /// Create the snapshot, delta and work directories in the scratch area.
    MakeLayers,
    /// Bind the target directory, recursively, onto the snapshot directory.
    BindSnapshot,
    /// Mount the overlay of snapshot and delta at the target directory.
    MountOverlay,
    /// Run the command in the target directory and wait for it.
    Spawn,
    /// Reconcile the overlay's changes into the real directory.
    Synchronize,
    /// Lazily detach the overlay from the target directory.
    DetachOverlay,
    /// Lazily detach the snapshot binding.
    DetachSnapshot,
    /// Remove the scratch area recursively.
    RemoveScratch,
    /// Exit with this code.
    Exit(u8),
}

/// How an action went: whether it succeeded (for a process, whether it could
/// be launched) and, for a process, its exit code if it has one.
#[derive(Clone, Copy, Debug)]
pub struct Report {
    pub ok: bool,
    pub code: Option<i32>,
}

impl Report {
    /// A step that succeeded.
    pub fn success() -> (r: Report)
        ensures
            r.ok,
            r.code is None,
    {
        Report { ok: true, code: None }
    }

    /// A step that failed, or a process that could not be launched.
    pub fn failure() -> (r: Report)
        ensures
            !r.ok,
            r.code is None,
    {
        Report { ok: false, code: None }
    }

    /// A process that ran and ended with `code` (`None` when a signal ended it).
    pub fn exited(code: Option<i32>) -> (r: Report)
        ensures
            r.ok,
            r.code == code,
    {
        Report { ok: true, code }
    }
}

/// The state of a run: the step it waits on, the resources it holds, and the
/// code it will exit with once it has released them.
#[derive(Clone, Copy, Debug)]
pub struct Run {
    pub phase: Phase,
    /// The process has its own mount namespace.
    pub isolated: bool,
    /// The scratch area exists.
    pub scratch: bool,
    /// The target directory is bound onto the snapshot directory.
    pub snapshot: bool,
    /// The overlay is mounted at the target directory.
    pub overlay: bool,
    /// The exit code of the run.
    pub code: u8,
}

/// The state and first action of a run by a process with effective user id
/// `euid`: only the superuser goes ahead, anyone else hands over to the relay.
pub open spec fn start_spec(euid: u32) -> (Run, Action) {
    let s = Run {
        phase: if euid == 0 { Phase::Isolating } else { Phase::Elevating },
        isolated: false,
        scratch: false,
        snapshot: false,
        overlay: false,
        code: FAILURE,
    };
    (s, if euid == 0 { Action::Isolate } else { Action::ReInvoke })
}

/// `s` moved on to `phase`, with `action` to do there.
pub open spec fn goto(s: Run, phase: Phase, action: Action) -> (Run, Action) {
    (Run { phase, ..s }, action)
}

/// `s` ended with exit code `code`.
pub open spec fn finish(s: Run, code: u8) -> (Run, Action) {
    (Run { phase: Phase::Finished, code, ..s }, Action::Exit(code))
}

/// `s` abandoned with the failure code, to release what it holds, starting
/// at `phase` with `action`.
pub open spec fn unwind(s: Run, phase: Phase, action: Action) -> (Run, Action) {
    (Run { phase, code: FAILURE, ..s }, action)
}

/// The next state and action of `s` once the pending action went as `rep`
/// says.
pub open spec fn next(s: Run, rep: Report) -> (Run, Action) {
    match s.phase {
        Phase::Elevating => finish(
            s,
            if rep.ok {
                relay_code_spec(rep.code)
            } else {
                FAILURE
            },
        ),
        Phase::Isolating => if rep.ok {
            goto(Run { isolated: true, ..s }, Phase::Privatizing, Action::MakePrivate)
        } else {
            finish(s, FAILURE)
        },
        Phase::Privatizing => if rep.ok {
            goto(s, Phase::Resolving, Action::Resolve)
        } else {
            finish(s, FAILURE)
        },
        Phase::Resolving => if rep.ok {
            goto(s, Phase::Allocating, Action::AllocateScratch)
        } else {
            finish(s, FAILURE)
        },
        Phase::Allocating => if rep.ok {
            goto(Run { scratch: true, ..s }, Phase::Layering, Action::MakeLayers)
        } else {
            finish(s, FAILURE)
        },
        Phase::Layering => if rep.ok {
            goto(s, Phase::Binding, Action::BindSnapshot)
        } else {
            unwind(s, Phase::RemovingScratch, Action::RemoveScratch)
        },
        Phase::Binding => if rep.ok {
            goto(Run { snapshot: true, ..s }, Phase::Overlaying, Action::MountOverlay)
        } else {
            unwind(s, Phase::RemovingScratch, Action::RemoveScratch)
        },
        Phase::Overlaying => if rep.ok {
            goto(Run { overlay: true, ..s }, Phase::Running, Action::Spawn)
        } else {
            unwind(s, Phase::DetachingSnapshot, Action::DetachSnapshot)
        },
        Phase::Running => goto(
            Run {
                code: if rep.ok {
                    child_code_spec(rep.code)
                } else {
                    SPAWN_FAILURE
                },
                ..s
            },
            Phase::Synchronizing,
            Action::Synchronize,
        ),
        Phase::Synchronizing => goto(s, Phase::DetachingOverlay, Action::DetachOverlay),
        Phase::DetachingOverlay => goto(
            Run { overlay: false, ..s },
            Phase::DetachingSnapshot,
            Action::DetachSnapshot,
        ),
        Phase::DetachingSnapshot => goto(
            Run { snapshot: false, ..s },
            Phase::RemovingScratch,
            Action::RemoveScratch,
        ),
        Phase::RemovingScratch => finish(Run { scratch: false, ..s }, s.code),
        Phase::Finished => (s, Action::Exit(s.code)),
    }
}

impl Run {
    /// Whether the resources held fit the phase: each is held exactly from
    /// the step that acquires it until the step that releases it, and none
    /// is held without the ones it rests on.
    pub open spec fn wf(self) -> bool {
        &&& self.overlay ==> self.snapshot
        &&& self.snapshot ==> self.scratch
        &&& self.scratch ==> self.isolated
        &&& match self.phase {
            Phase::Elevating | Phase::Isolating => !self.isolated,
            Phase::Privatizing | Phase::Resolving | Phase::Allocating => self.isolated
                && !self.scratch,
            Phase::Layering | Phase::Binding => self.scratch && !self.snapshot,
            Phase::Overlaying => self.snapshot && !self.overlay,
            Phase::Running | Phase::Synchronizing | Phase::DetachingOverlay => self.overlay,
            Phase::DetachingSnapshot => self.snapshot && !self.overlay,
            Phase::RemovingScratch => self.scratch && !self.snapshot,
            Phase::Finished => !self.scratch,
        }
    }

    /// The state and first action of a run by a process with effective
    /// user id `euid`.
    pub fn start(euid: u32) -> (r: (Run, Action))
        ensures
            r == start_spec(euid),
            r.0.wf(),
    {
        let s = Run {
            phase: if euid == 0 {
                Phase::Isolating
            } else {
                Phase::Elevating
            },
            isolated: false,
            scratch: false,
            snapshot: false,
            overlay: false,
            code: FAILURE,
        };
        (s, if euid == 0 { Action::Isolate } else { Action::ReInvoke })
    }

    /// Takes the report of the pending action and returns the next action.
    pub fn advance(&mut self, rep: Report) -> (a: Action)
        ensures
            (*final(self), a) == next(*old(self), rep),
    {
        match self.phase {
            Phase::Elevating => {
                let code = if rep.ok {
                    relay_exit_code(rep.code)
                } else {
                    FAILURE
                };
                self.finish(code)
            },
            Phase::Isolating => {
                if rep.ok {
                    self.isolated = true;
                    self.goto(Phase::Privatizing, Action::MakePrivate)
                } else {
                    self.finish(FAILURE)
                }
            },
            Phase::Privatizing => {
                if rep.ok {
                    self.goto(Phase::Resolving, Action::Resolve)
                } else {
                    self.finish(FAILURE)
                }
            },
            Phase::Resolving => {
                if rep.ok {
                    self.goto(Phase::Allocating, Action::AllocateScratch)
                } else {
                    self.finish(FAILURE)
                }
            },
            Phase::Allocating => {
                if rep.ok {
                    self.scratch = true;
                    self.goto(Phase::Layering, Action::MakeLayers)
                } else {
                    self.finish(FAILURE)
                }
            },
            Phase::Layering => {
                if rep.ok {
                    self.goto(Phase::Binding, Action::BindSnapshot)
                } else {
                    self.unwind(Phase::RemovingScratch, Action::RemoveScratch)
                }
            },
            Phase::Binding => {
                if rep.ok {
                    self.snapshot = true;
                    self.goto(Phase::Overlaying, Action::MountOverlay)
                } else {
                    self.unwind(Phase::RemovingScratch, Action::RemoveScratch)
                }
            },
            Phase::Overlaying => {
                if rep.ok {
                    self.overlay = true;
                    self.goto(Phase::Running, Action::Spawn)
                } else {
                    self.unwind(Phase::DetachingSnapshot, Action::DetachSnapshot)
                }
            },
            Phase::Running => {
                self.code = if rep.ok {
                    child_exit_code(rep.code)
                } else {
                    SPAWN_FAILURE
                };
                self.goto(Phase::Synchronizing, Action::Synchronize)
            },
            Phase::Synchronizing => self.goto(Phase::DetachingOverlay, Action::DetachOverlay),
            Phase::DetachingOverlay => {
                self.overlay = false;
                self.goto(Phase::DetachingSnapshot, Action::DetachSnapshot)
            },
            Phase::DetachingSnapshot => {
                self.snapshot = false;
                self.goto(Phase::RemovingScratch, Action::RemoveScratch)
            },
            Phase::RemovingScratch => {
                self.scratch = false;
                let code = self.code;
                self.finish(code)
            },
            Phase::Finished => Action::Exit(self.code),
        }
    }

    fn goto(&mut self, phase: Phase, action: Action) -> (a: Action)
        ensures
            (*final(self), a) == goto(*old(self), phase, action),
    {
        self.phase = phase;
        action
    }

    fn finish(&mut self, code: u8) -> (a: Action)
        ensures
            (*final(self), a) == finish(*old(self), code),
    {
        self.phase = Phase::Finished;
        self.code = code;
        Action::Exit(code)
    }

    fn unwind(&mut self, phase: Phase, action: Action) -> (a: Action)
        ensures
            (*final(self), a) == unwind(*old(self), phase, action),
    {
        self.phase = phase;
        self.code = FAILURE;
        action
    }

    /// Whether the run has ended.
    pub fn is_finished(&self) -> (r: bool)
        ensures
            r == (self.phase == Phase::Finished),
    {
        self.phase == Phase::Finished
    }

    /// Whether the run holds a mount or the scratch area.
    pub fn holds_resources(&self) -> (r: bool)
        ensures
            r == (self.scratch || self.snapshot || self.overlay),
    {
        self.scratch || self.snapshot || self.overlay
    }
}

} // verus!
