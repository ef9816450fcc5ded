//! What holds of every run of the state machine.
use vstd::prelude::*;
use crate::exit::{FAILURE, SPAWN_FAILURE};
use crate::run::{next, start_spec, Action, Phase, Report, Run};

verus! {

/// The state reached from `s` when the actions go as `reps` say, in order.
pub open spec fn drive(s: Run, reps: Seq<Report>) -> Run
    decreases reps.len(),
{
    if reps.len() == 0 {
        s
    } else {
        drive(next(s, reps[0]).0, reps.drop_first())
    }
}

/// The actions asked for from `s` on, when the actions go as `reps` say.
pub open spec fn trace(s: Run, reps: Seq<Report>) -> Seq<Action>
    decreases reps.len(),
{
    if reps.len() == 0 {
        Seq::empty()
    } else {
        seq![next(s, reps[0]).1] + trace(next(s, reps[0]).0, reps.drop_first())
    }
}

/// The number of reports after which a run in `p` has ended at the latest.
pub open spec fn remaining(p: Phase) -> nat {
    match p {
        Phase::Elevating => 1,
        Phase::Isolating => 12,
        Phase::Privatizing => 11,
        Phase::Resolving => 10,
        Phase::Allocating => 9,
        Phase::Layering => 8,
        Phase::Binding => 7,
        Phase::Overlaying => 6,
        Phase::Running => 5,
        Phase::Synchronizing => 4,
        Phase::DetachingOverlay => 3,
        Phase::DetachingSnapshot => 2,
        Phase::RemovingScratch => 1,
        Phase::Finished => 0,
    }
}

/// Whether `s` holds no mount and no scratch area.
pub open spec fn released(s: Run) -> bool {
    !s.overlay && !s.snapshot && !s.scratch
}

/// Every step keeps the resources held in line with the phase.
pub proof fn lemma_step_keeps_wf(s: Run, rep: Report)
    requires
        s.wf(),
    ensures
        next(s, rep).0.wf(),
{
}

/// Every run keeps the resources held in line with the phase.
pub proof fn lemma_drive_keeps_wf(s: Run, reps: Seq<Report>)
    requires
        s.wf(),
    ensures
        drive(s, reps).wf(),
    decreases reps.len(),
{
    if reps.len() > 0 {
        lemma_step_keeps_wf(s, reps[0]);
        lemma_drive_keeps_wf(next(s, reps[0]).0, reps.drop_first());
    }
}

/// Mounts are made in order: the snapshot is bound only inside an existing
/// scratch area, and the overlay is mounted only over a bound snapshot.
pub proof fn lemma_mounts_in_order(s: Run, rep: Report)
    requires
        s.wf(),
    ensures
        next(s, rep).1 == Action::BindSnapshot ==> next(s, rep).0.scratch && !next(
            s,
            rep,
        ).0.snapshot,
        next(s, rep).1 == Action::MountOverlay ==> next(s, rep).0.snapshot && !next(
            s,
            rep,
        ).0.overlay,
{
}

/// A run asks to exit only once it holds no mount and no scratch area.
pub proof fn lemma_exit_after_release(s: Run, rep: Report)
    requires
        s.wf(),
    ensures
        next(s, rep).1 is Exit ==> released(next(s, rep).0),
{
}

/// A finished run stays finished: every further report leaves it as it is
/// and asks again for the same exit.
pub proof fn lemma_finished_is_fixed(s: Run, rep: Report)
    requires
        s.phase == Phase::Finished,
    ensures
        next(s, rep) == (s, Action::Exit(s.code)),
{
}

/// Every run ends, whatever its steps report, within `remaining` reports,
/// and then holds no mount and no scratch area.
pub proof fn lemma_run_ends(s: Run, reps: Seq<Report>)
    requires
        s.wf(),
        reps.len() >= remaining(s.phase),
    ensures
        drive(s, reps).phase == Phase::Finished,
        released(drive(s, reps)),
    decreases reps.len(),
{
    if reps.len() > 0 {
        lemma_step_keeps_wf(s, reps[0]);
        lemma_run_ends(next(s, reps[0]).0, reps.drop_first());
    }
}

/// Every run started by `start` ends within twelve reports, holding no
/// mount and no scratch area.
pub proof fn lemma_started_run_ends(euid: u32, reps: Seq<Report>)
    requires
        reps.len() >= 12,
    ensures
        drive(start_spec(euid).0, reps).phase == Phase::Finished,
        released(drive(start_spec(euid).0, reps)),
{
    lemma_run_ends(start_spec(euid).0, reps);
}

/// When the overlay cannot be mounted, the snapshot binding is detached and
/// the scratch area removed before the run exits with the failure code,
/// whatever those two steps report.
pub proof fn lemma_overlay_failure_unwinds(s: Run, rep: Report, r1: Report, r2: Report)
    requires
        s.wf(),
        s.phase == Phase::Overlaying,
        !rep.ok,
    ensures
        trace(s, seq![rep, r1, r2]) == seq![
            Action::DetachSnapshot,
            Action::RemoveScratch,
            Action::Exit(FAILURE),
        ],
        released(drive(s, seq![rep, r1, r2])),
{
    reveal_with_fuel(trace, 4);
    reveal_with_fuel(drive, 4);
    assert(seq![rep, r1, r2].drop_first() =~= seq![r1, r2]);
    assert(seq![r1, r2].drop_first() =~= seq![r2]);
    assert(seq![r2].drop_first() =~= Seq::<Report>::empty());
}

/// A child command that exits with `n` in `0..=255` makes the run exit with
/// `n`, after reconciling and releasing everything in reverse order,
/// whatever those steps report.
pub proof fn lemma_exit_code_fidelity(
    s: Run,
    n: u8,
    r1: Report,
    r2: Report,
    r3: Report,
    r4: Report,
)
    requires
        s.wf(),
        s.phase == Phase::Running,
    ensures
        trace(s, seq![Report { ok: true, code: Some(n as i32) }, r1, r2, r3, r4]) == seq![
            Action::Synchronize,
            Action::DetachOverlay,
            Action::DetachSnapshot,
            Action::RemoveScratch,
            Action::Exit(n),
        ],
        released(drive(s, seq![Report { ok: true, code: Some(n as i32) }, r1, r2, r3, r4])),
{
    let reps = seq![Report { ok: true, code: Some(n as i32) }, r1, r2, r3, r4];
    reveal_with_fuel(trace, 6);
    reveal_with_fuel(drive, 6);
    assert(reps.drop_first() =~= seq![r1, r2, r3, r4]);
    assert(seq![r1, r2, r3, r4].drop_first() =~= seq![r2, r3, r4]);
    assert(seq![r2, r3, r4].drop_first() =~= seq![r3, r4]);
    assert(seq![r3, r4].drop_first() =~= seq![r4]);
    assert(seq![r4].drop_first() =~= Seq::<Report>::empty());
}

/// A command that cannot be launched still has the overlay reconciled and
/// everything released in reverse order, and the run exits with the spawn
/// failure code.
pub proof fn lemma_spawn_failure(
    s: Run,
    rep: Report,
    r1: Report,
    r2: Report,
    r3: Report,
    r4: Report,
)
    requires
        s.wf(),
        s.phase == Phase::Running,
        !rep.ok,
    ensures
        trace(s, seq![rep, r1, r2, r3, r4]) == seq![
            Action::Synchronize,
            Action::DetachOverlay,
            Action::DetachSnapshot,
            Action::RemoveScratch,
            Action::Exit(SPAWN_FAILURE),
        ],
        released(drive(s, seq![rep, r1, r2, r3, r4])),
{
    reveal_with_fuel(trace, 6);
    reveal_with_fuel(drive, 6);
    assert(seq![rep, r1, r2, r3, r4].drop_first() =~= seq![r1, r2, r3, r4]);
    assert(seq![r1, r2, r3, r4].drop_first() =~= seq![r2, r3, r4]);
    assert(seq![r2, r3, r4].drop_first() =~= seq![r3, r4]);
    assert(seq![r3, r4].drop_first() =~= seq![r4]);
    assert(seq![r4].drop_first() =~= Seq::<Report>::empty());
}

/// A process without the superuser's rights only hands over to the relay,
/// and exits with whatever code the privileged run it relays to exits with:
/// the code of every finished privileged run is forwarded unchanged.
pub proof fn lemma_relay_transparent(euid: u32, reps: Seq<Report>)
    requires
        euid != 0,
        drive(start_spec(0).0, reps).phase == Phase::Finished,
    ensures
        start_spec(euid).1 == Action::ReInvoke,
        released(start_spec(euid).0),
        next(
            start_spec(euid).0,
            Report { ok: true, code: Some(drive(start_spec(0).0, reps).code as i32) },
        ) == (
            Run {
                phase: Phase::Finished,
                code: drive(start_spec(0).0, reps).code,
                ..start_spec(euid).0
            },
            Action::Exit(drive(start_spec(0).0, reps).code),
        ),
{
    let c = drive(start_spec(0).0, reps).code;
    assert((c as i32) as u8 == c);
}

} // verus!
