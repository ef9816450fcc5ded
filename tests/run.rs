use overrun::exit::{FAILURE, SPAWN_FAILURE};
use overrun::run::{Action, Phase, Report, Run};

fn drive(euid: u32, reports: &[Report]) -> (Run, Vec<Action>) {
    let (mut run, first) = Run::start(euid);
    let mut actions = vec![first];
    for r in reports {
        actions.push(run.advance(*r));
    }
    (run, actions)
}

fn ok() -> Report {
    Report::success()
}

fn fail() -> Report {
    Report::failure()
}

const SETUP: [Action; 9] = [
    Action::Isolate,
    Action::MakePrivate,
    Action::Resolve,
    Action::AllocateScratch,
    Action::MakeLayers,
    Action::BindSnapshot,
    Action::MountOverlay,
    Action::Spawn,
    Action::Synchronize,
];

#[test]
fn successful_run_tears_down_in_reverse_order() {
    let mut reps = vec![ok(); 7];
    reps.push(Report::exited(Some(0)));
    reps.extend([ok(), ok(), ok(), ok()]);
    let (run, actions) = drive(0, &reps);
    let mut want = SETUP.to_vec();
    want.extend([
        Action::DetachOverlay,
        Action::DetachSnapshot,
        Action::RemoveScratch,
        Action::Exit(0),
    ]);
    assert_eq!(actions, want);
    assert!(run.is_finished());
    assert!(!run.holds_resources());
}

#[test]
fn child_exit_code_is_reported() {
    let mut reps = vec![ok(); 7];
    reps.push(Report::exited(Some(42)));
    reps.extend([fail(), fail(), fail(), fail()]);
    let (run, actions) = drive(0, &reps);
    assert_eq!(actions.last(), Some(&Action::Exit(42)));
    assert_eq!(run.code, 42);
    assert!(!run.holds_resources());
}

#[test]
fn signalled_child_gives_failure_code() {
    let mut reps = vec![ok(); 7];
    reps.push(Report::exited(None));
    reps.extend([ok(), ok(), ok(), ok()]);
    let (_, actions) = drive(0, &reps);
    assert_eq!(actions.last(), Some(&Action::Exit(FAILURE)));
}

#[test]
fn unlaunchable_command_still_syncs_and_tears_down() {
    let mut reps = vec![ok(); 7];
    reps.push(fail());
    reps.extend([ok(), ok(), ok(), ok()]);
    let (run, actions) = drive(0, &reps);
    assert_eq!(
        actions[8..].to_vec(),
        vec![
            Action::Synchronize,
            Action::DetachOverlay,
            Action::DetachSnapshot,
            Action::RemoveScratch,
            Action::Exit(SPAWN_FAILURE),
        ]
    );
    assert!(!run.holds_resources());
}

#[test]
fn failed_sync_does_not_skip_teardown() {
    let mut reps = vec![ok(); 7];
    reps.push(Report::exited(Some(5)));
    reps.push(fail());
    reps.extend([ok(), ok(), ok()]);
    let (_, actions) = drive(0, &reps);
    assert_eq!(
        actions[9..].to_vec(),
        vec![
            Action::DetachOverlay,
            Action::DetachSnapshot,
            Action::RemoveScratch,
            Action::Exit(5),
        ]
    );
}

#[test]
fn overlay_failure_detaches_snapshot() {
    let mut reps = vec![ok(); 6];
    reps.extend([fail(), ok(), ok()]);
    let (run, actions) = drive(0, &reps);
    assert_eq!(
        actions[7..].to_vec(),
        vec![Action::DetachSnapshot, Action::RemoveScratch, Action::Exit(FAILURE)]
    );
    assert!(!run.snapshot && !run.overlay && !run.scratch);
}

#[test]
fn bind_failure_removes_scratch_only() {
    let mut reps = vec![ok(); 5];
    reps.extend([fail(), ok()]);
    let (run, actions) = drive(0, &reps);
    assert_eq!(
        actions[6..].to_vec(),
        vec![Action::RemoveScratch, Action::Exit(FAILURE)]
    );
    assert!(!run.holds_resources());
}

#[test]
fn layer_failure_removes_scratch() {
    let mut reps = vec![ok(); 4];
    reps.extend([fail(), ok()]);
    let (_, actions) = drive(0, &reps);
    assert_eq!(
        actions[5..].to_vec(),
        vec![Action::RemoveScratch, Action::Exit(FAILURE)]
    );
}

#[test]
fn early_failures_exit_at_once() {
    for k in 0..4 {
        let mut reps = vec![ok(); k];
        reps.push(fail());
        let (run, actions) = drive(0, &reps);
        assert_eq!(actions.last(), Some(&Action::Exit(FAILURE)));
        assert!(run.is_finished());
        assert!(!run.holds_resources());
    }
}

#[test]
fn unprivileged_run_relays_and_forwards_code() {
    let (run, actions) = drive(1000, &[Report::exited(Some(7))]);
    assert_eq!(actions, vec![Action::ReInvoke, Action::Exit(7)]);
    assert!(run.is_finished());
}

#[test]
fn relay_that_cannot_run_fails() {
    let (_, actions) = drive(1000, &[fail()]);
    assert_eq!(actions, vec![Action::ReInvoke, Action::Exit(FAILURE)]);
}

#[test]
fn finished_run_keeps_asking_same_exit() {
    let (mut run, _) = drive(1000, &[Report::exited(Some(9))]);
    assert_eq!(run.advance(ok()), Action::Exit(9));
    assert_eq!(run.advance(fail()), Action::Exit(9));
    assert_eq!(run.phase, Phase::Finished);
}

#[test]
fn any_reports_end_the_run_within_twelve() {
    for mask in 0u32..4096 {
        let reps: Vec<Report> = (0..12)
            .map(|i| if mask & (1 << i) != 0 { ok() } else { fail() })
            .collect();
        let (run, actions) = drive(0, &reps);
        assert!(run.is_finished());
        assert!(!run.holds_resources());
        assert!(matches!(actions.last(), Some(Action::Exit(_))));
    }
}

#[test]
fn work_dir_scenario_plan() {
    let layout = overrun::layout::Layout::new("/tmp/work", "/tmp/.tmpX");
    assert_eq!(
        layout.overlay_request().data.as_deref(),
        Some("lowerdir=/tmp/.tmpX/orig,upperdir=/tmp/.tmpX/upper,workdir=/tmp/.tmpX/work")
    );
    let mut reps = vec![ok(); 7];
    reps.push(Report::exited(Some(0)));
    reps.extend([ok(), ok(), ok(), ok()]);
    let (run, actions) = drive(0, &reps);
    assert_eq!(actions.last(), Some(&Action::Exit(0)));
    assert!(!run.overlay && !run.snapshot);
}
