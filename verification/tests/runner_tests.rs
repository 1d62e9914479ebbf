use obs_capture::runner::{advance, check_fails, check_reports, Check, Directive, Outcome, RunState};
use obs_capture::sessions::{console_recording_plan, monitor_recording_plan, Platform};

/// Drives a plan to its end; `outcome_of(i)` is the outcome of step `i`.
/// Returns the performed steps, the reported steps and the final directive.
fn drive(checks: &Vec<Check>, outcome_of: &dyn Fn(usize) -> Outcome) -> (Vec<usize>, Vec<usize>, Directive) {
    let mut performed = Vec::new();
    let mut reported = Vec::new();
    let (mut state, mut directive) = advance(checks, RunState::Ready, Outcome::Done);
    loop {
        let outcome = match directive {
            Directive::Perform(i) => {
                performed.push(i);
                outcome_of(i)
            }
            Directive::ReportFailure(i) => {
                reported.push(i);
                Outcome::Done
            }
            Directive::Finish | Directive::Stop(_) => return (performed, reported, directive),
        };
        let next = advance(checks, state, outcome);
        state = next.0;
        directive = next.1;
    }
}

#[test]
fn checks_fail_only_on_their_outcome() {
    assert!(check_fails(Check::StopIfTrue, Outcome::Flag(true)));
    assert!(!check_fails(Check::StopIfTrue, Outcome::Flag(false)));
    assert!(check_fails(Check::StopIfFalse, Outcome::Flag(false)));
    assert!(check_fails(Check::StopIfNonZero, Outcome::Code(-1)));
    assert!(!check_fails(Check::StopIfNonZero, Outcome::Code(0)));
    assert!(!check_fails(Check::Proceed, Outcome::Flag(false)));
    assert!(!check_fails(Check::ReportIfFalse, Outcome::Flag(false)));
    assert!(check_reports(Check::ReportIfFalse, Outcome::Flag(false)));
    assert!(!check_reports(Check::ReportIfFalse, Outcome::Flag(true)));
    assert!(!check_reports(Check::StopIfFalse, Outcome::Flag(false)));
}

#[test]
fn empty_plan_finishes_at_once() {
    let checks: Vec<Check> = Vec::new();
    let (state, directive) = advance(&checks, RunState::Ready, Outcome::Done);
    assert!(state == RunState::Finished);
    assert!(directive == Directive::Finish);
}

#[test]
fn successful_session_performs_every_step_in_order() {
    let plan = monitor_recording_plan();
    let checks = plan.checks();
    let outcome_of = |i: usize| match checks[i] {
        Check::StopIfTrue => Outcome::Flag(false),
        Check::StopIfNonZero => Outcome::Code(0),
        _ => Outcome::Flag(true),
    };
    let (performed, reported, end) = drive(&checks, &outcome_of);
    assert_eq!(performed, (0..checks.len()).collect::<Vec<_>>());
    assert!(reported.is_empty());
    assert!(end == Directive::Finish);
}

#[test]
fn failed_startup_stops_the_session_there() {
    let plan = monitor_recording_plan();
    let checks = plan.checks();
    // Step 2 is the startup, which fails.
    let outcome_of = |i: usize| match i {
        0 => Outcome::Flag(false),
        2 => Outcome::Flag(false),
        _ => Outcome::Done,
    };
    let (performed, reported, end) = drive(&checks, &outcome_of);
    assert_eq!(performed, vec![0, 1, 2]);
    assert!(reported.is_empty());
    assert!(end == Directive::Stop(2));
}

#[test]
fn already_initialized_stops_before_anything_else() {
    let plan = monitor_recording_plan();
    let checks = plan.checks();
    let (performed, _, end) = drive(&checks, &|_i: usize| Outcome::Flag(true));
    assert_eq!(performed, vec![0]);
    assert!(end == Directive::Stop(0));
}

#[test]
fn video_reset_error_code_stops_the_session() {
    let plan = monitor_recording_plan();
    let checks = plan.checks();
    let outcome_of = |i: usize| match i {
        0 => Outcome::Flag(false),
        2 => Outcome::Flag(true),
        5 => Outcome::Code(-4),
        _ => Outcome::Done,
    };
    let (performed, _, end) = drive(&checks, &outcome_of);
    assert_eq!(performed, vec![0, 1, 2, 3, 4, 5]);
    assert!(end == Directive::Stop(5));
}

#[test]
fn failed_output_start_is_reported_and_the_session_goes_on() {
    let plan = monitor_recording_plan();
    let checks = plan.checks();
    let outcome_of = |i: usize| match checks[i] {
        Check::StopIfTrue => Outcome::Flag(false),
        Check::StopIfNonZero => Outcome::Code(0),
        Check::ReportIfFalse => Outcome::Flag(false),
        _ => Outcome::Flag(true),
    };
    let (performed, reported, end) = drive(&checks, &outcome_of);
    assert_eq!(reported, vec![18]);
    assert_eq!(performed.len(), checks.len());
    assert!(end == Directive::Finish);
}

#[test]
fn end_states_stay_put() {
    let checks = vec![Check::Proceed, Check::StopIfFalse];
    let (s, d) = advance(&checks, RunState::Stopped(1), Outcome::Flag(true));
    assert!(s == RunState::Stopped(1));
    assert!(d == Directive::Stop(1));
    let (s, d) = advance(&checks, RunState::Finished, Outcome::Flag(false));
    assert!(s == RunState::Finished);
    assert!(d == Directive::Finish);
    let (s, d) = advance(&checks, RunState::Reporting(0), Outcome::Done);
    assert!(s == RunState::Awaiting(1));
    assert!(d == Directive::Perform(1));
}

#[test]
fn console_recording_stops_on_video_reset_error() {
    let plan = console_recording_plan(Platform::Linux);
    let checks = plan.checks();
    let outcome_of = |i: usize| match i {
        1 => Outcome::Flag(false),
        10 => Outcome::Flag(true),
        23 => Outcome::Code(-1),
        _ => Outcome::Done,
    };
    let (performed, _, end) = drive(&checks, &outcome_of);
    assert_eq!(performed, (0..24).collect::<Vec<_>>());
    assert!(end == Directive::Stop(23));
}

#[test]
fn console_recording_ends_quietly_without_source_settings() {
    let plan = console_recording_plan(Platform::Windows);
    let checks = plan.checks();
    // Step 37 writes into the screen source's settings, which are missing.
    let outcome_of = |i: usize| match i {
        1 => Outcome::Flag(false),
        9 => Outcome::Flag(true),
        22 => Outcome::Code(0),
        37 => Outcome::Flag(false),
        _ => Outcome::Done,
    };
    let (performed, _, end) = drive(&checks, &outcome_of);
    assert_eq!(performed.len(), 38);
    assert!(end == Directive::Stop(37));
}
