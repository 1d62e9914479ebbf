use obs_capture::messages::{decimal, failure_notice, Notice};
use obs_capture::plan::FailureReport;
use obs_capture::runner::{check_fails, Check, Outcome};
use obs_capture::sessions::{
    console_recording_plan, monitor_recording_plan, monitor_scene_plan, quick_recording_plan, Platform,
};

fn printed(n: Notice) -> Option<String> {
    match n {
        Notice::Print(s) => Some(s),
        _ => None,
    }
}

fn panicked(n: Notice) -> Option<String> {
    match n {
        Notice::Panic(s) => Some(s),
        _ => None,
    }
}

#[test]
fn decimal_numbers() {
    assert_eq!(decimal(0), "0");
    assert_eq!(decimal(7), "7");
    assert_eq!(decimal(-1), "-1");
    assert_eq!(decimal(1920), "1920");
    assert_eq!(decimal(-40), "-40");
    assert_eq!(decimal(i64::MAX), i64::MAX.to_string());
    assert_eq!(decimal(i64::MIN), i64::MIN.to_string());
}

#[test]
fn console_video_reset_failure_panics_with_the_code() {
    let plan = console_recording_plan(Platform::Windows);
    let n = failure_notice(&plan.steps[22].on_failure, Outcome::Code(-1), None);
    assert_eq!(panicked(n), Some("error on libobs reset video: -1".to_string()));
    let n = failure_notice(&plan.steps[1].on_failure, Outcome::Flag(true), None);
    assert_eq!(panicked(n), Some("error: obs already initialized".to_string()));
}

#[test]
fn console_output_start_failure_line() {
    let plan = console_recording_plan(Platform::Linux);
    let n = failure_notice(&plan.steps[47].on_failure, Outcome::Flag(false), Some("no encoder"));
    assert_eq!(printed(n), Some("record output error: 'no encoder'".to_string()));
}

#[test]
fn monitor_recording_failure_lines() {
    let plan = monitor_recording_plan();
    let n = failure_notice(&plan.steps[18].on_failure, Outcome::Flag(false), Some("no space"));
    assert_eq!(printed(n), Some("ERROR OCCURRED: ERROR: no space".to_string()));
    let n = failure_notice(&plan.steps[5].on_failure, Outcome::Code(-3), None);
    assert_eq!(printed(n), Some("error reseting video in obs".to_string()));
    let n = failure_notice(&plan.steps[2].on_failure, Outcome::Flag(false), None);
    assert_eq!(printed(n), Some("Startup failed".to_string()));
}

#[test]
fn unwrapped_failures() {
    let n = failure_notice(&FailureReport::Unwrap, Outcome::Flag(false), Some("NullPointer"));
    assert_eq!(panicked(n), Some("called `Result::unwrap()` on an `Err` value: NullPointer".to_string()));
    let n = failure_notice(&FailureReport::Unwrap, Outcome::Flag(false), None);
    assert_eq!(panicked(n), Some("called `Option::unwrap()` on a `None` value".to_string()));
    assert!(matches!(failure_notice(&FailureReport::Silent, Outcome::Flag(false), Some("x")), Notice::Nothing));
}

#[test]
fn empty_monitor_listing_ends_the_monitor_recording() {
    let plan = monitor_scene_plan();
    let listing = &plan.steps[2];
    assert!(check_fails(listing.check, Outcome::Count(Some(0))));
    assert!(check_fails(listing.check, Outcome::Count(None)));
    assert!(!check_fails(listing.check, Outcome::Count(Some(2))));
    assert!(!check_fails(Check::StopIfEmpty, Outcome::Flag(false)));
    let n = failure_notice(&listing.on_failure, Outcome::Count(Some(0)), None);
    assert_eq!(panicked(n), Some("called `Option::unwrap()` on a `None` value".to_string()));
}

#[test]
fn missing_monitor_ends_the_quick_recording_as_indexing_does() {
    let plan = quick_recording_plan();
    let add = &plan.steps[6];
    assert!(check_fails(add.check, Outcome::Count(Some(0))));
    assert!(check_fails(add.check, Outcome::Flag(false)));
    assert!(!check_fails(add.check, Outcome::Flag(true)));
    let n = failure_notice(&add.on_failure, Outcome::Count(Some(0)), None);
    assert_eq!(panicked(n), Some("index out of bounds: the len is 0 but the index is 0".to_string()));
    let n = failure_notice(&add.on_failure, Outcome::Flag(false), Some("Os { code: 5 }"));
    assert_eq!(
        panicked(n),
        Some("called `Result::unwrap()` on an `Err` value: Os { code: 5 }".to_string())
    );
}

#[test]
fn index_message_names_length_and_position() {
    let report = FailureReport::IndexOrUnwrap { index: 12 };
    let n = failure_notice(&report, Outcome::Count(Some(3)), None);
    assert_eq!(panicked(n), Some("index out of bounds: the len is 3 but the index is 12".to_string()));
    let n = failure_notice(&report, Outcome::Flag(false), None);
    assert_eq!(panicked(n), Some("called `Option::unwrap()` on a `None` value".to_string()));
}
