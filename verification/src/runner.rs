//! The step-by-step driver of a session plan.
//!
//! A plan is a list of libobs calls, each with a [`Check`] that says which
//! result of the call ends the session.  The application performs the call
//! that the driver names, reports the result back as an [`Outcome`], and gets
//! the next [`Directive`].  The driver never skips a call, never repeats one,
//! and makes no call after a check has failed.
use vstd::prelude::*;

verus! {

/// What result of a call ends the session (or is reported and passed over).
#[derive(Clone, Copy, PartialEq, Eq, Structural)]
pub enum Check {
    /// The result is not looked at.
    Proceed,
    /// A `true` result ends the session.
    StopIfTrue,
    /// A `false` result ends the session.
    StopIfFalse,
    /// A non-zero result code ends the session.
    StopIfNonZero,
    /// A listing that failed or found nothing ends the session.
    StopIfEmpty,
    /// Any outcome but a `true` result ends the session.
    StopUnlessTrue,
    /// A `false` result is reported, and the session goes on.
    ReportIfFalse,
}

/// The result of a call, as the application reports it.
#[derive(Clone, Copy, PartialEq, Eq, Structural)]
pub enum Outcome {
    /// The call returns nothing that is looked at.
    Done,
    /// The call answered yes or no.
    Flag(bool),
    /// The call returned a status code.
    Code(i64),
    /// The call listed this many items (`None`: the listing failed).
    Count(Option<u64>),
}

/// Where a session stands.
#[derive(Clone, Copy, PartialEq, Eq, Structural)]
pub enum RunState {
    /// No call has been made yet.
    Ready,
    /// The call of this step was handed out; its outcome is awaited.
    Awaiting(usize),
    /// The failure of this step was handed out to be reported.
    Reporting(usize),
    /// Every step was performed.
    Finished,
    /// The check of this step failed; the session is over.
    Stopped(usize),
}

/// What the application is to do next.
#[derive(Clone, Copy, PartialEq, Eq, Structural)]
pub enum Directive {
    /// Make the call of this step and report its outcome.
    Perform(usize),
    /// Report the failed result of this step (e.g. the output's last error).
    ReportFailure(usize),
    /// The session is complete.
    Finish,
    /// The check of this step failed: end the session with its failure report.
    Stop(usize),
}

/// The outcome fails the check and ends the session.  A check other than
/// `StopUnlessTrue` looks only at outcomes of the kind it names; any other
/// outcome passes it.
pub open spec fn fails(check: Check, outcome: Outcome) -> bool {
    match (check, outcome) {
        (Check::StopIfTrue, Outcome::Flag(b)) => b,
        (Check::StopIfFalse, Outcome::Flag(b)) => !b,
        (Check::StopIfNonZero, Outcome::Code(c)) => c != 0,
        (Check::StopIfEmpty, Outcome::Count(n)) => n is None || n == Some(0u64),
        (Check::StopUnlessTrue, o) => o != Outcome::Flag(true),
        _ => false,
    }
}

/// The outcome is a failure that is reported without ending the session.
pub open spec fn reported(check: Check, outcome: Outcome) -> bool {
    check == Check::ReportIfFalse && outcome == Outcome::Flag(false)
}

/// The transition after step `i` is over: perform the next step, or finish.
pub open spec fn continue_after(checks: Seq<Check>, i: int) -> (RunState, Directive) {
    if i + 1 < checks.len() {
        (RunState::Awaiting((i + 1) as usize), Directive::Perform((i + 1) as usize))
    } else {
        (RunState::Finished, Directive::Finish)
    }
}

/// One transition of the driver.
pub open spec fn spec_advance(checks: Seq<Check>, state: RunState, outcome: Outcome) -> (
    RunState,
    Directive,
) {
    match state {
        RunState::Ready => if checks.len() == 0 {
            (RunState::Finished, Directive::Finish)
        } else {
            (RunState::Awaiting(0), Directive::Perform(0))
        },
        RunState::Awaiting(i) => if i >= checks.len() {
            (RunState::Finished, Directive::Finish)
        } else if fails(checks[i as int], outcome) {
            (RunState::Stopped(i), Directive::Stop(i))
        } else if reported(checks[i as int], outcome) {
            (RunState::Reporting(i), Directive::ReportFailure(i))
        } else {
            continue_after(checks, i as int)
        },
        RunState::Reporting(i) => continue_after(checks, i as int),
        RunState::Finished => (RunState::Finished, Directive::Finish),
        RunState::Stopped(i) => (RunState::Stopped(i), Directive::Stop(i)),
    }
}

/// Decides whether `outcome` fails `check`.
pub fn check_fails(check: Check, outcome: Outcome) -> (r: bool)
    ensures
        r == fails(check, outcome),
{
    match check {
        Check::StopIfTrue => match outcome {
            Outcome::Flag(b) => b,
            _ => false,
        },
        Check::StopIfFalse => match outcome {
            Outcome::Flag(b) => !b,
            _ => false,
        },
        Check::StopIfNonZero => match outcome {
            Outcome::Code(c) => c != 0,
            _ => false,
        },
        Check::StopUnlessTrue => match outcome {
            Outcome::Flag(b) => !b,
            _ => true,
        },
        Check::StopIfEmpty => match outcome {
            Outcome::Count(n) => match n {
                Some(k) => k == 0,
                None => true,
            },
            _ => false,
        },
        _ => false,
    }
}

/// Decides whether `outcome` is a failure that `check` reports and passes over.
pub fn check_reports(check: Check, outcome: Outcome) -> (r: bool)
    ensures
        r == reported(check, outcome),
{
    match check {
        Check::ReportIfFalse => match outcome {
            Outcome::Flag(b) => !b,
            _ => false,
        },
        _ => false,
    }
}

fn next_after(len: usize, i: usize) -> (r: (RunState, Directive))
    requires
        i < len,
    ensures
        forall|checks: Seq<Check>| checks.len() == len ==> r == continue_after(checks, i as int),
{
    if i + 1 < len {
        (RunState::Awaiting(i + 1), Directive::Perform(i + 1))
    } else {
        (RunState::Finished, Directive::Finish)
    }
}

/// The driver's transition: given where the session stands and the outcome of
/// the call handed out last (ignored when no call is awaited), the new state
/// and what to do next.
pub fn advance(checks: &Vec<Check>, state: RunState, outcome: Outcome) -> (r: (RunState, Directive))
    ensures
        r == spec_advance(checks@, state, outcome),
{
    match state {
        RunState::Ready => if checks.len() == 0 {
            (RunState::Finished, Directive::Finish)
        } else {
            (RunState::Awaiting(0), Directive::Perform(0))
        },
        RunState::Awaiting(i) => if i >= checks.len() {
            (RunState::Finished, Directive::Finish)
        } else if check_fails(checks[i], outcome) {
            (RunState::Stopped(i), Directive::Stop(i))
        } else if check_reports(checks[i], outcome) {
            (RunState::Reporting(i), Directive::ReportFailure(i))
        } else {
            next_after(checks.len(), i)
        },
        RunState::Reporting(i) => if i >= checks.len() {
            proof {
                assert(!(i + 1 < checks@.len()));
            }
            (RunState::Finished, Directive::Finish)
        } else {
            next_after(checks.len(), i)
        },
        RunState::Finished => (RunState::Finished, Directive::Finish),
        RunState::Stopped(i) => (RunState::Stopped(i), Directive::Stop(i)),
    }
}

/// The outcome the application reports in `state` when the call of step `i`
/// yields `outcomes[i]` (a report of a failure yields nothing).
pub open spec fn outcome_in(state: RunState, outcomes: Seq<Outcome>) -> Outcome {
    match state {
        RunState::Awaiting(i) => if i < outcomes.len() {
            outcomes[i as int]
        } else {
            Outcome::Done
        },
        _ => Outcome::Done,
    }
}

/// The state reached from `state` after `fuel` transitions of the driver,
/// when step `i`'s call yields `outcomes[i]`.
pub open spec fn run_from(
    checks: Seq<Check>,
    outcomes: Seq<Outcome>,
    state: RunState,
    fuel: nat,
) -> RunState
    decreases fuel,
{
    if fuel == 0 {
        state
    } else {
        run_from(
            checks,
            outcomes,
            spec_advance(checks, state, outcome_in(state, outcomes)).0,
            (fuel - 1) as nat,
        )
    }
}

/// No step from `from` on fails its check.
pub open spec fn all_pass(checks: Seq<Check>, outcomes: Seq<Outcome>, from: int) -> bool {
    forall|k: int| from <= k < checks.len() ==> !fails(#[trigger] checks[k], outcomes[k])
}

/// Step `k` is the first step whose outcome fails its check.
pub open spec fn first_failure(checks: Seq<Check>, outcomes: Seq<Outcome>, k: int) -> bool {
    &&& 0 <= k < checks.len()
    &&& fails(checks[k], outcomes[k])
    &&& forall|j: int| 0 <= j < k ==> !fails(#[trigger] checks[j], outcomes[j])
}

/// A finished or stopped session stays as it is, and the driver hands out no
/// further call.
pub proof fn law_end_states_are_final(checks: Seq<Check>, state: RunState, outcome: Outcome)
    requires
        state is Finished || state is Stopped,
    ensures
        spec_advance(checks, state, outcome).0 == state,
        !(spec_advance(checks, state, outcome).1 is Perform),
        !(spec_advance(checks, state, outcome).1 is ReportFailure),
{
}

/// The driver hands out the steps in plan order: the first call is step 0,
/// and the call after step `i` (or after its failure report) is step `i + 1`.
/// A stop or a failure report always concerns the step just performed.
pub proof fn law_steps_in_order(checks: Seq<Check>, state: RunState, outcome: Outcome)
    requires
        checks.len() <= usize::MAX,
    ensures
        ({
            let d = spec_advance(checks, state, outcome).1;
            &&& state is Ready ==> (d is Perform ==> d->Perform_0 == 0)
            &&& state is Awaiting ==> (d is Perform ==> d->Perform_0 == state->Awaiting_0 + 1)
            &&& state is Reporting ==> (d is Perform ==> d->Perform_0 == state->Reporting_0 + 1)
            &&& state is Awaiting ==> (d is Stop ==> d->Stop_0 == state->Awaiting_0)
            &&& state is Awaiting ==> (d is ReportFailure ==> d->ReportFailure_0
                == state->Awaiting_0)
            &&& !(state is Awaiting) ==> !(d is ReportFailure)
        }),
{
}

/// A session ends because of step `i` exactly when the outcome of step `i`
/// fails its check; a failure that the check only reports never ends it.
pub proof fn law_stop_iff_check_fails(checks: Seq<Check>, i: usize, outcome: Outcome)
    requires
        i < checks.len(),
    ensures
        (spec_advance(checks, RunState::Awaiting(i), outcome).1 is Stop) <==> fails(
            checks[i as int],
            outcome,
        ),
        reported(checks[i as int], outcome) ==> spec_advance(
            checks,
            RunState::Awaiting(i),
            outcome,
        ).1 == Directive::ReportFailure(i),
{
}

proof fn lemma_end_states_stay(
    checks: Seq<Check>,
    outcomes: Seq<Outcome>,
    state: RunState,
    fuel: nat,
)
    requires
        state is Finished || state is Stopped,
    ensures
        run_from(checks, outcomes, state, fuel) == state,
    decreases fuel,
{
    if fuel > 0 {
        lemma_end_states_stay(checks, outcomes, state, (fuel - 1) as nat);
    }
}

proof fn lemma_run_completes(checks: Seq<Check>, outcomes: Seq<Outcome>, i: int, fuel: nat)
    requires
        0 <= i < checks.len(),
        checks.len() <= usize::MAX,
        outcomes.len() == checks.len(),
        all_pass(checks, outcomes, i),
        fuel >= 2 * (checks.len() - i),
    ensures
        run_from(checks, outcomes, RunState::Awaiting(i as usize), fuel) == RunState::Finished,
    decreases checks.len() - i,
{
    let st = RunState::Awaiting(i as usize);
    assert(!fails(checks[i], outcomes[i]));
    let next = spec_advance(checks, st, outcomes[i]).0;
    let f1 = (fuel - 1) as nat;
    if reported(checks[i], outcomes[i]) {
        assert(next == RunState::Reporting(i as usize));
        let after = continue_after(checks, i);
        let f2 = (f1 - 1) as nat;
        assert(run_from(checks, outcomes, next, f1) == run_from(checks, outcomes, after.0, f2));
        if i + 1 < checks.len() {
            lemma_run_completes(checks, outcomes, i + 1, f2);
        } else {
            lemma_end_states_stay(checks, outcomes, RunState::Finished, f2);
        }
    } else {
        if i + 1 < checks.len() {
            lemma_run_completes(checks, outcomes, i + 1, f1);
        } else {
            lemma_end_states_stay(checks, outcomes, RunState::Finished, f1);
        }
    }
}

proof fn lemma_run_stops(checks: Seq<Check>, outcomes: Seq<Outcome>, i: int, k: int, fuel: nat)
    requires
        0 <= i <= k,
        first_failure(checks, outcomes, k),
        checks.len() <= usize::MAX,
        outcomes.len() == checks.len(),
        fuel >= 2 * (k - i) + 1,
    ensures
        run_from(checks, outcomes, RunState::Awaiting(i as usize), fuel) == RunState::Stopped(
            k as usize,
        ),
    decreases k - i,
{
    let st = RunState::Awaiting(i as usize);
    let next = spec_advance(checks, st, outcomes[i]).0;
    let f1 = (fuel - 1) as nat;
    if i == k {
        assert(next == RunState::Stopped(k as usize));
        lemma_end_states_stay(checks, outcomes, next, f1);
    } else {
        assert(!fails(checks[i], outcomes[i]));
        assert(i + 1 < checks.len());
        if reported(checks[i], outcomes[i]) {
            let f2 = (f1 - 1) as nat;
            assert(run_from(checks, outcomes, next, f1) == run_from(
                checks,
                outcomes,
                RunState::Awaiting((i + 1) as usize),
                f2,
            ));
            lemma_run_stops(checks, outcomes, i + 1, k, f2);
        } else {
            lemma_run_stops(checks, outcomes, i + 1, k, f1);
        }
    }
}

/// A session in which no call fails its check performs every step and
/// finishes (two transitions per step are always enough).
pub proof fn law_session_completes(checks: Seq<Check>, outcomes: Seq<Outcome>, fuel: nat)
    requires
        checks.len() <= usize::MAX,
        outcomes.len() == checks.len(),
        all_pass(checks, outcomes, 0),
        fuel >= 2 * checks.len() + 1,
    ensures
        run_from(checks, outcomes, RunState::Ready, fuel) == RunState::Finished,
{
    let f1 = (fuel - 1) as nat;
    if checks.len() == 0 {
        lemma_end_states_stay(checks, outcomes, RunState::Finished, f1);
    } else {
        lemma_run_completes(checks, outcomes, 0, f1);
    }
}

/// A session ends at the first step whose call fails its check, and stays
/// ended: no later step is performed.
pub proof fn law_session_stops_at_first_failure(
    checks: Seq<Check>,
    outcomes: Seq<Outcome>,
    k: int,
    fuel: nat,
)
    requires
        checks.len() <= usize::MAX,
        outcomes.len() == checks.len(),
        first_failure(checks, outcomes, k),
        fuel >= 2 * k + 2,
    ensures
        run_from(checks, outcomes, RunState::Ready, fuel) == RunState::Stopped(k as usize),
{
    lemma_run_stops(checks, outcomes, 0, k, (fuel - 1) as nat);
}

/// What every state that a run reaches says about the outcomes so far:
/// awaiting (or reporting) step `k` means that every earlier step passed its
/// check (and, when reporting, step `k` too); finished means that every step
/// passed; stopped at `k` means that `k` is the first step that failed.
pub open spec fn consistent(checks: Seq<Check>, outcomes: Seq<Outcome>, state: RunState) -> bool {
    match state {
        RunState::Ready => true,
        RunState::Awaiting(k) => k < checks.len() && forall|j: int|
            0 <= j < k ==> !fails(#[trigger] checks[j], outcomes[j]),
        RunState::Reporting(k) => k < checks.len() && forall|j: int|
            0 <= j <= k ==> !fails(#[trigger] checks[j], outcomes[j]),
        RunState::Finished => all_pass(checks, outcomes, 0),
        RunState::Stopped(k) => first_failure(checks, outcomes, k as int),
    }
}

proof fn lemma_consistent_step(checks: Seq<Check>, outcomes: Seq<Outcome>, state: RunState)
    requires
        checks.len() <= usize::MAX,
        outcomes.len() == checks.len(),
        consistent(checks, outcomes, state),
    ensures
        consistent(
            checks,
            outcomes,
            spec_advance(checks, state, outcome_in(state, outcomes)).0,
        ),
{
    let next = spec_advance(checks, state, outcome_in(state, outcomes)).0;
    match state {
        RunState::Awaiting(k) => {
            if fails(checks[k as int], outcomes[k as int]) {
                assert(next == RunState::Stopped(k));
            } else if next is Finished {
                assert forall|j: int| 0 <= j < checks.len() implies !fails(
                    #[trigger] checks[j],
                    outcomes[j],
                ) by {
                    if j < k {
                    } else {
                        assert(j == k);
                    }
                }
            } else if next is Awaiting {
                assert forall|j: int| 0 <= j < k + 1 implies !fails(
                    #[trigger] checks[j],
                    outcomes[j],
                ) by {
                    if j < k {
                    } else {
                        assert(j == k);
                    }
                }
            }
        },
        RunState::Reporting(k) => {
            if next is Finished {
                assert forall|j: int| 0 <= j < checks.len() implies !fails(
                    #[trigger] checks[j],
                    outcomes[j],
                ) by {
                    assert(j <= k);
                }
            }
        },
        _ => {},
    }
}

/// Every state that a run reaches from the start is consistent with the
/// outcomes: in particular, step `k` is handed out only after every earlier
/// step passed its check, and a finished session had no failed check.
pub proof fn law_reached_states_are_consistent(
    checks: Seq<Check>,
    outcomes: Seq<Outcome>,
    state: RunState,
    fuel: nat,
)
    requires
        checks.len() <= usize::MAX,
        outcomes.len() == checks.len(),
        consistent(checks, outcomes, state),
    ensures
        consistent(checks, outcomes, run_from(checks, outcomes, state, fuel)),
    decreases fuel,
{
    if fuel > 0 {
        lemma_consistent_step(checks, outcomes, state);
        law_reached_states_are_consistent(
            checks,
            outcomes,
            spec_advance(checks, state, outcome_in(state, outcomes)).0,
            (fuel - 1) as nat,
        );
    }
}

/// The steps handed out (`Perform`) in `fuel` transitions from `state`, in
/// the order they are handed out, when step `i`'s call yields `outcomes[i]`.
pub open spec fn handed_out(
    checks: Seq<Check>,
    outcomes: Seq<Outcome>,
    state: RunState,
    fuel: nat,
) -> Seq<usize>
    decreases fuel,
{
    if fuel == 0 {
        Seq::empty()
    } else {
        let (next, d) = spec_advance(checks, state, outcome_in(state, outcomes));
        (if d is Perform {
            seq![d->Perform_0]
        } else {
            Seq::empty()
        }) + handed_out(checks, outcomes, next, (fuel - 1) as nat)
    }
}

/// The step the driver hands out next from `state`, if it hands one out.
pub open spec fn next_index(state: RunState) -> int {
    match state {
        RunState::Awaiting(i) => i + 1,
        RunState::Reporting(i) => i + 1,
        _ => 0,
    }
}

proof fn lemma_handed_out_from_end(
    checks: Seq<Check>,
    outcomes: Seq<Outcome>,
    state: RunState,
    fuel: nat,
)
    requires
        state is Finished || state is Stopped,
    ensures
        handed_out(checks, outcomes, state, fuel) == Seq::<usize>::empty(),
    decreases fuel,
{
    if fuel > 0 {
        lemma_handed_out_from_end(checks, outcomes, state, (fuel - 1) as nat);
        assert(handed_out(checks, outcomes, state, fuel) =~= Seq::<usize>::empty());
    }
}

proof fn lemma_handed_out_counts(
    checks: Seq<Check>,
    outcomes: Seq<Outcome>,
    state: RunState,
    fuel: nat,
)
    requires
        checks.len() <= usize::MAX,
    ensures
        forall|t: int|
            0 <= t < handed_out(checks, outcomes, state, fuel).len() ==> #[trigger] handed_out(
                checks,
                outcomes,
                state,
                fuel,
            )[t] == next_index(state) + t,
    decreases fuel,
{
    if fuel > 0 {
        let (next, d) = spec_advance(checks, state, outcome_in(state, outcomes));
        let rest = handed_out(checks, outcomes, next, (fuel - 1) as nat);
        let all = handed_out(checks, outcomes, state, fuel);
        law_steps_in_order(checks, state, outcome_in(state, outcomes));
        if state is Finished || state is Stopped {
            lemma_handed_out_from_end(checks, outcomes, state, fuel);
        } else {
            lemma_handed_out_counts(checks, outcomes, next, (fuel - 1) as nat);
            if next is Finished || next is Stopped {
                lemma_handed_out_from_end(checks, outcomes, next, (fuel - 1) as nat);
            }
            if d is Perform {
                assert(next == RunState::Awaiting(d->Perform_0));
                assert(all == seq![d->Perform_0] + rest);
                assert forall|t: int| 0 <= t < all.len() implies #[trigger] all[t] == next_index(
                    state,
                ) + t by {
                    if t > 0 {
                        assert(all[t] == rest[t - 1]);
                    }
                }
            } else {
                assert(all =~= rest);
            }
        }
    }
}

/// The driver hands out the steps of a plan in order, each at most once:
/// the `t`-th call it hands out from the start is step `t`.
pub proof fn law_each_step_at_most_once_in_order(
    checks: Seq<Check>,
    outcomes: Seq<Outcome>,
    fuel: nat,
)
    requires
        checks.len() <= usize::MAX,
    ensures
        forall|t: int|
            0 <= t < handed_out(checks, outcomes, RunState::Ready, fuel).len() ==> #[trigger] handed_out(
                checks,
                outcomes,
                RunState::Ready,
                fuel,
            )[t] == t,
{
    lemma_handed_out_counts(checks, outcomes, RunState::Ready, fuel);
}

/// What each check makes of an outcome: `StopIfTrue` fails on a `true`
/// answer, `StopIfFalse` on a `false` one, `StopIfNonZero` on any code but
/// 0, `StopIfEmpty` on a failed listing or one of no items (a listing of at
/// least one item passes), `StopUnlessTrue` on anything but a `true` answer;
/// `Proceed` and `ReportIfFalse` never end the session.
pub proof fn law_check_meanings(b: bool, c: i64, n: u64, o: Outcome)
    ensures
        fails(Check::StopIfTrue, Outcome::Flag(b)) <==> b,
        fails(Check::StopIfFalse, Outcome::Flag(b)) <==> !b,
        fails(Check::StopIfNonZero, Outcome::Code(c)) <==> c != 0,
        fails(Check::StopIfEmpty, Outcome::Count(Some(n))) <==> n == 0,
        fails(Check::StopIfEmpty, Outcome::Count(None)),
        fails(Check::StopUnlessTrue, o) <==> o != Outcome::Flag(true),
        !fails(Check::Proceed, o),
        !fails(Check::ReportIfFalse, o),
        reported(Check::ReportIfFalse, Outcome::Flag(false)),
        !reported(Check::ReportIfFalse, Outcome::Flag(true)),
{
}

/// A listing step that finds at least one item lets the session go on: the
/// driver hands out the next step, or finishes after the last one.
pub proof fn law_listing_with_items_goes_on(checks: Seq<Check>, i: usize, n: u64)
    requires
        i < checks.len(),
        checks.len() <= usize::MAX,
        checks[i as int] == Check::StopIfEmpty,
        n >= 1,
    ensures
        i + 1 < checks.len() ==> spec_advance(checks, RunState::Awaiting(i), Outcome::Count(Some(n)))
            == (RunState::Awaiting((i + 1) as usize), Directive::Perform((i + 1) as usize)),
        i + 1 == checks.len() ==> spec_advance(
            checks,
            RunState::Awaiting(i),
            Outcome::Count(Some(n)),
        ) == (RunState::Finished, Directive::Finish),
{
}

} // verus!
