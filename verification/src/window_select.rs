//! Choosing the windows a window recording captures.
//!
//! Windows are matched by text, case-insensitively: the class of a Notepad
//! window contains `notepad`, and the OBS id of a code editor window contains
//! `code`, once both are lower-cased.
use vstd::prelude::*;
use crate::plan::{CallView, Plan, StepView};
use crate::runner::Check;
use crate::names::{created_name, used_names, uses_only_created};
use crate::sessions::{
    chosen_encoders_view, context_output_view, just, must, output_name, say, window_capture_view,
};
use crate::messages::{decimal, decimal_of};
use crate::settings::SettingValueView;
use crate::plan::{Call, FailureReport, Step};

verus! {

/// The lower-case form of a string, as Rust's `str::to_lowercase` computes it.
pub uninterp spec fn lowercase_of(s: Seq<char>) -> Seq<char>;

/// Lower-cases a string with `str::to_lowercase`; the result is
/// `lowercase_of` of the argument (Unicode lower-casing, which this library
/// does not restate).
#[verifier::external_body]
fn to_lowercase(s: &str) -> (r: String)
    ensures
        r@ == lowercase_of(s@),
{
    s.to_lowercase()
}

/// `needle` occurs in `haystack` as a contiguous run of characters.
pub open spec fn text_contains(haystack: Seq<char>, needle: Seq<char>) -> bool {
    exists|i: int|
        0 <= i && i + needle.len() <= haystack.len() && #[trigger] haystack.subrange(
            i,
            i + needle.len(),
        ) == needle
}

fn chars_of(s: &str) -> (r: Vec<char>)
    ensures
        r@ == s@,
{
    let n = s.unicode_len();
    let mut r: Vec<char> = Vec::new();
    let mut i: usize = 0;
    while i < n
        invariant
            n == s@.len(),
            i <= n,
            r@ == s@.take(i as int),
        decreases n - i,
    {
        r.push(s.get_char(i));
        i = i + 1;
        assert(r@ =~= s@.take(i as int));
    }
    assert(s@.take(n as int) =~= s@);
    r
}

fn matches_at(h: &Vec<char>, n: &Vec<char>, i: usize) -> (r: bool)
    requires
        i + n@.len() <= h@.len(),
    ensures
        r == (h@.subrange(i as int, i + n@.len()) == n@),
{
    let mut j: usize = 0;
    while j < n.len()
        invariant
            i + n@.len() <= h@.len(),
            h@.len() == h.len(),
            j <= n@.len(),
            forall|k: int| 0 <= k < j ==> h@[i + k] == n@[k],
        decreases n@.len() - j,
    {
        if h[i + j] != n[j] {
            assert(h@.subrange(i as int, i + n@.len())[j as int] != n@[j as int]);
            return false;
        }
        j = j + 1;
    }
    assert(h@.subrange(i as int, i + n@.len()) =~= n@);
    true
}

/// Whether `needle` occurs in `haystack`.
pub fn contains_text(haystack: &str, needle: &str) -> (r: bool)
    ensures
        r == text_contains(haystack@, needle@),
{
    let h = chars_of(haystack);
    let n = chars_of(needle);
    if n.len() > h.len() {
        return false;
    }
    let last = h.len() - n.len();
    let mut i: usize = 0;
    loop
        invariant
            last == h@.len() - n@.len(),
            n@.len() <= h@.len(),
            i <= last,
            h@ == haystack@,
            n@ == needle@,
            forall|k: int| 0 <= k < i ==> #[trigger] h@.subrange(k, k + n@.len()) != n@,
        ensures
            forall|k: int| 0 <= k <= last ==> #[trigger] h@.subrange(k, k + n@.len()) != n@,
        decreases last - i,
    {
        if matches_at(&h, &n, i) {
            return true;
        }
        if i == last {
            break;
        }
        i = i + 1;
    }
    assert forall|k: int|
        0 <= k && k + needle@.len() <= haystack@.len() implies #[trigger] haystack@.subrange(
        k,
        k + needle@.len(),
    ) != needle@ by {
        assert(h@.subrange(k, k + n@.len()) != n@);
    }
    false
}

/// A lower-cased window class names a Notepad window.
pub open spec fn is_notepad_lowercase(lower: Option<Seq<char>>) -> bool {
    match lower {
        Some(c) => text_contains(c, "notepad"@),
        None => false,
    }
}

/// The lower-case form of an optional class.
pub open spec fn lowercase_class(class: Option<Seq<char>>) -> Option<Seq<char>> {
    match class {
        Some(c) => Some(lowercase_of(c)),
        None => None,
    }
}

/// The window class names a Notepad window.
pub open spec fn is_notepad_class(class: Option<Seq<char>>) -> bool {
    is_notepad_lowercase(lowercase_class(class))
}

/// The views of a list of optional strings.
pub open spec fn option_views(v: Seq<Option<String>>) -> Seq<Option<Seq<char>>> {
    v.map_values(
        |o: Option<String>|
            match o {
                Some(s) => Some(s@),
                None => None,
            },
    )
}

/// The views of a list of strings.
pub open spec fn string_views(v: Seq<String>) -> Seq<Seq<char>> {
    v.map_values(|s: String| s@)
}

/// The position of the first window whose lower-cased class names Notepad,
/// given the lower-cased classes of the listed windows in order.
pub fn first_notepad_in_lowercase(lower_classes: &Vec<Option<String>>) -> (r: Option<usize>)
    ensures
        match r {
            Some(i) => i < lower_classes@.len() && is_notepad_lowercase(
                option_views(lower_classes@)[i as int],
            ) && forall|j: int|
                0 <= j < i ==> !is_notepad_lowercase(option_views(lower_classes@)[j]),
            None => forall|j: int|
                0 <= j < lower_classes@.len() ==> !is_notepad_lowercase(
                    option_views(lower_classes@)[j],
                ),
        },
{
    let mut i: usize = 0;
    while i < lower_classes.len()
        invariant
            i <= lower_classes@.len(),
            forall|j: int|
                0 <= j < i ==> !is_notepad_lowercase(option_views(lower_classes@)[j]),
        decreases lower_classes@.len() - i,
    {
        let hit = match &lower_classes[i] {
            Some(c) => contains_text(c.as_str(), "notepad"),
            None => false,
        };
        if hit {
            return Some(i);
        }
        i = i + 1;
    }
    None
}

/// The position of the first window whose class names Notepad, given the
/// classes of the listed windows in order.
pub fn first_notepad_window(classes: &Vec<Option<String>>) -> (r: Option<usize>)
    ensures
        match r {
            Some(i) => i < classes@.len() && is_notepad_class(option_views(classes@)[i as int])
                && forall|j: int| 0 <= j < i ==> !is_notepad_class(option_views(classes@)[j]),
            None => forall|j: int|
                0 <= j < classes@.len() ==> !is_notepad_class(option_views(classes@)[j]),
        },
{
    let mut lowered: Vec<Option<String>> = Vec::new();
    let mut i: usize = 0;
    while i < classes.len()
        invariant
            i <= classes@.len(),
            lowered@.len() == i,
            forall|j: int|
                0 <= j < i ==> #[trigger] option_views(lowered@)[j] == lowercase_class(
                    option_views(classes@)[j],
                ),
        decreases classes@.len() - i,
    {
        let ghost before = lowered@;
        let lower = match &classes[i] {
            Some(c) => Some(to_lowercase(c.as_str())),
            None => None,
        };
        lowered.push(lower);
        proof {
            assert forall|j: int| 0 <= j < i + 1 implies #[trigger] option_views(lowered@)[j]
                == lowercase_class(option_views(classes@)[j]) by {
                if j < i {
                    assert(lowered@[j] == before[j]);
                    assert(option_views(before)[j] == lowercase_class(option_views(classes@)[j]));
                }
            }
        }
        i = i + 1;
    }
    let r = first_notepad_in_lowercase(&lowered);
    assert forall|j: int| 0 <= j < classes@.len() implies is_notepad_class(
        #[trigger] option_views(classes@)[j],
    ) == is_notepad_lowercase(option_views(lowered@)[j]) by {
        assert(option_views(lowered@)[j] == lowercase_class(option_views(classes@)[j]));
    }
    r
}

/// What to do after a search for the Notepad window.
#[derive(Clone, Copy, PartialEq, Eq, Structural)]
pub enum NotepadDecision {
    /// Record the window at this position of the listing.
    Use(usize),
    /// Start Notepad, wait, and search again.
    LaunchAndRetry,
    /// No Notepad window could be found: give up.
    GiveUp,
}

/// Decides after a search: a found window is used; the first miss starts
/// Notepad for a second search; a miss after that gives up.
pub fn after_notepad_search(found: Option<usize>, launched: bool) -> (d: NotepadDecision)
    ensures
        d == match found {
            Some(i) => NotepadDecision::Use(i),
            None => if launched {
                NotepadDecision::GiveUp
            } else {
                NotepadDecision::LaunchAndRetry
            },
        },
{
    match found {
        Some(i) => NotepadDecision::Use(i),
        None => if launched {
            NotepadDecision::GiveUp
        } else {
            NotepadDecision::LaunchAndRetry
        },
    }
}

/// The ids whose lower-cased forms (`lower`, position by position) name
/// code editor windows, in their order.
pub open spec fn code_ids_given(ids: Seq<Seq<char>>, lower: Seq<Seq<char>>) -> Seq<Seq<char>>
    decreases ids.len(),
{
    if ids.len() == 0 {
        Seq::empty()
    } else {
        let rest = code_ids_given(ids.drop_last(), lower.drop_last());
        if text_contains(lower[ids.len() - 1], "code"@) {
            rest.push(ids.last())
        } else {
            rest
        }
    }
}

/// The ids that name code editor windows (their lower-case form contains
/// `code`), in their order.
pub open spec fn code_window_ids_of(ids: Seq<Seq<char>>) -> Seq<Seq<char>> {
    code_ids_given(ids, ids.map_values(|s: Seq<char>| lowercase_of(s)))
}

/// The OBS ids whose lower-cased forms contain `code`, in order, given the
/// ids and their lower-cased forms position by position.
pub fn code_ids_by_lowercase(obs_ids: &Vec<String>, lowered: &Vec<String>) -> (r: Vec<String>)
    requires
        lowered@.len() == obs_ids@.len(),
    ensures
        string_views(r@) == code_ids_given(string_views(obs_ids@), string_views(lowered@)),
{
    let mut r: Vec<String> = Vec::new();
    let mut i: usize = 0;
    while i < obs_ids.len()
        invariant
            i <= obs_ids@.len(),
            lowered@.len() == obs_ids@.len(),
            string_views(r@) == code_ids_given(
                string_views(obs_ids@).take(i as int),
                string_views(lowered@).take(i as int),
            ),
        decreases obs_ids@.len() - i,
    {
        let ghost before = r@;
        let keep = contains_text(lowered[i].as_str(), "code");
        if keep {
            r.push(obs_ids[i].clone());
        }
        proof {
            let ids_t = string_views(obs_ids@).take(i + 1);
            let low_t = string_views(lowered@).take(i + 1);
            assert(ids_t.drop_last() =~= string_views(obs_ids@).take(i as int));
            assert(low_t.drop_last() =~= string_views(lowered@).take(i as int));
            assert(ids_t.last() == obs_ids@[i as int]@);
            assert(low_t[ids_t.len() - 1] == lowered@[i as int]@);
            if keep {
                assert(string_views(r@) =~= string_views(before).push(obs_ids@[i as int]@));
            } else {
                assert(r@ == before);
            }
        }
        i = i + 1;
    }
    assert(string_views(obs_ids@).take(i as int) =~= string_views(obs_ids@));
    assert(string_views(lowered@).take(i as int) =~= string_views(lowered@));
    r
}

/// The OBS ids of the code editor windows among `obs_ids`, in order.
pub fn code_window_ids(obs_ids: &Vec<String>) -> (r: Vec<String>)
    ensures
        string_views(r@) == code_window_ids_of(string_views(obs_ids@)),
{
    let mut lowered: Vec<String> = Vec::new();
    let mut i: usize = 0;
    while i < obs_ids.len()
        invariant
            i <= obs_ids@.len(),
            lowered@.len() == i,
            forall|j: int| 0 <= j < i ==> #[trigger] lowered@[j]@ == lowercase_of(obs_ids@[j]@),
        decreases obs_ids@.len() - i,
    {
        lowered.push(to_lowercase(obs_ids[i].as_str()));
        i = i + 1;
    }
    assert(string_views(lowered@) =~= string_views(obs_ids@).map_values(
        |s: Seq<char>| lowercase_of(s),
    ));
    code_ids_by_lowercase(obs_ids, &lowered)
}

/// At most this many windows are visited in turn.
pub const MAX_WINDOW_SWITCHES: usize = 5;

/// How many windows are visited in turn out of `available`.
pub open spec fn switch_count(available: nat) -> nat {
    if available < MAX_WINDOW_SWITCHES {
        available
    } else {
        MAX_WINDOW_SWITCHES as nat
    }
}

/// The line printed during the visit of window number `i` (from 0).
pub open spec fn visit_line(i: int) -> Seq<char> {
    "Recording for "@ + decimal_of(i) + " seconds"@
}

/// Pointing the capture at each of the first `k` windows for five seconds.
pub open spec fn visit_steps(ids: Seq<Seq<char>>, k: nat) -> Seq<StepView>
    decreases k,
{
    if k == 0 {
        Seq::empty()
    } else {
        visit_steps(ids, (k - 1) as nat) + seq![
            must(
                CallView::RetargetWindowCapture {
                    scene: "main"@,
                    source_index: 0,
                    window: ids[k - 1],
                }),
            say(visit_line(k - 1)),
            just(CallView::Sleep { millis: 5000 }),
        ]
    }
}

/// The rest of the window recording: the capture visits up to five of the
/// given windows, five seconds each, then the output stops.
pub open spec fn window_cycle_view(ids: Seq<Seq<char>>) -> Seq<StepView> {
    visit_steps(ids, switch_count(ids.len())) + seq![
        say("Recording stop"@),
        must(CallView::StopOutput { output: output_name() }),
    ]
}

/// Builds the rest of the window recording for the code editor windows `ids`.
pub fn window_cycle_plan(ids: &Vec<String>) -> (p: Plan)
    ensures
        p@ == window_cycle_view(string_views(ids@)),
{
    let ghost views = string_views(ids@);
    let count = if ids.len() < MAX_WINDOW_SWITCHES {
        ids.len()
    } else {
        MAX_WINDOW_SWITCHES
    };
    let mut p = Plan::new();
    let mut k: usize = 0;
    while k < count
        invariant
            count == switch_count(ids@.len() as nat),
            count <= ids@.len(),
            k <= count,
            views == string_views(ids@),
            p@ == visit_steps(views, k as nat),
        decreases count - k,
    {
        p.push(
            Step {
                call: Call::RetargetWindowCapture {
                    scene: String::from_str("main"),
                    source_index: 0,
                    window: ids[k].clone(),
                },
                check: Check::StopIfFalse,
                on_failure: FailureReport::Unwrap,
            },
        );
        let mut line = String::from_str("Recording for ");
        let number = decimal(k as i64);
        line.append(number.as_str());
        line.append(" seconds");
        assert(line@ =~= visit_line(k as int));
        p.push(
            Step { call: Call::Print { line }, check: Check::Proceed, on_failure: FailureReport::Silent },
        );
        p.push(
            Step {
                call: Call::Sleep { millis: 5000 },
                check: Check::Proceed,
                on_failure: FailureReport::Silent,
            },
        );
        k = k + 1;
        assert(p@ =~= visit_steps(views, k as nat));
    }
    p.push(
        Step {
            call: Call::Print { line: String::from_str("Recording stop") },
            check: Check::Proceed,
            on_failure: FailureReport::Silent,
        },
    );
    p.push(
        Step {
            call: Call::StopOutput { output: String::from_str("output") },
            check: Check::StopIfFalse,
            on_failure: FailureReport::Unwrap,
        },
    );
    assert(p@ =~= window_cycle_view(views));
    p
}

proof fn lemma_visit_steps(ids: Seq<Seq<char>>, k: nat)
    ensures
        visit_steps(ids, k).len() == 3 * k,
        forall|t: int|
            0 <= t < 3 * k ==> used_names(#[trigger] visit_steps(ids, k)[t].call) == seq!["main"@]
                || used_names(visit_steps(ids, k)[t].call) == Seq::<Seq<char>>::empty(),
    decreases k,
{
    if k > 0 {
        lemma_visit_steps(ids, (k - 1) as nat);
        let prev = visit_steps(ids, (k - 1) as nat);
        let cur = visit_steps(ids, k);
        assert forall|t: int| 0 <= t < 3 * k implies used_names(#[trigger] cur[t].call) == seq![
            "main"@,
        ] || used_names(cur[t].call) == Seq::<Seq<char>>::empty() by {
            if t < 3 * (k - 1) {
                assert(cur[t] == prev[t]);
            }
        }
    }
}

/// The logged recording set-up followed by the window recording, with any
/// list of code editor windows, acts only on objects created earlier in it.
pub proof fn law_window_session_uses_only_created_objects(
    path: SettingValueView,
    choice: usize,
    window: Seq<char>,
    ids: Seq<Seq<char>>,
)
    ensures
        uses_only_created(
            context_output_view(path) + chosen_encoders_view(choice) + window_capture_view(window)
                + window_cycle_view(ids),
        ),
{
    let a = context_output_view(path);
    let b = chosen_encoders_view(choice);
    let c = window_capture_view(window);
    let d = window_cycle_view(ids);
    let visits = visit_steps(ids, switch_count(ids.len()));
    lemma_visit_steps(ids, switch_count(ids.len()));
    let plan = a + b + c + d;
    assert forall|i: int, m: int|
        #![trigger used_names(plan[i].call)[m]]
        0 <= i < plan.len() && 0 <= m < used_names(plan[i].call).len() implies exists|j: int|
        0 <= j < i && #[trigger] created_name(plan[j].call) == Some(used_names(plan[i].call)[m]) by {
        assert(plan[1] == a[1]);
        assert(created_name(plan[1].call) == Some("output"@));
        assert(plan[5] == c[0]);
        assert(created_name(plan[5].call) == Some("main"@));
        if i >= 11 {
            assert(plan[i] == d[i - 11]);
            if i - 11 < visits.len() {
                assert(d[i - 11] == visits[i - 11]);
            }
        } else if i >= 5 {
            assert(plan[i] == c[i - 5]);
        } else if i >= 3 {
            assert(plan[i] == b[i - 3]);
        } else {
            assert(plan[i] == a[i]);
        }
    }
}

proof fn lemma_visit_steps_shape(ids: Seq<Seq<char>>, k: nat)
    requires
        k <= ids.len(),
    ensures
        visit_steps(ids, k).len() == 3 * k,
        forall|t: int|
            0 <= t < k ==> #[trigger] visit_steps(ids, k)[3 * t] == must(
                CallView::RetargetWindowCapture { scene: "main"@, source_index: 0, window: ids[t] },
            ) && visit_steps(ids, k)[3 * t + 1] == say(visit_line(t)) && visit_steps(ids, k)[3 * t
                + 2] == just(CallView::Sleep { millis: 5000 }),
    decreases k,
{
    if k > 0 {
        lemma_visit_steps_shape(ids, (k - 1) as nat);
        let prev = visit_steps(ids, (k - 1) as nat);
        let cur = visit_steps(ids, k);
        assert forall|t: int| 0 <= t < k implies #[trigger] cur[3 * t] == must(
            CallView::RetargetWindowCapture { scene: "main"@, source_index: 0, window: ids[t] },
        ) && cur[3 * t + 1] == say(visit_line(t)) && cur[3 * t + 2] == just(
            CallView::Sleep { millis: 5000 },
        ) by {
            if t < k - 1 {
                assert(cur[3 * t] == prev[3 * t]);
                assert(cur[3 * t + 1] == prev[3 * t + 1]);
                assert(cur[3 * t + 2] == prev[3 * t + 2]);
            }
        }
    }
}

/// The window cycle visits the first `min(5, n)` of the given windows in
/// order: visit `t` points the source at position 0 of scene `main` (the
/// window capture) at window `ids[t]`, ending the program if that fails,
/// prints `Recording for t seconds` and waits five seconds; then
/// `Recording stop` is printed and the output stops.
pub proof fn law_window_cycle_visits(ids: Seq<Seq<char>>)
    ensures
        ({
            let k = switch_count(ids.len());
            let plan = window_cycle_view(ids);
            &&& k <= 5 && k <= ids.len() && (ids.len() <= 5 ==> k == ids.len()) && (ids.len() >= 5 ==> k
                == 5)
            &&& plan.len() == 3 * k + 2
            &&& forall|t: int|
                0 <= t < k ==> (#[trigger] plan[3 * t]).call == (CallView::RetargetWindowCapture {
                    scene: "main"@,
                    source_index: 0,
                    window: ids[t],
                }) && plan[3 * t].check == Check::StopIfFalse && plan[3 * t + 1].call
                    == (CallView::Print { line: "Recording for "@ + decimal_of(t) + " seconds"@ })
                    && plan[3 * t + 2].call == (CallView::Sleep { millis: 5000 })
            &&& plan[3 * (k as int)].call == (CallView::Print { line: "Recording stop"@ })
            &&& plan[3 * (k as int) + 1].call == (CallView::StopOutput { output: "output"@ })
        }),
{
    let k = switch_count(ids.len());
    let visits = visit_steps(ids, k);
    let plan = window_cycle_view(ids);
    lemma_visit_steps_shape(ids, k);
    assert forall|t: int| 0 <= t < k implies (#[trigger] plan[3 * t]).call
        == (CallView::RetargetWindowCapture { scene: "main"@, source_index: 0, window: ids[t] })
        && plan[3 * t].check == Check::StopIfFalse && plan[3 * t + 1].call == (CallView::Print {
        line: "Recording for "@ + decimal_of(t) + " seconds"@,
    }) && plan[3 * t + 2].call == (CallView::Sleep { millis: 5000 }) by {
        assert(plan[3 * t] == visits[3 * t]);
        assert(plan[3 * t + 1] == visits[3 * t + 1]);
        assert(plan[3 * t + 2] == visits[3 * t + 2]);
    }
}

} // verus!
