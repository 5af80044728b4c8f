//! What the dispatcher guarantees, stated over the whole-dispatch model and
//! proved once and for all.

use vstd::prelude::*;

use crate::config::HandlerView;
use crate::dispatch::{
    default_leg_outcome, default_run, default_script_name, dispatch_outcome, dispatch_runs,
    handler_run, passed_over, pattern_valid, regex_matches, selection, selection_from, RunOutcome,
    Selection, SpecOutcome, SpecRun,
};

verus! {

/// What each possible decision of the walk starting at `k` says about the
/// entries from `k` on.
proof fn lemma_selection_from_props(hs: Seq<HandlerView>, url: Seq<char>, k: int)
    requires
        0 <= k <= hs.len(),
    ensures
        (selection_from(hs, url, k) matches Selection::Matched(i) ==> (k <= i < hs.len()
            && pattern_valid(hs[i].pattern) && regex_matches(hs[i].pattern, url) && (forall|j: int|
            k <= j < i ==> #[trigger] passed_over(hs[j], url)))),
        (selection_from(hs, url, k) matches Selection::BadPattern(i) ==> (k <= i < hs.len()
            && !pattern_valid(hs[i].pattern) && (forall|j: int|
            k <= j < i ==> #[trigger] passed_over(hs[j], url)))),
        (selection_from(hs, url, k) is NoMatch ==> (forall|j: int|
            k <= j < hs.len() ==> #[trigger] passed_over(hs[j], url))),
    decreases hs.len() - k,
{
    if k < hs.len() {
        if passed_over(hs[k], url) {
            lemma_selection_from_props(hs, url, k + 1);
        }
    }
}

/// The walk starting anywhere at or before `i` picks `i`, when it passes
/// over every entry from there up to `i` and `i` itself matches.
proof fn lemma_selection_from_reaches_match(hs: Seq<HandlerView>, url: Seq<char>, k: int, i: int)
    requires
        0 <= k <= i < hs.len(),
        forall|j: int| k <= j < i ==> #[trigger] passed_over(hs[j], url),
        pattern_valid(hs[i].pattern),
        regex_matches(hs[i].pattern, url),
    ensures
        selection_from(hs, url, k) == Selection::Matched(i),
    decreases i - k,
{
    if k < i {
        assert(passed_over(hs[k], url));
        lemma_selection_from_reaches_match(hs, url, k + 1, i);
    }
}

/// The walk starting anywhere at or before `i` stops at the invalid pattern
/// `i`, when it passes over every entry from there up to `i`.
proof fn lemma_selection_from_reaches_bad(hs: Seq<HandlerView>, url: Seq<char>, k: int, i: int)
    requires
        0 <= k <= i < hs.len(),
        forall|j: int| k <= j < i ==> #[trigger] passed_over(hs[j], url),
        !pattern_valid(hs[i].pattern),
    ensures
        selection_from(hs, url, k) == Selection::BadPattern(i),
    decreases i - k,
{
    if k < i {
        assert(passed_over(hs[k], url));
        lemma_selection_from_reaches_bad(hs, url, k + 1, i);
    }
}

/// Handlers are tried in declaration order and the first whose pattern
/// matches the URL is the one selected: a selected handler matches, every
/// handler before it is passed over (its pattern is valid and does not
/// match), and conversely such a handler is always the one selected. When
/// selection stops at an invalid pattern instead, every handler before that
/// entry was passed over too.
pub proof fn lemma_selection_is_first_match(hs: Seq<HandlerView>, url: Seq<char>)
    ensures
        (selection(hs, url) matches Selection::Matched(i) ==> (0 <= i < hs.len()
            && pattern_valid(hs[i].pattern) && regex_matches(hs[i].pattern, url) && (forall|j: int|
            0 <= j < i ==> #[trigger] passed_over(hs[j], url)))),
        (selection(hs, url) matches Selection::BadPattern(i) ==> (0 <= i < hs.len()
            && !pattern_valid(hs[i].pattern) && (forall|j: int|
            0 <= j < i ==> #[trigger] passed_over(hs[j], url)))),
        (selection(hs, url) is NoMatch ==> (forall|j: int|
            0 <= j < hs.len() ==> #[trigger] passed_over(hs[j], url))),
        (forall|i: int|
            {
                (0 <= i < hs.len() && #[trigger] pattern_valid(hs[i].pattern) && regex_matches(
                    hs[i].pattern,
                    url,
                ) && (forall|j: int| 0 <= j < i ==> #[trigger] passed_over(hs[j], url)))
                    ==> selection(hs, url) == Selection::Matched(i)
            }),
{
    lemma_selection_from_props(hs, url, 0);
    assert forall|i: int|
        (0 <= i < hs.len() && #[trigger] pattern_valid(hs[i].pattern) && regex_matches(
            hs[i].pattern,
            url,
        ) && (forall|j: int|
            0 <= j < i ==> #[trigger] passed_over(hs[j], url))) implies selection(hs, url)
        == Selection::Matched(i) by {
        lemma_selection_from_reaches_match(hs, url, 0, i);
    }
}

/// With an empty handler list, dispatch invokes exactly the default handler,
/// whatever the processes do; the default script itself must be installed.
pub proof fn lemma_empty_config_runs_default(
    url: Seq<char>,
    matched_found: bool,
    matched_outcome: RunOutcome,
    default_outcome: RunOutcome,
)
    ensures
        dispatch_runs(Seq::empty(), url, matched_found, matched_outcome, true, default_outcome)
            =~= seq![default_run(url, Seq::empty())],
        dispatch_outcome(Seq::empty(), url, matched_found, matched_outcome, true, default_outcome)
            == default_leg_outcome(true, default_outcome),
{
    assert(selection(Seq::<HandlerView>::empty(), url) is NoMatch);
}

/// No handler other than the selected one is ever invoked: every invocation
/// of a dispatch that selected handler `i` is either that handler's run or
/// the default handler's run.
pub proof fn lemma_runs_only_selected_or_default(
    hs: Seq<HandlerView>,
    url: Seq<char>,
    i: int,
    matched_found: bool,
    matched_outcome: RunOutcome,
    default_found: bool,
    default_outcome: RunOutcome,
)
    requires
        selection(hs, url) == Selection::Matched(i),
    ensures
        ({
            let runs = dispatch_runs(
                hs,
                url,
                matched_found,
                matched_outcome,
                default_found,
                default_outcome,
            );
            forall|k: int|
                0 <= k < runs.len() ==> #[trigger] runs[k] == handler_run(hs[i], url) || runs[k]
                    == default_run(url, hs[i].pattern)
        }),
{
}

/// If the matched handler's script resolves and its process exits
/// successfully, dispatch succeeds and the default handler is never invoked.
pub proof fn lemma_matched_success_skips_default(
    hs: Seq<HandlerView>,
    url: Seq<char>,
    i: int,
    default_found: bool,
    default_outcome: RunOutcome,
)
    requires
        selection(hs, url) == Selection::Matched(i),
    ensures
        dispatch_runs(
            hs,
            url,
            true,
            (RunOutcome::Exited { success: true }),
            default_found,
            default_outcome,
        ) =~= seq![handler_run(hs[i], url)],
        dispatch_outcome(
            hs,
            url,
            true,
            (RunOutcome::Exited { success: true }),
            default_found,
            default_outcome,
        ) == SpecOutcome::Success,
{
}

/// If the matched handler's process exits nonzero, the default handler is
/// invoked exactly once afterward, with the same URL and the pattern that
/// matched as its arguments, and the dispatch's final outcome is the default
/// handler's outcome.
pub proof fn lemma_matched_failure_falls_back(
    hs: Seq<HandlerView>,
    url: Seq<char>,
    i: int,
    default_outcome: RunOutcome,
)
    requires
        selection(hs, url) == Selection::Matched(i),
    ensures
        dispatch_runs(hs, url, true, (RunOutcome::Exited { success: false }), true, default_outcome)
            =~= seq![handler_run(hs[i], url), default_run(url, hs[i].pattern)],
        dispatch_outcome(
            hs,
            url,
            true,
            (RunOutcome::Exited { success: false }),
            true,
            default_outcome,
        ) == default_leg_outcome(true, default_outcome),
{
}

/// An invalid pattern aborts dispatch before any process is spawned, at
/// whatever position it stands, provided no earlier handler both compiles and
/// matches (an earlier match is taken first and the walk never reaches the
/// invalid entry).
pub proof fn lemma_bad_pattern_aborts(
    hs: Seq<HandlerView>,
    url: Seq<char>,
    i: int,
    matched_found: bool,
    matched_outcome: RunOutcome,
    default_found: bool,
    default_outcome: RunOutcome,
)
    requires
        0 <= i < hs.len(),
        !pattern_valid(hs[i].pattern),
        forall|j: int| 0 <= j < i ==> #[trigger] passed_over(hs[j], url),
    ensures
        selection(hs, url) == Selection::BadPattern(i),
        dispatch_runs(hs, url, matched_found, matched_outcome, default_found, default_outcome)
            =~= Seq::<SpecRun>::empty(),
        dispatch_outcome(hs, url, matched_found, matched_outcome, default_found, default_outcome)
            == (SpecOutcome::BadPattern { pattern: hs[i].pattern }),
{
    lemma_selection_from_reaches_bad(hs, url, 0, i);
}

/// A missing handler script is reported, under that script's name, exactly
/// when the handler that names it was selected, which needs its pattern to
/// match the URL; handlers that are not selected are never resolved. The
/// default script's own absence is reported under the reserved name.
pub proof fn lemma_script_missing_only_for_match(
    hs: Seq<HandlerView>,
    url: Seq<char>,
    matched_found: bool,
    matched_outcome: RunOutcome,
    default_found: bool,
    default_outcome: RunOutcome,
)
    ensures
        ({
            match selection(hs, url) {
                Selection::Matched(i) => !matched_found ==> dispatch_outcome(
                    hs,
                    url,
                    matched_found,
                    matched_outcome,
                    default_found,
                    default_outcome,
                ) == (SpecOutcome::ScriptMissing { script: hs[i].script }),
                _ => true,
            }
        }),
        ({
            match dispatch_outcome(
                hs,
                url,
                matched_found,
                matched_outcome,
                default_found,
                default_outcome,
            ) {
                SpecOutcome::ScriptMissing { script } => script != default_script_name() ==> (
                selection(hs, url) matches Selection::Matched(i) && hs[i].script == script
                    && regex_matches(hs[i].pattern, url)),
                _ => true,
            }
        }),
{
    lemma_selection_is_first_match(hs, url);
}

/// One handler whose pattern compiles and matches the URL, and whose script
/// resolves and exits successfully: exactly that script runs, with the URL
/// and the pattern as its two arguments, dispatch succeeds, and the default
/// handler is never invoked.
pub proof fn lemma_single_matching_handler_success(
    h: HandlerView,
    url: Seq<char>,
    default_found: bool,
    default_outcome: RunOutcome,
)
    requires
        pattern_valid(h.pattern),
        regex_matches(h.pattern, url),
    ensures
        dispatch_runs(
            seq![h],
            url,
            true,
            (RunOutcome::Exited { success: true }),
            default_found,
            default_outcome,
        ) =~= seq![handler_run(h, url)],
        dispatch_outcome(
            seq![h],
            url,
            true,
            (RunOutcome::Exited { success: true }),
            default_found,
            default_outcome,
        ) == SpecOutcome::Success,
{
    assert(selection(seq![h], url) == Selection::Matched(0));
}

/// One handler whose pattern compiles and does not match the URL: that
/// handler is never resolved or invoked; the default handler alone is
/// invoked, once, with the URL and an empty pattern argument, and its result
/// is the dispatch's result.
pub proof fn lemma_single_handler_no_match(
    h: HandlerView,
    url: Seq<char>,
    matched_found: bool,
    matched_outcome: RunOutcome,
    default_outcome: RunOutcome,
)
    requires
        pattern_valid(h.pattern),
        !regex_matches(h.pattern, url),
    ensures
        dispatch_runs(seq![h], url, matched_found, matched_outcome, true, default_outcome)
            =~= seq![default_run(url, Seq::empty())],
        dispatch_outcome(seq![h], url, matched_found, matched_outcome, true, default_outcome)
            == default_leg_outcome(true, default_outcome),
{
    assert(selection_from(seq![h], url, 1) is NoMatch);
    assert(selection(seq![h], url) is NoMatch);
}

/// One handler whose pattern compiles and matches the URL, and whose script
/// resolves but exits nonzero: that script runs first, then the default
/// handler runs exactly once, with the same URL and the matched pattern as
/// its arguments, and the default's outcome is the dispatch's outcome.
pub proof fn lemma_single_matching_handler_failure(
    h: HandlerView,
    url: Seq<char>,
    default_outcome: RunOutcome,
)
    requires
        pattern_valid(h.pattern),
        regex_matches(h.pattern, url),
    ensures
        dispatch_runs(seq![h], url, true, (RunOutcome::Exited { success: false }), true, default_outcome)
            =~= seq![handler_run(h, url), default_run(url, h.pattern)],
        dispatch_outcome(seq![h], url, true, (RunOutcome::Exited { success: false }), true, default_outcome)
            == default_leg_outcome(true, default_outcome),
{
    assert(selection(seq![h], url) == Selection::Matched(0));
}

} // verus!
