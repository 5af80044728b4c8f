//! Choosing and running a handler for a URL.
//!
//! Selection is pure: the handlers are walked in declaration order, each
//! pattern is compiled, and the first whose pattern matches the URL is
//! chosen; an invalid pattern aborts the walk. Running the chosen script is a
//! side effect the surrounding program performs; the functions here decide
//! what to run, with which arguments, and what each outcome means.

use vstd::prelude::*;
use vstd::string::*;

use crate::config::{Config, HandlerView};

verus! {

/// Why a dispatch failed.
#[derive(Debug)]
pub enum DispatchError {
    /// A handler's pattern was not a valid regular expression.
    Pattern { pattern: String },
    /// A required script name did not resolve to a file under `scripts/`.
    ScriptNotFound { script: String },
    /// The operating system failed to start the resolved script.
    SpawnFailed { script: String },
    /// The default handler itself exited with a nonzero status.
    DefaultFailed,
}

/// Whether a pattern is a valid regular expression. Stands for the success of
/// regex::Regex::new, which depends on the pattern alone.
pub uninterp spec fn pattern_valid(pattern: Seq<char>) -> bool;

/// Whether a valid pattern matches somewhere in a text. Stands for the result
/// of regex::Regex::is_match, which depends on the pattern and the text alone.
pub uninterp spec fn regex_matches(pattern: Seq<char>, text: Seq<char>) -> bool;

#[verifier::external_type_specification]
#[verifier::external_body]
pub struct ExRegexError(regex::Error);

/// Relies on regex::Regex::new and regex::Regex::is_match: compilation
/// succeeds or fails on the pattern alone (the size limit it enforces is the
/// crate's fixed default), and whether the compiled pattern matches somewhere
/// in `text` is a function of the pattern and the text.
#[verifier::external_body]
fn regex_is_match(pattern: &str, text: &str) -> (r: Result<bool, regex::Error>)
    ensures
        r is Ok <==> pattern_valid(pattern@),
        r matches Ok(m) ==> m == regex_matches(pattern@, text@),
{
    match regex::Regex::new(pattern) {
        Ok(re) => Ok(re.is_match(text)),
        Err(e) => Err(e),
    }
}

/// What walking the handler list from the front decides: the first handler
/// whose pattern matches, an invalid pattern reached before any match, or
/// neither over the whole list.
pub enum Selection {
    Matched(int),
    BadPattern(int),
    NoMatch,
}

/// The decision the walk reaches starting at position `i`.
pub open spec fn selection_from(hs: Seq<HandlerView>, url: Seq<char>, i: int) -> Selection
    decreases hs.len() - i,
{
    if i >= hs.len() {
        Selection::NoMatch
    } else if !pattern_valid(hs[i].pattern) {
        Selection::BadPattern(i)
    } else if regex_matches(hs[i].pattern, url) {
        Selection::Matched(i)
    } else {
        selection_from(hs, url, i + 1)
    }
}

/// The decision for the whole handler list, in declaration order.
pub open spec fn selection(hs: Seq<HandlerView>, url: Seq<char>) -> Selection {
    selection_from(hs, url, 0)
}

/// A handler the walk passes over: its pattern is valid and does not match
/// the URL.
pub open spec fn passed_over(h: HandlerView, url: Seq<char>) -> bool {
    pattern_valid(h.pattern) && !regex_matches(h.pattern, url)
}

/// Walks the handlers in declaration order and returns the index of the first
/// whose pattern matches `url`, `None` when every pattern is valid and none
/// matches, and `PatternError` as soon as an invalid pattern is reached.
pub fn select_handler(config: &Config, url: &String) -> (r: Result<Option<usize>, DispatchError>)
    ensures
        ({
            match selection(config@, url@) {
                Selection::Matched(i) => r == Ok::<Option<usize>, DispatchError>(Some(i as usize)),
                Selection::NoMatch => r == Ok::<Option<usize>, DispatchError>(None),
                Selection::BadPattern(i) => r matches Err(e)
                    && e matches DispatchError::Pattern { pattern }
                    && pattern@ == config@[i].pattern,
            }
        }),
{
    let n = config.handlers.len();
    let mut k: usize = 0;
    while k < n
        invariant
            n == config.handlers.len(),
            k <= n,
            config@.len() == n,
            selection(config@, url@) == selection_from(config@, url@, k as int),
        decreases n - k,
    {
        let h = &config.handlers[k];
        assert(h@ == config@[k as int]);
        match regex_is_match(h.pattern.as_str(), url.as_str()) {
            Err(_) => {
                assert(selection_from(config@, url@, k as int) == Selection::BadPattern(k as int));
                return Err(DispatchError::Pattern { pattern: h.pattern.clone() });
            },
            Ok(true) => {
                assert(selection_from(config@, url@, k as int) == Selection::Matched(k as int));
                return Ok(Some(k));
            },
            Ok(false) => {
                assert(selection_from(config@, url@, k as int) == selection_from(
                    config@,
                    url@,
                    k as int + 1,
                ));
                k = k + 1;
            },
        }
    }
    Ok(None)
}

/// The reserved name of the fallback script.
pub open spec fn default_script_name() -> Seq<char> {
    "_default"@
}

/// What the dispatcher asks the surrounding program to run: a script by
/// name, with the URL and the pattern that matched as its two positional
/// arguments.
pub struct RunRequest {
    pub script: String,
    pub url: String,
    pub pattern: String,
}

/// How one attempt to run a script ended: the process ran and exited
/// (successfully or not), or the operating system refused to start it.
#[derive(Debug, PartialEq, Eq, Structural, Clone, Copy)]
pub enum RunOutcome {
    Exited { success: bool },
    SpawnFailed,
}

/// What dispatch does once the matched handler has run: stop with success,
/// or fall back to the default handler.
#[derive(Debug, PartialEq, Eq, Structural, Clone, Copy)]
pub enum Followup {
    Done,
    RunDefault,
}

/// Resolves a script name that dispatch requires, turning absence into the
/// error that names the missing script. Whether resolution succeeds depends
/// on the file system, so only the shape of each outcome is stated.
pub fn resolve_script(script: &String) -> (r: Result<std::path::PathBuf, DispatchError>)
    ensures
        r matches Err(e) ==> e matches DispatchError::ScriptNotFound { script: missing }
            && missing@ == script@,
{
    match Config::get_script_path(script) {
        Some(path) => Ok(path),
        None => Err(DispatchError::ScriptNotFound { script: script.clone() }),
    }
}

/// The run the matched handler at index `i` is owed: its own script, the URL,
/// and the pattern that matched.
pub fn matched_run_request(config: &Config, i: usize, url: &String) -> (r: RunRequest)
    requires
        i < config@.len(),
    ensures
        r.script@ == config@[i as int].script,
        r.url@ == url@,
        r.pattern@ == config@[i as int].pattern,
{
    assert(config@.len() == config.handlers@.len());
    let h = &config.handlers[i];
    RunRequest { script: h.script.clone(), url: url.clone(), pattern: h.pattern.clone() }
}

/// The run the default handler gets when it is invoked directly, because no
/// pattern matched: the reserved script name, the URL, and an empty string in
/// place of a matched pattern.
pub fn default_run_request(url: &String) -> (r: RunRequest)
    ensures
        r.script@ == default_script_name(),
        r.url@ == url@,
        r.pattern@ == Seq::<char>::empty(),
{
    RunRequest {
        script: String::from_str("_default"),
        url: url.clone(),
        pattern: String::new(),
    }
}

/// The run the default handler gets as the fallback after a failed matched
/// handler: the reserved script name, with the same URL and the same matched
/// pattern that the failed handler was given.
pub fn fallback_run_request(matched: &RunRequest) -> (r: RunRequest)
    ensures
        r.script@ == default_script_name(),
        r.url@ == matched.url@,
        r.pattern@ == matched.pattern@,
{
    RunRequest {
        script: String::from_str("_default"),
        url: matched.url.clone(),
        pattern: matched.pattern.clone(),
    }
}

/// Decides what follows the matched handler's run: a successful exit ends
/// dispatch, a nonzero exit falls back to the default handler (not to the
/// next pattern), and a spawn failure is fatal.
pub fn after_matched_run(request: &RunRequest, outcome: &RunOutcome) -> (r: Result<
    Followup,
    DispatchError,
>)
    ensures
        outcome matches RunOutcome::Exited { success } ==> r == (if *success {
            Ok::<Followup, DispatchError>(Followup::Done)
        } else {
            Ok::<Followup, DispatchError>(Followup::RunDefault)
        }),
        outcome is SpawnFailed ==> (r matches Err(e)
            && e matches DispatchError::SpawnFailed { script }
            && script@ == request.script@),
{
    match outcome {
        RunOutcome::Exited { success } => if *success {
            Ok(Followup::Done)
        } else {
            Ok(Followup::RunDefault)
        },
        RunOutcome::SpawnFailed => Err(
            DispatchError::SpawnFailed { script: request.script.clone() },
        ),
    }
}

/// Decides what the default handler's run means for the whole dispatch: it is
/// the last resort, so a nonzero exit or a spawn failure is final.
pub fn default_run_result(outcome: &RunOutcome) -> (r: Result<(), DispatchError>)
    ensures
        r is Ok <==> outcome == (RunOutcome::Exited { success: true }),
        outcome == (RunOutcome::Exited { success: false }) ==> r == Err::<(), DispatchError>(
            DispatchError::DefaultFailed,
        ),
        outcome is SpawnFailed ==> (r matches Err(e)
            && e matches DispatchError::SpawnFailed { script }
            && script@ == default_script_name()),
{
    match outcome {
        RunOutcome::Exited { success } => if *success {
            Ok(())
        } else {
            Err(DispatchError::DefaultFailed)
        },
        RunOutcome::SpawnFailed => Err(
            DispatchError::SpawnFailed { script: String::from_str("_default") },
        ),
    }
}

impl DispatchError {
    /// A human-readable description of the failure; it names the script for
    /// the variants where one is involved.
    pub fn message(&self) -> (m: String)
        ensures
            self matches DispatchError::Pattern { pattern } ==> m@ == "invalid handler pattern "@
                + pattern@,
            self matches DispatchError::ScriptNotFound { script } ==> m@
                == "Script not found for "@ + script@,
            self matches DispatchError::SpawnFailed { script } ==> m@
                == "Failed to spawn script "@ + script@,
            self is DefaultFailed ==> m@ == "Default handler returned non-zero exit code"@,
    {
        match self {
            DispatchError::Pattern { pattern } => String::from_str(
                "invalid handler pattern ",
            ).concat(pattern.as_str()),
            DispatchError::ScriptNotFound { script } => String::from_str(
                "Script not found for ",
            ).concat(script.as_str()),
            DispatchError::SpawnFailed { script } => String::from_str(
                "Failed to spawn script ",
            ).concat(script.as_str()),
            DispatchError::DefaultFailed => String::from_str(
                "Default handler returned non-zero exit code",
            ),
        }
    }
}

// A whole dispatch, as one mathematical function of the configuration, the
// URL, and how the outside world answers: whether the chosen script resolves
// to a file, and how each spawned process ends. The exec functions above are
// its steps; the lemmas below state what the composition does.

/// One script invocation as dispatch hands it out: which script runs, with
/// which two arguments.
pub struct SpecRun {
    pub script: Seq<char>,
    pub url: Seq<char>,
    pub pattern: Seq<char>,
}

/// The final outcome of a whole dispatch.
pub enum SpecOutcome {
    Success,
    BadPattern { pattern: Seq<char> },
    ScriptMissing { script: Seq<char> },
    SpawnError { script: Seq<char> },
    DefaultFailed,
}

/// The invocation a matched handler gets.
pub open spec fn handler_run(h: HandlerView, url: Seq<char>) -> SpecRun {
    SpecRun { script: h.script, url: url, pattern: h.pattern }
}

/// The invocation the default handler gets: its reserved name, the URL, and
/// as second argument the pattern of the failed matched handler, or the
/// empty string when no pattern matched and it is invoked directly.
pub open spec fn default_run(url: Seq<char>, pattern: Seq<char>) -> SpecRun {
    SpecRun { script: default_script_name(), url: url, pattern: pattern }
}

/// The invocations of the default handler's leg: it runs once if its script
/// resolves, and not at all otherwise, with `pattern` as second argument.
pub open spec fn default_leg_runs(url: Seq<char>, pattern: Seq<char>, default_found: bool) -> Seq<
    SpecRun,
> {
    if default_found {
        seq![default_run(url, pattern)]
    } else {
        Seq::empty()
    }
}

/// What the fallback leg decides: missing script, spawn failure, the default
/// handler's own failure, or success.
pub open spec fn default_leg_outcome(default_found: bool, default_outcome: RunOutcome) -> SpecOutcome {
    if !default_found {
        SpecOutcome::ScriptMissing { script: default_script_name() }
    } else {
        match default_outcome {
            RunOutcome::Exited { success } => if success {
                SpecOutcome::Success
            } else {
                SpecOutcome::DefaultFailed
            },
            RunOutcome::SpawnFailed => SpecOutcome::SpawnError { script: default_script_name() },
        }
    }
}

/// Every invocation a dispatch performs, in order. `matched_found` and
/// `matched_outcome` describe the world's answers for the matched handler's
/// script, `default_found` and `default_outcome` those for the default
/// script; an answer is consulted only where dispatch reaches it.
pub open spec fn dispatch_runs(
    hs: Seq<HandlerView>,
    url: Seq<char>,
    matched_found: bool,
    matched_outcome: RunOutcome,
    default_found: bool,
    default_outcome: RunOutcome,
) -> Seq<SpecRun> {
    match selection(hs, url) {
        Selection::BadPattern(_) => Seq::empty(),
        Selection::NoMatch => default_leg_runs(url, Seq::empty(), default_found),
        Selection::Matched(i) => if !matched_found {
            Seq::empty()
        } else {
            seq![handler_run(hs[i], url)] + (match matched_outcome {
                RunOutcome::Exited { success } => if success {
                    Seq::<SpecRun>::empty()
                } else {
                    default_leg_runs(url, hs[i].pattern, default_found)
                },
                RunOutcome::SpawnFailed => Seq::<SpecRun>::empty(),
            })
        },
    }
}

/// The final outcome of a dispatch, under the same answers.
pub open spec fn dispatch_outcome(
    hs: Seq<HandlerView>,
    url: Seq<char>,
    matched_found: bool,
    matched_outcome: RunOutcome,
    default_found: bool,
    default_outcome: RunOutcome,
) -> SpecOutcome {
    match selection(hs, url) {
        Selection::BadPattern(i) => SpecOutcome::BadPattern { pattern: hs[i].pattern },
        Selection::NoMatch => default_leg_outcome(default_found, default_outcome),
        Selection::Matched(i) => if !matched_found {
            SpecOutcome::ScriptMissing { script: hs[i].script }
        } else {
            match matched_outcome {
                RunOutcome::Exited { success } => if success {
                    SpecOutcome::Success
                } else {
                    default_leg_outcome(default_found, default_outcome)
                },
                RunOutcome::SpawnFailed => SpecOutcome::SpawnError { script: hs[i].script },
            }
        },
    }
}

} // verus!
