//! The bootstrap and execution sequence: the internal bootstrap module is
//! loaded and begins evaluating strictly before the user's main module, the
//! task queue is drained, and both evaluation outcomes are observed,
//! bootstrap first. The decisions live here as a transition function over
//! explicit phases and events; the embedder owns the engine, performs each
//! phase's work and reports the event back.

use vstd::prelude::*;
use crate::strutil::str_concat;
use crate::trusted::file_url_of;
use crate::trusted::path_to_file_url;

verus! {

/// The fixed specifier of the internal bootstrap module.
pub open spec fn bootstrap_specifier_spec() -> Seq<char> {
    "ejsr:runtime/index.js"@
}

pub fn bootstrap_specifier() -> (r: &'static str)
    ensures
        r@ == bootstrap_specifier_spec(),
{
    "ejsr:runtime/index.js"
}

/// Resolves the user-supplied path, taken relative to the directory `cwd`,
/// into the main module's `file:` specifier.
pub fn resolve_main_module(path: &str, cwd: &str) -> (r: Result<String, String>)
    ensures
        (r is Ok) == (file_url_of(path@, cwd@) is Some),
        (r matches Ok(u) ==> u@ == file_url_of(path@, cwd@)->Some_0),
        (r matches Err(m) ==> m@ == "invalid module path: "@ + path@),
{
    match path_to_file_url(path, cwd) {
        Some(u) => Ok(u),
        None => Err(str_concat("invalid module path: ", path)),
    }
}

/// Terminal outcome of evaluating one top-level module.
#[derive(Debug, PartialEq, Eq, Clone)]
pub enum EvalOutcome {
    Completed,
    /// Evaluation failed; carries the failure's message.
    Failed(String),
}

/// Terminal outcome of one whole run.
#[derive(Debug, PartialEq, Eq, Clone)]
pub enum RunOutcome {
    Success,
    /// The run failed; carries the first failure observed.
    Failed(String),
}

/// Where the sequencer stands. The phases are linear; nothing branches
/// back.
#[derive(Debug, PartialEq, Eq, Clone)]
pub enum RunPhase {
    /// Loading the internal bootstrap module as a side module.
    LoadBootstrap,
    /// Loading the user's main module.
    LoadMain,
    /// Draining the cooperative task queue until no script-visible work
    /// remains.
    Drain,
    /// Awaiting the bootstrap module's evaluation outcome; an earlier
    /// drain failure, if any, is kept to be surfaced first.
    CollectBootstrap { earlier: Option<String> },
    /// Awaiting the main module's evaluation outcome; an earlier bootstrap
    /// failure, if any, is kept to be surfaced first.
    CollectMain { earlier: Option<String> },
    /// The run is over.
    Done { outcome: RunOutcome },
}

/// One event the embedder reports back to the sequencer.
#[derive(Debug, PartialEq, Eq, Clone)]
pub enum RunEvent {
    /// The pending load succeeded and evaluation began.
    Loaded,
    /// The pending load failed; carries the loader's message.
    LoadFailed(String),
    /// The task queue drained with no script-visible work left.
    Drained,
    /// Draining failed; carries the engine's message.
    DrainFailed(String),
    /// The awaited module evaluation settled.
    Evaluated(EvalOutcome),
}

/// Which events belong to which phase.
pub open spec fn event_fits(phase: RunPhase, event: RunEvent) -> bool {
    match phase {
        RunPhase::LoadBootstrap => event is Loaded || event is LoadFailed,
        RunPhase::LoadMain => event is Loaded || event is LoadFailed,
        RunPhase::Drain => event is Drained || event is DrainFailed,
        RunPhase::CollectBootstrap { .. } => event is Evaluated,
        RunPhase::CollectMain { .. } => event is Evaluated,
        RunPhase::Done { .. } => false,
    }
}

/// Executable form of `event_fits`, for an embedder to test before calling
/// `advance`.
pub fn event_fits_check(phase: &RunPhase, event: &RunEvent) -> (b: bool)
    ensures
        b == event_fits(*phase, *event),
{
    match phase {
        RunPhase::LoadBootstrap => matches!(event, RunEvent::Loaded | RunEvent::LoadFailed(_)),
        RunPhase::LoadMain => matches!(event, RunEvent::Loaded | RunEvent::LoadFailed(_)),
        RunPhase::Drain => matches!(event, RunEvent::Drained | RunEvent::DrainFailed(_)),
        RunPhase::CollectBootstrap { .. } => matches!(event, RunEvent::Evaluated(_)),
        RunPhase::CollectMain { .. } => matches!(event, RunEvent::Evaluated(_)),
        RunPhase::Done { .. } => false,
    }
}

/// The transition table. A failure while loading ends the run at once:
/// nothing has begun evaluating yet. Once both modules are evaluating,
/// both outcomes are observed before the run ends, bootstrap first: a
/// drain failure or a failed bootstrap evaluation is kept aside, the
/// remaining outcomes are still awaited, and the first failure observed
/// is the one surfaced.
pub open spec fn advance_spec(phase: RunPhase, event: RunEvent) -> RunPhase {
    match (phase, event) {
        (RunPhase::LoadBootstrap, RunEvent::Loaded) => RunPhase::LoadMain,
        (RunPhase::LoadBootstrap, RunEvent::LoadFailed(m)) => RunPhase::Done {
            outcome: RunOutcome::Failed(m),
        },
        (RunPhase::LoadMain, RunEvent::Loaded) => RunPhase::Drain,
        (RunPhase::LoadMain, RunEvent::LoadFailed(m)) => RunPhase::Done {
            outcome: RunOutcome::Failed(m),
        },
        (RunPhase::Drain, RunEvent::Drained) => RunPhase::CollectBootstrap { earlier: None },
        (RunPhase::Drain, RunEvent::DrainFailed(m)) => RunPhase::CollectBootstrap {
            earlier: Some(m),
        },
        (
            RunPhase::CollectBootstrap { earlier: Some(m) },
            RunEvent::Evaluated(_),
        ) => RunPhase::CollectMain { earlier: Some(m) },
        (
            RunPhase::CollectBootstrap { earlier: None },
            RunEvent::Evaluated(EvalOutcome::Completed),
        ) => RunPhase::CollectMain { earlier: None },
        (
            RunPhase::CollectBootstrap { earlier: None },
            RunEvent::Evaluated(EvalOutcome::Failed(m)),
        ) => RunPhase::CollectMain { earlier: Some(m) },
        (RunPhase::CollectMain { earlier: Some(m) }, RunEvent::Evaluated(_)) => RunPhase::Done {
            outcome: RunOutcome::Failed(m),
        },
        (
            RunPhase::CollectMain { earlier: None },
            RunEvent::Evaluated(EvalOutcome::Completed),
        ) => RunPhase::Done { outcome: RunOutcome::Success },
        (RunPhase::CollectMain { earlier: None }, RunEvent::Evaluated(EvalOutcome::Failed(m))) => RunPhase::Done {
            outcome: RunOutcome::Failed(m),
        },
        _ => phase,
    }
}

/// Advances the run by one observed event.
pub fn advance(phase: RunPhase, event: RunEvent) -> (r: RunPhase)
    requires
        event_fits(phase, event),
    ensures
        r == advance_spec(phase, event),
{
    match (phase, event) {
        (RunPhase::LoadBootstrap, RunEvent::Loaded) => RunPhase::LoadMain,
        (RunPhase::LoadBootstrap, RunEvent::LoadFailed(m)) => RunPhase::Done {
            outcome: RunOutcome::Failed(m),
        },
        (RunPhase::LoadMain, RunEvent::Loaded) => RunPhase::Drain,
        (RunPhase::LoadMain, RunEvent::LoadFailed(m)) => RunPhase::Done {
            outcome: RunOutcome::Failed(m),
        },
        (RunPhase::Drain, RunEvent::Drained) => RunPhase::CollectBootstrap { earlier: None },
        (RunPhase::Drain, RunEvent::DrainFailed(m)) => RunPhase::CollectBootstrap {
            earlier: Some(m),
        },
        (
            RunPhase::CollectBootstrap { earlier: Some(m) },
            RunEvent::Evaluated(_),
        ) => RunPhase::CollectMain { earlier: Some(m) },
        (
            RunPhase::CollectBootstrap { earlier: None },
            RunEvent::Evaluated(EvalOutcome::Completed),
        ) => RunPhase::CollectMain { earlier: None },
        (
            RunPhase::CollectBootstrap { earlier: None },
            RunEvent::Evaluated(EvalOutcome::Failed(m)),
        ) => RunPhase::CollectMain { earlier: Some(m) },
        (RunPhase::CollectMain { earlier: Some(m) }, RunEvent::Evaluated(_)) => RunPhase::Done {
            outcome: RunOutcome::Failed(m),
        },
        (
            RunPhase::CollectMain { earlier: None },
            RunEvent::Evaluated(EvalOutcome::Completed),
        ) => RunPhase::Done { outcome: RunOutcome::Success },
        (RunPhase::CollectMain { earlier: None }, RunEvent::Evaluated(EvalOutcome::Failed(m))) => RunPhase::Done {
            outcome: RunOutcome::Failed(m),
        },
        (other, _) => other,
    }
}

/// Bootstrap-failure law: a failed bootstrap evaluation does not end the
/// run. The main module's outcome is still awaited, and only after it
/// settles is the run reported failed, with the bootstrap's message,
/// whatever the main module's outcome was.
pub proof fn lemma_bootstrap_failure_still_awaits_main(m: String, main: EvalOutcome)
    ensures
        advance_spec(
            RunPhase::CollectBootstrap { earlier: None },
            RunEvent::Evaluated(EvalOutcome::Failed(m)),
        ) == (RunPhase::CollectMain { earlier: Some(m) }),
        !(advance_spec(
            RunPhase::CollectBootstrap { earlier: None },
            RunEvent::Evaluated(EvalOutcome::Failed(m)),
        ) is Done),
        advance_spec(RunPhase::CollectMain { earlier: Some(m) }, RunEvent::Evaluated(main)) == (
        RunPhase::Done { outcome: RunOutcome::Failed(m) }),
{
}

/// Drain-failure law: a failed drain does not end the run either. Both
/// evaluation outcomes are still observed, bootstrap first, and only then
/// is the run reported failed, with the drain's message — the first
/// failure observed — whatever the two evaluations came to.
pub proof fn lemma_drain_failure_still_collects_both(
    m: String,
    bootstrap: EvalOutcome,
    main: EvalOutcome,
)
    ensures
        advance_spec(RunPhase::Drain, RunEvent::DrainFailed(m)) == (
        RunPhase::CollectBootstrap { earlier: Some(m) }),
        !(advance_spec(RunPhase::Drain, RunEvent::DrainFailed(m)) is Done),
        advance_spec(
            RunPhase::CollectBootstrap { earlier: Some(m) },
            RunEvent::Evaluated(bootstrap),
        ) == (RunPhase::CollectMain { earlier: Some(m) }),
        advance_spec(RunPhase::CollectMain { earlier: Some(m) }, RunEvent::Evaluated(main)) == (
        RunPhase::Done { outcome: RunOutcome::Failed(m) }),
{
}

/// The line the embedder prints on failure: the message after a literal
/// `error: ` prefix; nothing is printed on success.
pub fn failure_report(outcome: &RunOutcome) -> (r: Option<String>)
    ensures
        (outcome matches RunOutcome::Failed(m) ==> (r matches Some(line) && line@ == "error: "@
            + m@)),
        (outcome is Success ==> r is None),
{
    match outcome {
        RunOutcome::Success => None,
        RunOutcome::Failed(m) => Some(str_concat("error: ", m.as_str())),
    }
}

} // verus!
