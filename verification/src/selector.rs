//! The selector: given what the active-context resolver and the extractors
//! report, decide what to run next and what to remember.
//!
//! A full call runs as a short dialogue with the caller, who alone touches
//! the operating system: `plan_extraction` turns the resolved application
//! and the cache's memory into the first attempt (or an immediate error);
//! `conclude_first` turns that attempt's outcome into a final result or a
//! fallback request; `conclude_fallback` settles a cold-cache fallback. A
//! mechanism is memoized exactly when it produced non-empty text.

use vstd::prelude::*;

use crate::cache::lemma_record_then_lookup;
use crate::cache::lemma_refresh_preserves_strategies;
use crate::cache::recorded;
use crate::cache::refreshed;
use crate::cache::strategy_for;
use crate::cache::unique_keys;
use crate::cache::StrategyCache;
use crate::types::plan_of;
use crate::types::other_mechanism;
use crate::types::strategy_of_mechanism;
use crate::types::Attempt;
use crate::types::AttemptOutcome;
use crate::types::ExtractionError;
use crate::types::Mechanism;
use crate::types::Plan;
use crate::types::Step;
use crate::types::Strategy;

verus! {

/// The first move of a call: with no resolved application the call aborts
/// with `NoActiveWindow` and nothing is attempted; otherwise the cache is
/// consulted (refreshing the entry's recency) and the plan follows from what
/// it remembers.
pub fn plan_extraction(cache: &mut StrategyCache, active_app: Option<&String>) -> (p: Plan)
    requires
        old(cache).wf(),
    ensures
        final(cache).wf(),
        match active_app {
            None => p == Plan::Abort(ExtractionError::NoActiveWindow) && final(cache)@ == old(cache)@,
            Some(app) => p == plan_of(strategy_for(old(cache)@, app@)) && final(cache)@
                == refreshed(old(cache)@, app@),
        },
{
    match active_app {
        None => Plan::Abort(ExtractionError::NoActiveWindow),
        Some(app) => match cache.lookup(app) {
            Some(Strategy::AccessibilityFirst) => Plan::Attempt(
                Attempt { mechanism: Mechanism::Accessibility, pinned: true },
            ),
            Some(Strategy::ClipboardFirst) => Plan::Attempt(
                Attempt { mechanism: Mechanism::Clipboard, pinned: true },
            ),
            None => Plan::Attempt(Attempt { mechanism: Mechanism::Accessibility, pinned: false }),
        },
    }
}

/// Settles the first attempt. A pinned attempt is final either way, and the
/// cache keeps only its recency change from the plan. A cold attempt is
/// memoized and final when it produced non-empty text; on failure or empty
/// text it hands the alternate mechanism back for a fallback run, with
/// nothing memoized.
pub fn conclude_first(
    cache: &mut StrategyCache,
    app_id: String,
    attempt: Attempt,
    outcome: AttemptOutcome,
) -> (step: Step)
    requires
        old(cache).wf(),
    ensures
        final(cache).wf(),
        match outcome {
            AttemptOutcome::Extracted(text) => {
                if attempt.pinned {
                    step == Step::Done(Ok::<String, ExtractionError>(text)) && final(cache)@ == old(cache)@
                } else if text@.len() > 0 {
                    step == Step::Done(Ok::<String, ExtractionError>(text)) && final(cache)@
                        == recorded(old(cache)@, app_id@, strategy_of_mechanism(attempt.mechanism))
                } else {
                    step == Step::Fallback(other_mechanism(attempt.mechanism)) && final(cache)@
                        == old(cache)@
                }
            },
            AttemptOutcome::Failed(err) => {
                if attempt.pinned {
                    step == Step::Done(Err::<String, ExtractionError>(err)) && final(cache)@ == old(cache)@
                } else {
                    step == Step::Fallback(other_mechanism(attempt.mechanism)) && final(cache)@
                        == old(cache)@
                }
            },
        },
{
    match outcome {
        AttemptOutcome::Extracted(text) => {
            if attempt.pinned {
                Step::Done(Ok(text))
            } else if !text.as_str().is_empty() {
                let strategy = match attempt.mechanism {
                    Mechanism::Accessibility => Strategy::AccessibilityFirst,
                    Mechanism::Clipboard => Strategy::ClipboardFirst,
                };
                cache.record(app_id, strategy);
                Step::Done(Ok(text))
            } else {
                Step::Fallback(
                    match attempt.mechanism {
                        Mechanism::Accessibility => Mechanism::Clipboard,
                        Mechanism::Clipboard => Mechanism::Accessibility,
                    },
                )
            }
        },
        AttemptOutcome::Failed(err) => {
            if attempt.pinned {
                Step::Done(Err(err))
            } else {
                Step::Fallback(
                    match attempt.mechanism {
                        Mechanism::Accessibility => Mechanism::Clipboard,
                        Mechanism::Clipboard => Mechanism::Accessibility,
                    },
                )
            }
        },
    }
}

/// Settles a cold-cache fallback run. Non-empty text memoizes the fallback
/// mechanism and is returned; empty text is returned as-is and a failure is
/// propagated, neither leaving a trace in the cache.
pub fn conclude_fallback(
    cache: &mut StrategyCache,
    app_id: String,
    fallback: Mechanism,
    outcome: AttemptOutcome,
) -> (r: Result<String, ExtractionError>)
    requires
        old(cache).wf(),
    ensures
        final(cache).wf(),
        match outcome {
            AttemptOutcome::Extracted(text) => {
                if text@.len() > 0 {
                    r == Ok::<String, ExtractionError>(text) && final(cache)@ == recorded(
                        old(cache)@,
                        app_id@,
                        strategy_of_mechanism(fallback),
                    )
                } else {
                    r == Ok::<String, ExtractionError>(text) && final(cache)@ == old(cache)@
                }
            },
            AttemptOutcome::Failed(err) => r == Err::<String, ExtractionError>(err) && final(cache)@ == old(cache)@,
        },
{
    match outcome {
        AttemptOutcome::Extracted(text) => {
            if !text.as_str().is_empty() {
                let strategy = match fallback {
                    Mechanism::Accessibility => Strategy::AccessibilityFirst,
                    Mechanism::Clipboard => Strategy::ClipboardFirst,
                };
                cache.record(app_id, strategy);
            }
            Ok(text)
        },
        AttemptOutcome::Failed(err) => Err(err),
    }
}

/// Cache pinning: once a mechanism's success is recorded for an application,
/// every later plan for that application — however many lookups of any
/// applications refresh recency in between — attempts exactly that
/// mechanism, pinned, so no fallback can run and the other mechanism is
/// never invoked for it.
pub proof fn lemma_recorded_strategy_pins_plan(
    entries: Seq<(Seq<char>, u8)>,
    k: Seq<char>,
    s: Strategy,
    later_lookup: Seq<char>,
)
    requires
        unique_keys(entries),
    ensures
        plan_of(strategy_for(recorded(entries, k, s), k)) == plan_of(Some(s)),
        plan_of(strategy_for(refreshed(recorded(entries, k, s), later_lookup), k)) == plan_of(
            Some(s),
        ),
        plan_of(Some(s)) is Attempt && plan_of(Some(s))->Attempt_0.pinned,
{
    lemma_record_then_lookup(entries, k, s);
    lemma_refresh_preserves_strategies(recorded(entries, k, s), later_lookup);
}

} // verus!
