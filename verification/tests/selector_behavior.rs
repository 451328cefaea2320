//! The selector's fallback policy: cold-start fallback, cache pinning,
//! empty-text handling, and the immediate abort when no window is focused.

use get_selected_text::conclude_fallback;
use get_selected_text::conclude_first;
use get_selected_text::plan_extraction;
use get_selected_text::Attempt;
use get_selected_text::AttemptOutcome;
use get_selected_text::ExtractionError;
use get_selected_text::Mechanism;
use get_selected_text::Plan;
use get_selected_text::Step;
use get_selected_text::Strategy;
use get_selected_text::StrategyCache;

#[test]
fn cold_start_falls_back_and_memoizes_the_winner() {
    let mut cache = StrategyCache::new();
    let app_id = "TextView".to_string();

    let plan = plan_extraction(&mut cache, Some(&app_id));
    let attempt = Attempt { mechanism: Mechanism::Accessibility, pinned: false };
    assert_eq!(plan, Plan::Attempt(attempt));

    // The accessibility extractor fails; the selector asks for the clipboard.
    let step = conclude_first(
        &mut cache,
        app_id.clone(),
        attempt,
        AttemptOutcome::Failed(ExtractionError::ExtractorUnavailable),
    );
    assert_eq!(step, Step::Fallback(Mechanism::Clipboard));
    assert_eq!(cache.len(), 0);

    // The clipboard extractor returns "hello": returned and memoized.
    let result = conclude_fallback(
        &mut cache,
        app_id.clone(),
        Mechanism::Clipboard,
        AttemptOutcome::Extracted("hello".to_string()),
    );
    assert_eq!(result, Ok("hello".to_string()));

    // A subsequent call uses the clipboard extractor exclusively.
    let plan2 = plan_extraction(&mut cache, Some(&app_id));
    assert_eq!(
        plan2,
        Plan::Attempt(Attempt { mechanism: Mechanism::Clipboard, pinned: true })
    );
}

#[test]
fn pinned_strategy_surfaces_failure_without_fallback() {
    let mut cache = StrategyCache::new();
    let app_id = "Editor".to_string();
    cache.record(app_id.clone(), Strategy::AccessibilityFirst);

    let plan = plan_extraction(&mut cache, Some(&app_id));
    let attempt = Attempt { mechanism: Mechanism::Accessibility, pinned: true };
    assert_eq!(plan, Plan::Attempt(attempt));

    // The pinned accessibility extractor fails: the failure comes back
    // directly, no fallback is requested, the pin stays.
    let step = conclude_first(
        &mut cache,
        app_id.clone(),
        attempt,
        AttemptOutcome::Failed(ExtractionError::ExtractorUnavailable),
    );
    assert_eq!(
        step,
        Step::Done(Err(ExtractionError::ExtractorUnavailable))
    );
    assert_eq!(
        cache.lookup(&app_id),
        Some(Strategy::AccessibilityFirst)
    );
}

#[test]
fn pinned_strategy_returns_text_directly() {
    let mut cache = StrategyCache::new();
    let app_id = "Notes".to_string();
    cache.record(app_id.clone(), Strategy::ClipboardFirst);

    let plan = plan_extraction(&mut cache, Some(&app_id));
    let attempt = Attempt { mechanism: Mechanism::Clipboard, pinned: true };
    assert_eq!(plan, Plan::Attempt(attempt));

    let step = conclude_first(
        &mut cache,
        app_id.clone(),
        attempt,
        AttemptOutcome::Extracted("quoted".to_string()),
    );
    assert_eq!(step, Step::Done(Ok("quoted".to_string())));
}

#[test]
fn pinned_strategy_returns_empty_text_as_is() {
    let mut cache = StrategyCache::new();
    let app_id = "Notes".to_string();
    cache.record(app_id.clone(), Strategy::AccessibilityFirst);

    let step = conclude_first(
        &mut cache,
        app_id.clone(),
        Attempt { mechanism: Mechanism::Accessibility, pinned: true },
        AttemptOutcome::Extracted(String::new()),
    );
    assert_eq!(step, Step::Done(Ok(String::new())));
}

#[test]
fn empty_text_on_cold_cache_is_not_memoized() {
    let mut cache = StrategyCache::new();
    let app_id = "Terminal".to_string();

    let plan = plan_extraction(&mut cache, Some(&app_id));
    let attempt = Attempt { mechanism: Mechanism::Accessibility, pinned: false };
    assert_eq!(plan, Plan::Attempt(attempt));

    // Empty accessibility text on a cold cache falls through to the
    // clipboard mechanism.
    let step = conclude_first(
        &mut cache,
        app_id.clone(),
        attempt,
        AttemptOutcome::Extracted(String::new()),
    );
    assert_eq!(step, Step::Fallback(Mechanism::Clipboard));

    // Empty clipboard text is returned as-is and nothing is memoized.
    let result = conclude_fallback(
        &mut cache,
        app_id.clone(),
        Mechanism::Clipboard,
        AttemptOutcome::Extracted(String::new()),
    );
    assert_eq!(result, Ok(String::new()));
    assert_eq!(cache.len(), 0);

    // The next call repeats the cold-start path.
    let plan2 = plan_extraction(&mut cache, Some(&app_id));
    assert_eq!(
        plan2,
        Plan::Attempt(Attempt { mechanism: Mechanism::Accessibility, pinned: false })
    );
}

#[test]
fn cold_cache_fallback_failure_propagates_unmemoized() {
    let mut cache = StrategyCache::new();
    let app_id = "Viewer".to_string();

    let step = conclude_first(
        &mut cache,
        app_id.clone(),
        Attempt { mechanism: Mechanism::Accessibility, pinned: false },
        AttemptOutcome::Failed(ExtractionError::NoSelection),
    );
    assert_eq!(step, Step::Fallback(Mechanism::Clipboard));

    let result = conclude_fallback(
        &mut cache,
        app_id.clone(),
        Mechanism::Clipboard,
        AttemptOutcome::Failed(ExtractionError::ExtractorUnavailable),
    );
    assert_eq!(result, Err(ExtractionError::ExtractorUnavailable));
    assert_eq!(cache.len(), 0);
}

#[test]
fn cold_cache_first_success_memoizes_accessibility() {
    let mut cache = StrategyCache::new();
    let app_id = "Mail".to_string();

    let step = conclude_first(
        &mut cache,
        app_id.clone(),
        Attempt { mechanism: Mechanism::Accessibility, pinned: false },
        AttemptOutcome::Extracted("dear".to_string()),
    );
    assert_eq!(step, Step::Done(Ok("dear".to_string())));
    assert_eq!(
        cache.lookup(&app_id),
        Some(Strategy::AccessibilityFirst)
    );
}

#[test]
fn no_active_window_aborts_without_any_attempt() {
    let mut cache = StrategyCache::new();
    let plan = plan_extraction(&mut cache, None);
    assert_eq!(plan, Plan::Abort(ExtractionError::NoActiveWindow));
    assert_eq!(cache.len(), 0);
}

#[test]
fn error_descriptions() {
    assert_eq!(
        ExtractionError::NoActiveWindow.describe(),
        "No active window found".to_string()
    );
    assert_eq!(
        ExtractionError::NoSelection.describe(),
        "No selected text".to_string()
    );
    assert_eq!(
        ExtractionError::ExtractorUnavailable.describe(),
        "Extractor unavailable".to_string()
    );
}
