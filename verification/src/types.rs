//! The vocabulary of the selection layer: which mechanism ran, what it
//! produced, which errors a caller can see, and what the selector asks the
//! caller to do next.

use vstd::prelude::*;

verus! {

/// The remembered choice of which extraction mechanism to try first for a
/// given application.
#[derive(Clone, Copy, Debug, PartialEq, Eq, Structural)]
pub enum Strategy {
    /// The accessibility-tree query succeeded last for this application.
    AccessibilityFirst,
    /// The clipboard simulation succeeded last for this application.
    ClipboardFirst,
}

/// One of the two ways of reading the current selection.
#[derive(Clone, Copy, Debug, PartialEq, Eq, Structural)]
pub enum Mechanism {
    /// Query the focused element's selected-text attribute in the
    /// accessibility tree.
    Accessibility,
    /// Save the clipboard, inject a copy keystroke, read the clipboard back.
    Clipboard,
}

/// The failures a caller of the selection layer can observe.
#[derive(Clone, Copy, Debug, PartialEq, Eq, Structural)]
pub enum ExtractionError {
    /// The active application could not be resolved; nothing was attempted.
    NoActiveWindow,
    /// An extractor ran but found no focused or selectable element.
    NoSelection,
    /// A mechanism-level failure: accessibility access denied, keystroke
    /// injection failed, or the clipboard could not be read.
    ExtractorUnavailable,
}

/// What one run of an extractor produced: a complete text value (possibly
/// empty) or a failure. No partial text is ever reported.
#[derive(Debug, PartialEq, Eq)]
pub enum AttemptOutcome {
    /// The extractor ran to completion and yielded this text.
    Extracted(String),
    /// The extractor failed for this reason.
    Failed(ExtractionError),
}

/// One extraction attempt the selector asks the caller to run.
#[derive(Clone, Copy, Debug, PartialEq, Eq, Structural)]
pub struct Attempt {
    /// The mechanism to run.
    pub mechanism: Mechanism,
    /// Whether a cached strategy pinned this mechanism. A pinned attempt is
    /// final: its outcome goes back to the caller with no fallback. An
    /// unpinned (cold-cache) attempt may fall back to the other mechanism.
    pub pinned: bool,
}

/// The selector's answer to "which application is focused, and what does the
/// cache say about it".
#[derive(Clone, Copy, Debug, PartialEq, Eq, Structural)]
pub enum Plan {
    /// No extraction is to be attempted; return this error.
    Abort(ExtractionError),
    /// Run this attempt and report its outcome back.
    Attempt(Attempt),
}

/// What the selector decides after the first attempt's outcome is in.
#[derive(Debug, PartialEq, Eq)]
pub enum Step {
    /// The call is over with this result.
    Done(Result<String, ExtractionError>),
    /// Run the other mechanism and report its outcome back.
    Fallback(Mechanism),
}

/// The mechanism a remembered strategy tries.
pub open spec fn mechanism_of(s: Strategy) -> Mechanism {
    match s {
        Strategy::AccessibilityFirst => Mechanism::Accessibility,
        Strategy::ClipboardFirst => Mechanism::Clipboard,
    }
}

/// The strategy that records "this mechanism worked".
pub open spec fn strategy_of_mechanism(m: Mechanism) -> Strategy {
    match m {
        Mechanism::Accessibility => Strategy::AccessibilityFirst,
        Mechanism::Clipboard => Strategy::ClipboardFirst,
    }
}

/// The alternate mechanism, tried when a cold-cache first attempt fails.
pub open spec fn other_mechanism(m: Mechanism) -> Mechanism {
    match m {
        Mechanism::Accessibility => Mechanism::Clipboard,
        Mechanism::Clipboard => Mechanism::Accessibility,
    }
}

/// The plan that follows from what the cache remembers: a remembered
/// strategy pins its own mechanism; an unknown application starts cold with
/// the accessibility query.
pub open spec fn plan_of(cached: Option<Strategy>) -> Plan {
    match cached {
        Some(s) => Plan::Attempt(Attempt { mechanism: mechanism_of(s), pinned: true }),
        None => Plan::Attempt(Attempt { mechanism: Mechanism::Accessibility, pinned: false }),
    }
}

impl ExtractionError {
    /// A short human-readable description of the failure.
    pub fn describe(&self) -> (r: String)
        ensures
            self is NoActiveWindow ==> r@ == "No active window found"@,
            self is NoSelection ==> r@ == "No selected text"@,
            self is ExtractorUnavailable ==> r@ == "Extractor unavailable"@,
    {
        match self {
            ExtractionError::NoActiveWindow => "No active window found".to_owned(),
            ExtractionError::NoSelection => "No selected text".to_owned(),
            ExtractionError::ExtractorUnavailable => "Extractor unavailable".to_owned(),
        }
    }
}

} // verus!
