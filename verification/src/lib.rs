//! Adaptive selection of a text-extraction mechanism.
//!
//! Reading the text a user has selected in the focused application can be
//! done two ways: a direct accessibility-tree query (fast, no side effects,
//! unsupported by many applications) or a clipboard simulation (broadly
//! compatible, but it overwrites the clipboard and injects a keystroke).
//! This crate holds the adaptive layer that decides, per application, which
//! mechanism to try first, remembers the decision in a bounded
//! least-recently-used cache, and degrades gracefully when the chosen
//! mechanism fails. The extractors themselves are outside collaborators: a
//! caller runs them and reports each outcome back through the selector.

pub mod cache;
pub mod lru_store;
pub mod selector;
pub mod types;

pub use cache::StrategyCache;
pub use cache::CACHE_CAPACITY;
pub use selector::conclude_fallback;
pub use selector::conclude_first;
pub use selector::plan_extraction;
pub use types::Attempt;
pub use types::AttemptOutcome;
pub use types::ExtractionError;
pub use types::Mechanism;
pub use types::Plan;
pub use types::Step;
pub use types::Strategy;
