//! A diagnostic probe for an embedded SQL storage engine: it drives a fixed
//! sequence of operations that unlinks the primary database file while a
//! connection stays open, and it classifies the engine's trace diagnostics.
//!
//! The crate holds the decision logic: which diagnostic code maps to which
//! severity, what each printed line says, in what order the probe's phases
//! run, which failures abort the run and which are recorded as observations.
//! The surrounding binary performs the filesystem and engine calls and feeds
//! their outcomes back as events.

pub mod classifier;
pub mod guard;
pub mod sequencer;
pub mod text;
