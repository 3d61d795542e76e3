//! A Japanese lexical lookup engine: it normalizes captured text, segments
//! it into candidate word spans despite the absence of whitespace word
//! boundaries, resolves each span through a dictionary store, reverses verb
//! and adjective inflections back to their dictionary forms when a span is
//! conjugated, and enriches results with frequency, pitch-accent and
//! proficiency metadata.
//!
//! Every operation is a synchronous, pure computation over immutable
//! in-memory structures: construction (loading, merging) produces a new
//! store and never mutates a published one.  Each public function carries a
//! contract that pins its result to a specification function over the
//! mathematical models of the types involved.

pub mod cards;
pub mod config;
pub mod deconjugator;
pub mod dictionary;
pub mod frequency;
pub mod jlpt;
pub mod loader;
pub mod normalize;
pub mod pitch_accent;
pub mod preprocess;
pub mod processor;
pub mod strutil;
pub mod translator;
pub mod tsv;
pub mod types;
