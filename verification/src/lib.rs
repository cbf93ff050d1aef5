//! Verified core of a two-pass video encoding pipeline.
//!
//! The library models everything the pipeline decides or computes:
//! encode-parameter derivation from semantic quality tiers, parsing of the
//! loudness-measurement diagnostic text, construction of filter chains and
//! encoder argument lists, and the stage ordering of the pipeline itself.
//! Running the external encoder is left to the embedding program; the
//! library hands it fully-built argument lists and consumes the diagnostic
//! text it captured.

pub mod filters;
pub mod loudnorm;
pub mod params;
pub mod pipeline;
pub mod strutil;
pub mod types;
