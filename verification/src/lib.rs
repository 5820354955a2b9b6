//! Adapter surface for a CommonMark/GFM Markdown engine.
//!
//! The crate decodes host-supplied configuration values into a fully
//! populated options record, fixes the rules by which host rendering hooks
//! contribute to the output, and exposes rendering entry points whose results
//! are pinned to the engine's output. The Markdown engine itself is an
//! outside collaborator reached through a small trusted layer; everything
//! around it — decoding, defaulting, error reporting, hook outcome rules —
//! is verified.
//!
//! The engine offers no plain serialization of its node tree, so the
//! document value the library hands out is not a tree: it is the pair of
//! source text and decoded options that determines the tree, and the
//! formatting entry points re-derive the tree from it. A host value that
//! does not fit that shape is rejected as a deserialization error at the
//! boundary.

pub mod host;
pub mod options;
pub mod decode;
pub mod error;
pub mod hooks;
pub mod engine;
pub mod api;
