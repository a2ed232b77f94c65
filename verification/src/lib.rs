//! Semantic structural diffing.
//!
//! The crate has two halves.
//!
//! The first half is a code-generation engine: given the description of a
//! struct, enum or union declaration (its generics, fields and annotations),
//! it validates the `daft` annotations, rewrites the generic parameter list
//! around a fresh diff lifetime, and synthesizes the plan for a companion
//! "diff" type together with the trait implementations that compute it.
//! The engine works on a declaration model made of plain values; a front end
//! turns token streams into the model and renders the engine's output back
//! into tokens.
//!
//! The second half is the runtime the generated code relies on: the
//! `Diffable` trait, the `Leaf` before/after pair, and diff implementations
//! for primitive and container types.

pub mod ast;
pub mod ban;
pub mod config;
pub mod diag;
pub mod diffable;
pub mod diffwalk;
pub mod error_store;
pub mod generics;
pub mod hash_diff;
pub mod leaf;
pub mod map_diff;
pub mod output;
pub mod position;
pub mod seq_util;
pub mod synth;
