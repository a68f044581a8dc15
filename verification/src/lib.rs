//! A derivation engine for tagged unions (sum types).
//!
//! Given the shape of an enum whose variants each carry at most one payload
//! field, together with a layered per-variant configuration, the engine
//! resolves one capability set per variant, derives canonical operation
//! names, detects conflicting reverse-conversion requests, and synthesizes
//! descriptors for a fixed family of accessor, predicate and conversion
//! operations, plus a companion tag-only "kind" enum.
//!
//! The runtime side of the generated operations is modelled by the
//! `runtime` module, and the conversion failure value every fallible
//! operation returns is `TryIntoError`.

pub mod conflict;
pub mod decl;
pub mod error;
pub mod flags;
pub mod kinded;
pub mod runtime;
pub mod schema;
pub mod synth;
pub mod text;

pub use error::AnyTryIntoError;
pub use error::GenError;
pub use error::TryIntoError;
pub use synth::bucketise_by;
pub use synth::sumtype_attr;
