//! Context-dependent configuration overrides with an experimentation
//! layer on top.
//!
//! Each experiment variant is a configuration override that only applies
//! to requests matching an added targeting dimension, the variant id. The
//! library holds the decision core of that system: extraction of targeting
//! dimensions from JSON-logic contexts, the validation rules over proposed
//! variants, unique time-ordered id generation, the PUT/DELETE/MOVE bulk
//! mutation protocol spoken to the context store, and the
//! experiment-creation orchestration with its partial-failure behavior.
//! I/O — HTTP transport, environment, serialization to text — lives with
//! the embedding application, which hands plain values in and out.

use vstd::prelude::*;

pub mod client;
pub mod config_types;
pub mod decimal;
pub mod dimensions;
pub mod errors;
pub mod experiments;
pub mod hostinfo;
pub mod json;
pub mod listing;
pub mod orchestrator;
pub mod protocol;
pub mod snowflake;
pub mod validation;

verus! {

} // verus!
