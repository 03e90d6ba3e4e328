//! The experiment aggregate and its variants.

use vstd::prelude::*;
use crate::json::JsonValue;

verus! {

/// The role of a variant inside an experiment.
#[derive(Clone, Copy, PartialEq, Eq, Structural, Debug)]
pub enum VariantType {
    CONTROL,
    EXPERIMENTAL,
}

/// One arm of an experiment: a configuration override applied when the
/// experiment's context, narrowed to this variant, matches. `context_id`
/// and `override_id` are filled in only after the remote store has created
/// the variant's context/override pair.
#[derive(Debug)]
pub struct Variant {
    pub id: String,
    pub variant_type: VariantType,
    pub overrides: Vec<(String, JsonValue)>,
    pub context_id: Option<String>,
    pub override_id: Option<String>,
}

/// The lifecycle state of an experiment.
#[derive(Clone, Copy, PartialEq, Eq, Structural, Debug)]
pub enum ExperimentStatusType {
    CREATED,
    INPROGRESS,
    CONCLUDED,
}

/// The body of a request to create an experiment.
#[derive(Debug)]
pub struct ExperimentCreateRequest {
    pub name: String,
    pub override_keys: Vec<String>,
    pub traffic_percentage: i32,
    pub context: JsonValue,
    pub variants: Vec<Variant>,
}

/// The aggregate persisted once every variant's remote context exists.
#[derive(Debug)]
pub struct Experiment {
    pub id: i64,
    pub created_by: String,
    pub created_at_millis: i64,
    pub last_modified_millis: Option<i64>,
    pub name: String,
    pub override_keys: Vec<String>,
    pub traffic_percentage: i32,
    pub status: ExperimentStatusType,
    pub context: JsonValue,
    pub variants: Vec<Variant>,
}

/// The successful answer to an experiment-creation request.
#[derive(Debug)]
pub struct ExperimentCreateResponse {
    pub experiment_id: i64,
}

} // verus!
