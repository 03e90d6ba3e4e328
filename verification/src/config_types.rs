//! Request types of the default-configuration endpoints.

use vstd::prelude::*;
use crate::json::JsonValue;
use crate::protocol::ConfigVersionType;

verus! {

/// The body of a request to create a default configuration key: its
/// value, an optional JSON-schema constraint and an optional validator
/// function name.
#[derive(Debug)]
pub struct CreateReq {
    pub value: Option<JsonValue>,
    pub schema: Option<Vec<(String, JsonValue)>>,
    pub function_name: Option<JsonValue>,
}

/// Query parameters of the default-configuration create endpoint.
#[derive(Debug)]
pub struct CreateQParams {
    pub update_type: Option<ConfigVersionType>,
}

} // verus!
