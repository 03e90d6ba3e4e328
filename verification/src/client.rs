//! The decision half of the experiment-service client.
//!
//! The HTTP transport lives outside the library; here are the parts that
//! compute: assembling an update payload from variants and turning a
//! response status into the caller's result.

use vstd::prelude::*;
use crate::experiments::Variant;
use crate::json::JsonValue;

verus! {

/// One variant's contribution to an experiment update: its id and its
/// override mapping.
#[derive(Debug)]
pub struct VariantUpdateRequest {
    pub id: String,
    pub overrides: Vec<(String, JsonValue)>,
}

/// The body of a request to update an experiment's overrides.
#[derive(Debug)]
pub struct ExperimentUpdateRequest {
    pub variants: Vec<VariantUpdateRequest>,
}

/// Builds the update payload: each variant contributes exactly its id and
/// overrides, in order.
pub fn build_update_request(variants: Vec<Variant>) -> (r: ExperimentUpdateRequest)
    ensures
        r.variants@.len() == variants@.len(),
        forall|i: int| 0 <= i < variants@.len() ==> (#[trigger] r.variants@[i]).id
            == variants@[i].id && r.variants@[i].overrides == variants@[i].overrides,
{
    let ghost variants0 = variants@;
    let mut rest = variants;
    let mut out: Vec<VariantUpdateRequest> = Vec::new();
    while rest.len() > 0
        invariant
            rest@ =~= variants0.skip(out@.len() as int),
            out@.len() <= variants0.len(),
            forall|i: int| 0 <= i < out@.len() ==> (#[trigger] out@[i]).id == variants0[i].id
                && out@[i].overrides == variants0[i].overrides,
        decreases rest@.len(),
    {
        let ghost done = out@.len() as int;
        let v = rest.remove(0);
        out.push(VariantUpdateRequest { id: v.id, overrides: v.overrides });
        proof {
            assert(rest@ =~= variants0.skip(done + 1));
        }
    }
    ExperimentUpdateRequest { variants: out }
}

/// Turns the experiment service's HTTP answer into the caller's result:
/// the body on success, a data-corruption message on a client error, and
/// an opaque server-error message otherwise.
pub fn response_outcome(status: u16, body: String) -> (r: Result<String, String>)
    ensures
        status == 200 ==> r == Ok::<String, String>(body),
        status == 400 ==> (r matches Err(m) && m@ == "epxeriment data corrupt"@),
        status != 200 && status != 400 ==> (r matches Err(m) && m@ == "Internal Server Error"@),
{
    if status == 200 {
        Ok(body)
    } else if status == 400 {
        Err("epxeriment data corrupt".to_owned())
    } else {
        Err("Internal Server Error".to_owned())
    }
}

} // verus!
