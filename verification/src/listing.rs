//! The decision half of experiment listing.
//!
//! The relational store executes the query; here are the rules it is asked
//! to apply: which rows a filter admits and which slice a page selects.

use vstd::prelude::*;
use crate::experiments::{Experiment, ExperimentStatusType};

verus! {

/// The filters of a listing request: admitted statuses, a creation-time
/// window, and a page of a given size.
#[derive(Debug)]
pub struct ListFilters {
    pub status: Vec<ExperimentStatusType>,
    pub from_date_millis: i64,
    pub to_date_millis: i64,
    pub page: i64,
    pub count: i64,
}

/// Whether a status list admits the given status.
pub open spec fn status_admitted(statuses: Seq<ExperimentStatusType>, s: ExperimentStatusType) -> bool {
    exists|i: int| 0 <= i < statuses.len() && statuses[i] == s
}

/// Whether an experiment passes a filter: its status is admitted and its
/// creation time falls inside the window, both ends included.
pub open spec fn admitted(e: Experiment, f: ListFilters) -> bool {
    status_admitted(f.status@, e.status) && f.from_date_millis <= e.created_at_millis
        <= f.to_date_millis
}

/// Whether an experiment passes the filter.
pub fn experiment_matches_filters(e: &Experiment, filters: &ListFilters) -> (r: bool)
    ensures
        r == admitted(*e, *filters),
{
    let mut in_status = false;
    let n = filters.status.len();
    for idx in 0..n
        invariant
            n == filters.status@.len(),
            in_status == exists|i: int|
                0 <= i < idx && filters.status@[i] == e.status,
    {
        if filters.status[idx] == e.status {
            in_status = true;
        }
    }
    in_status && filters.from_date_millis <= e.created_at_millis && e.created_at_millis
        <= filters.to_date_millis
}

/// The offset of a page: pages are numbered from one and each holds
/// `count` rows. `None` when the page lies beyond what a 64-bit offset
/// can address.
pub fn page_offset(page: i64, count: i64) -> (r: Option<i64>)
    requires
        page >= 1,
        count >= 0,
    ensures
        r matches Some(offset) ==> offset == (page - 1) * count,
        r is None <==> (page - 1) * count > i64::MAX,
{
    (page - 1).checked_mul(count)
}

} // verus!
