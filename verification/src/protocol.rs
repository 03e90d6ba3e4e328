//! The context mutation protocol.
//!
//! Three tagged operations — PUT, DELETE and MOVE — are submitted as an
//! ordered batch to the context store's bulk endpoint, which answers with
//! an ordered sequence of tagged results in the same positions. The sum
//! types are closed; encoding to and decoding from the JSON wire shape is
//! exhaustive over the tags, and proved to round-trip.

use vstd::prelude::*;
use crate::errors::AppError;
use crate::json::{
    find_key, lookup, model_members, model_seq, lemma_model_members, lemma_model_seq,
    lemma_find_key, copy_members, obj_find, JsonModel, JsonValue,
};

verus! {

/// Creates or upserts one context/override pair.
#[derive(Debug)]
pub struct PutReq {
    pub context: Vec<(String, JsonValue)>,
    pub overrides: Vec<(String, JsonValue)>,
}

/// Re-targets an existing override to a new context.
#[derive(Debug)]
pub struct MoveReq {
    pub context: Vec<(String, JsonValue)>,
}

/// A condition selecting one dimension by name.
#[derive(Debug)]
pub struct DimensionCondition {
    pub var: String,
}

/// The store's answer to a PUT or MOVE: the ids of the pair and the
/// priority the store assigned to the context.
#[derive(Debug)]
pub struct PutResp {
    pub context_id: String,
    pub override_id: String,
    pub priority: i32,
}

/// Page selection for listing endpoints.
#[derive(Debug)]
pub struct PaginationParams {
    pub page: Option<u32>,
    pub size: Option<u32>,
}

/// One operation of a bulk batch.
#[derive(Debug)]
pub enum ContextAction {
    PUT(PutReq),
    DELETE(String),
    MOVE((String, MoveReq)),
}

/// One positional result of a bulk batch.
#[derive(Debug)]
pub enum ContextBulkResponse {
    PUT(PutResp),
    DELETE(String),
    MOVE(PutResp),
}

/// A named function attached to configuration, with its source if loaded.
#[derive(Debug)]
pub struct FunctionsInfo {
    pub name: String,
    pub code: Option<String>,
}

/// Which version of the configuration a mutation addresses.
#[derive(Clone, Copy, PartialEq, Eq, Structural, Debug)]
pub enum ConfigVersionType {
    DRAFT,
    PUBLISHED,
}

/// Query parameters of the move endpoint.
#[derive(Debug)]
pub struct MoveQParams {
    pub update_type: Option<ConfigVersionType>,
}

/// Query parameters of the bulk-operation endpoint.
#[derive(Debug)]
pub struct BulkOperationQParams {
    pub update_type: Option<ConfigVersionType>,
}

/// Query parameters of the put endpoint.
#[derive(Debug)]
pub struct PutQParams {
    pub update_type: Option<ConfigVersionType>,
}

/// Query parameters of the delete endpoint.
#[derive(Debug)]
pub struct DeleteQParams {
    pub update_type: Option<ConfigVersionType>,
}

/// The wire shape of a PUT operation's payload.
pub open spec fn put_req_encoding(
    context: Seq<(Seq<char>, JsonModel)>,
    overrides: Seq<(Seq<char>, JsonModel)>,
) -> JsonModel {
    JsonModel::Obj(
        seq![
            ("context"@, JsonModel::Obj(context)),
            ("override"@, JsonModel::Obj(overrides)),
        ],
    )
}

/// The wire shape of one tagged operation.
pub open spec fn action_encoding(a: ContextAction) -> JsonModel {
    match a {
        ContextAction::PUT(p) => JsonModel::Obj(
            seq![
                ("PUT"@, put_req_encoding(model_members(p.context@), model_members(p.overrides@))),
            ],
        ),
        ContextAction::DELETE(id) => JsonModel::Obj(seq![("DELETE"@, JsonModel::Str(id@))]),
        ContextAction::MOVE(m) => JsonModel::Obj(
            seq![
                (
                "MOVE"@,
                JsonModel::Arr(
                    seq![
                        JsonModel::Str(m.0@),
                        JsonModel::Obj(
                            seq![("context"@, JsonModel::Obj(model_members(m.1.context@)))],
                        ),
                    ],
                ),
                ),
            ],
        ),
    }
}

/// Encodes one operation into its JSON wire shape, exhaustively over the
/// three tags.
pub fn encode_action(a: &ContextAction) -> (r: JsonValue)
    ensures
        r.model() == action_encoding(*a),
{
    broadcast use lemma_model_members, lemma_model_seq;

    match a {
        ContextAction::PUT(p) => {
            let mut payload: Vec<(String, JsonValue)> = Vec::new();
            payload.push(("context".to_owned(), JsonValue::Obj(copy_members(&p.context))));
            payload.push(("override".to_owned(), JsonValue::Obj(copy_members(&p.overrides))));
            let ghost payload_view = payload@;
            let mut root: Vec<(String, JsonValue)> = Vec::new();
            root.push(("PUT".to_owned(), JsonValue::Obj(payload)));
            let ghost root_view = root@;
            let out = JsonValue::Obj(root);
            proof {
                assert(model_members(payload_view) =~= seq![
                    ("context"@, JsonModel::Obj(model_members(p.context@))),
                    ("override"@, JsonModel::Obj(model_members(p.overrides@))),
                ]);
                assert(model_members(root_view) =~= seq![
                    (
                        "PUT"@,
                        put_req_encoding(
                            model_members(p.context@),
                            model_members(p.overrides@),
                        ),
                    ),
                ]);
            }
            out
        },
        ContextAction::DELETE(id) => {
            let mut root: Vec<(String, JsonValue)> = Vec::new();
            root.push(("DELETE".to_owned(), JsonValue::Str(id.clone())));
            let ghost root_view = root@;
            let out = JsonValue::Obj(root);
            proof {
                assert(model_members(root_view) =~= seq![("DELETE"@, JsonModel::Str(id@))]);
            }
            out
        },
        ContextAction::MOVE(m) => {
            let mut inner: Vec<(String, JsonValue)> = Vec::new();
            inner.push(("context".to_owned(), JsonValue::Obj(copy_members(&m.1.context))));
            let ghost inner_view = inner@;
            let mut pair: Vec<JsonValue> = Vec::new();
            pair.push(JsonValue::Str(m.0.clone()));
            pair.push(JsonValue::Obj(inner));
            let ghost pair_view = pair@;
            let mut root: Vec<(String, JsonValue)> = Vec::new();
            root.push(("MOVE".to_owned(), JsonValue::Arr(pair)));
            let ghost root_view = root@;
            let out = JsonValue::Obj(root);
            proof {
                assert(model_members(inner_view) =~= seq![
                    ("context"@, JsonModel::Obj(model_members(m.1.context@))),
                ]);
                assert(model_seq(pair_view) =~= seq![
                    JsonModel::Str(m.0@),
                    JsonModel::Obj(
                        seq![("context"@, JsonModel::Obj(model_members(m.1.context@)))],
                    ),
                ]);
                assert(model_members(root_view) =~= action_encoding(*a)->Obj_0);
            }
            out
        },
    }
}

/// The wire shape of the store's answer to a PUT or MOVE.
pub open spec fn put_resp_encoding(context_id: Seq<char>, override_id: Seq<char>, priority: int) -> JsonModel {
    JsonModel::Obj(
        seq![
            ("context_id"@, JsonModel::Str(context_id)),
            ("override_id"@, JsonModel::Str(override_id)),
            ("priority"@, JsonModel::Int(priority)),
        ],
    )
}

/// Whether a JSON value carries the members of a PUT/MOVE result: string
/// ids and a priority within 32-bit range.
pub open spec fn put_resp_shaped(m: JsonModel) -> bool {
    &&& m is Obj
    &&& lookup(m->Obj_0, "context_id"@) matches Some(JsonModel::Str(_))
    &&& lookup(m->Obj_0, "override_id"@) matches Some(JsonModel::Str(_))
    &&& lookup(m->Obj_0, "priority"@) matches Some(JsonModel::Int(p)) && -0x80000000 <= p
        < 0x80000000
}

/// The fields decoded from a shaped result value.
pub open spec fn put_resp_matches(m: JsonModel, p: PutResp) -> bool {
    &&& lookup(m->Obj_0, "context_id"@) == Some(JsonModel::Str(p.context_id@))
    &&& lookup(m->Obj_0, "override_id"@) == Some(JsonModel::Str(p.override_id@))
    &&& lookup(m->Obj_0, "priority"@) == Some(JsonModel::Int(p.priority as int))
}

/// Encodes a PUT/MOVE result into its JSON wire shape.
pub fn encode_put_resp(p: &PutResp) -> (r: JsonValue)
    ensures
        r.model() == put_resp_encoding(p.context_id@, p.override_id@, p.priority as int),
{
    broadcast use lemma_model_members;

    let mut root: Vec<(String, JsonValue)> = Vec::new();
    root.push(("context_id".to_owned(), JsonValue::Str(p.context_id.clone())));
    root.push(("override_id".to_owned(), JsonValue::Str(p.override_id.clone())));
    root.push(("priority".to_owned(), JsonValue::Int(p.priority as i64)));
    let ghost root_view = root@;
    let out = JsonValue::Obj(root);
    proof {
        assert(model_members(root_view) =~= put_resp_encoding(
            p.context_id@,
            p.override_id@,
            p.priority as int,
        )->Obj_0);
    }
    out
}

/// Decodes the store's answer to a PUT or MOVE from its JSON wire shape.
/// Succeeds exactly on values carrying the three expected members.
pub fn decode_put_resp(v: &JsonValue) -> (r: Result<PutResp, AppError>)
    ensures
        r is Ok <==> put_resp_shaped(v.model()),
        r matches Ok(p) ==> put_resp_matches(v.model(), p),
        r matches Err(e) ==> e is RemoteCallError,
{
    broadcast use lemma_model_members;

    match v {
        JsonValue::Obj(ms) => {
            let cid_key: String = "context_id".to_owned();
            let oid_key: String = "override_id".to_owned();
            let pri_key: String = "priority".to_owned();
            proof {
                lemma_find_key(model_members(ms@), cid_key@);
                lemma_find_key(model_members(ms@), oid_key@);
                lemma_find_key(model_members(ms@), pri_key@);
            }
            let context_id: String = match obj_find(ms, &cid_key) {
                Some(i) => match &ms[i].1 {
                    JsonValue::Str(s) => s.clone(),
                    _ => {
                        return Err(
                            AppError::RemoteCallError(
                                "failed to parse response".to_owned(),
                            ),
                        );
                    },
                },
                None => {
                    return Err(
                        AppError::RemoteCallError("failed to parse response".to_owned()),
                    );
                },
            };
            let override_id: String = match obj_find(ms, &oid_key) {
                Some(i) => match &ms[i].1 {
                    JsonValue::Str(s) => s.clone(),
                    _ => {
                        return Err(
                            AppError::RemoteCallError(
                                "failed to parse response".to_owned(),
                            ),
                        );
                    },
                },
                None => {
                    return Err(
                        AppError::RemoteCallError("failed to parse response".to_owned()),
                    );
                },
            };
            let priority: i32 = match obj_find(ms, &pri_key) {
                Some(i) => match &ms[i].1 {
                    JsonValue::Int(p) => {
                        if *p >= -0x80000000i64 && *p < 0x80000000i64 {
                            *p as i32
                        } else {
                            return Err(
                                AppError::RemoteCallError(
                                    "failed to parse response".to_owned(),
                                ),
                            );
                        }
                    },
                    _ => {
                        return Err(
                            AppError::RemoteCallError(
                                "failed to parse response".to_owned(),
                            ),
                        );
                    },
                },
                None => {
                    return Err(
                        AppError::RemoteCallError("failed to parse response".to_owned()),
                    );
                },
            };
            Ok(PutResp { context_id, override_id, priority })
        },
        _ => Err(AppError::RemoteCallError("failed to parse response".to_owned())),
    }
}

/// Whether a JSON value is an array of shaped PUT results.
pub open spec fn put_resp_array_shaped(m: JsonModel) -> bool {
    m is Arr && forall|i: int| 0 <= i < m->Arr_0.len() ==> put_resp_shaped(#[trigger] m->Arr_0[i])
}

/// Decodes the bulk endpoint's answer to a batch of PUT operations: an
/// ordered array of PUT results. Succeeds exactly on arrays whose every
/// element is shaped; positions are kept.
pub fn decode_put_resp_array(v: &JsonValue) -> (r: Result<Vec<PutResp>, AppError>)
    ensures
        r is Ok <==> put_resp_array_shaped(v.model()),
        r matches Ok(rs) ==> rs@.len() == v.model()->Arr_0.len() && (forall|i: int|
            0 <= i < rs@.len() ==> put_resp_matches(v.model()->Arr_0[i], #[trigger] rs@[i])),
        r matches Err(e) ==> e is RemoteCallError,
{
    broadcast use lemma_model_seq;

    match v {
        JsonValue::Arr(items) => {
            let mut out: Vec<PutResp> = Vec::new();
            let n = items.len();
            for idx in 0..n
                invariant
                    *v is Arr,
                    items@ == v->Arr_0@,
                    v.model()->Arr_0 == model_seq(items@),
                    n == items@.len(),
                    model_seq(items@).len() == n,
                    out@.len() == idx,
                    forall|j: int| 0 <= j < idx ==> put_resp_shaped(
                        #[trigger] model_seq(items@)[j],
                    ),
                    forall|j: int| 0 <= j < idx ==> put_resp_matches(
                        model_seq(items@)[j],
                        #[trigger] out@[j],
                    ),
            {
                proof {
                    lemma_model_seq(items@);
                }
                match decode_put_resp(&items[idx]) {
                    Ok(p) => {
                        out.push(p);
                    },
                    Err(e) => {
                        proof {
                            assert(!put_resp_shaped(model_seq(items@)[idx as int]));
                        }
                        return Err(e);
                    },
                }
            }
            Ok(out)
        },
        _ => Err(AppError::RemoteCallError("failed to parse response".to_owned())),
    }
}

/// The wire shape of one tagged bulk result.
pub open spec fn bulk_response_encoding(r: ContextBulkResponse) -> JsonModel {
    match r {
        ContextBulkResponse::PUT(p) => JsonModel::Obj(
            seq![("PUT"@, put_resp_encoding(p.context_id@, p.override_id@, p.priority as int))],
        ),
        ContextBulkResponse::DELETE(id) => JsonModel::Obj(seq![("DELETE"@, JsonModel::Str(id@))]),
        ContextBulkResponse::MOVE(p) => JsonModel::Obj(
            seq![("MOVE"@, put_resp_encoding(p.context_id@, p.override_id@, p.priority as int))],
        ),
    }
}

/// Whether a JSON value carries one tagged bulk result.
pub open spec fn bulk_response_shaped(m: JsonModel) -> bool {
    &&& m is Obj
    &&& m->Obj_0.len() == 1
    &&& {
        ||| (m->Obj_0[0].0 == "PUT"@ && put_resp_shaped(m->Obj_0[0].1))
        ||| (m->Obj_0[0].0 == "DELETE"@ && m->Obj_0[0].1 is Str)
        ||| (m->Obj_0[0].0 == "MOVE"@ && put_resp_shaped(m->Obj_0[0].1))
    }
}

/// The tagged result decoded from a shaped value.
pub open spec fn bulk_response_matches(m: JsonModel, r: ContextBulkResponse) -> bool {
    match r {
        ContextBulkResponse::PUT(p) => m->Obj_0[0].0 == "PUT"@ && put_resp_matches(
            m->Obj_0[0].1,
            p,
        ),
        ContextBulkResponse::DELETE(id) => m->Obj_0[0].0 == "DELETE"@ && m->Obj_0[0].1
            == JsonModel::Str(id@),
        ContextBulkResponse::MOVE(p) => m->Obj_0[0].0 == "MOVE"@ && put_resp_matches(
            m->Obj_0[0].1,
            p,
        ),
    }
}

/// Encodes one tagged bulk result into its JSON wire shape, exhaustively
/// over the three tags.
pub fn encode_bulk_response(r: &ContextBulkResponse) -> (v: JsonValue)
    ensures
        v.model() == bulk_response_encoding(*r),
{
    broadcast use lemma_model_members;

    match r {
        ContextBulkResponse::PUT(p) => {
            let mut root: Vec<(String, JsonValue)> = Vec::new();
            root.push(("PUT".to_owned(), encode_put_resp(p)));
            let ghost root_view = root@;
            let out = JsonValue::Obj(root);
            proof {
                assert(model_members(root_view) =~= bulk_response_encoding(*r)->Obj_0);
            }
            out
        },
        ContextBulkResponse::DELETE(id) => {
            let mut root: Vec<(String, JsonValue)> = Vec::new();
            root.push(("DELETE".to_owned(), JsonValue::Str(id.clone())));
            let ghost root_view = root@;
            let out = JsonValue::Obj(root);
            proof {
                assert(model_members(root_view) =~= bulk_response_encoding(*r)->Obj_0);
            }
            out
        },
        ContextBulkResponse::MOVE(p) => {
            let mut root: Vec<(String, JsonValue)> = Vec::new();
            root.push(("MOVE".to_owned(), encode_put_resp(p)));
            let ghost root_view = root@;
            let out = JsonValue::Obj(root);
            proof {
                assert(model_members(root_view) =~= bulk_response_encoding(*r)->Obj_0);
            }
            out
        },
    }
}

/// Decodes one tagged bulk result, exhaustively over the three tags.
/// Succeeds exactly on single-member objects carrying a known tag and a
/// well-shaped payload.
pub fn decode_bulk_response(v: &JsonValue) -> (r: Result<ContextBulkResponse, AppError>)
    ensures
        r is Ok <==> bulk_response_shaped(v.model()),
        r matches Ok(b) ==> bulk_response_matches(v.model(), b),
        r matches Err(e) ==> e is RemoteCallError,
{
    broadcast use lemma_model_members;

    match v {
        JsonValue::Obj(ms) => {
            proof {
                lemma_model_members(ms@);
                assert(v.model()->Obj_0 == model_members(ms@));
                assert(v.model()->Obj_0.len() == ms@.len());
            }
            if ms.len() != 1 {
                return Err(
                    AppError::RemoteCallError("failed to parse response".to_owned()),
                );
            }
            let tag = &ms[0].0;
            let payload = &ms[0].1;
            proof {
                assert(v.model()->Obj_0[0] == (ms@[0].0@, ms@[0].1.model()));
            }
            if tag.eq(&"PUT".to_owned()) {
                match decode_put_resp(payload) {
                    Ok(p) => {
                        proof {
                            assert(bulk_response_shaped(v.model()));
                        }
                        Ok(ContextBulkResponse::PUT(p))
                    },
                    Err(e) => {
                        proof {
                            reveal_strlit("PUT");
                            reveal_strlit("DELETE");
                            reveal_strlit("MOVE");
                            assert("PUT"@.len() == 3 && "DELETE"@.len() == 6 && "MOVE"@.len()
                                == 4);
                            assert(!bulk_response_shaped(v.model()));
                        }
                        Err(e)
                    },
                }
            } else if tag.eq(&"DELETE".to_owned()) {
                match payload {
                    JsonValue::Str(id) => {
                        proof {
                            assert(bulk_response_shaped(v.model()));
                        }
                        Ok(ContextBulkResponse::DELETE(id.clone()))
                    },
                    _ => {
                        proof {
                            reveal_strlit("PUT");
                            reveal_strlit("DELETE");
                            reveal_strlit("MOVE");
                            assert("PUT"@.len() == 3 && "DELETE"@.len() == 6 && "MOVE"@.len()
                                == 4);
                            assert(!(ms@[0].1.model() is Str));
                            assert(!bulk_response_shaped(v.model()));
                        }
                        Err(
                            AppError::RemoteCallError("failed to parse response".to_owned()),
                        )
                    },
                }
            } else if tag.eq(&"MOVE".to_owned()) {
                match decode_put_resp(payload) {
                    Ok(p) => {
                        proof {
                            assert(bulk_response_shaped(v.model()));
                        }
                        Ok(ContextBulkResponse::MOVE(p))
                    },
                    Err(e) => {
                        proof {
                            reveal_strlit("PUT");
                            reveal_strlit("DELETE");
                            reveal_strlit("MOVE");
                            assert("PUT"@.len() == 3 && "DELETE"@.len() == 6 && "MOVE"@.len()
                                == 4);
                            assert(!bulk_response_shaped(v.model()));
                        }
                        Err(e)
                    },
                }
            } else {
                proof {
                    assert(!bulk_response_shaped(v.model()));
                }
                Err(AppError::RemoteCallError("failed to parse response".to_owned()))
            }
        },
        _ => {
            proof {
                assert(!(v.model() is Obj));
            }
            Err(AppError::RemoteCallError("failed to parse response".to_owned()))
        },
    }
}

/// Every encoded tagged result decodes back to itself.
pub proof fn lemma_bulk_response_round_trip(r: ContextBulkResponse)
    requires
        r matches ContextBulkResponse::PUT(p) ==> -0x80000000 <= p.priority < 0x80000000,
        r matches ContextBulkResponse::MOVE(p) ==> -0x80000000 <= p.priority < 0x80000000,
    ensures
        bulk_response_shaped(bulk_response_encoding(r)),
        bulk_response_matches(bulk_response_encoding(r), r),
{
    match r {
        ContextBulkResponse::PUT(p) => lemma_put_resp_round_trip(p),
        ContextBulkResponse::DELETE(_) => {},
        ContextBulkResponse::MOVE(p) => lemma_put_resp_round_trip(p),
    }
}

/// Every encoded result decodes back to itself: the wire shape is a
/// faithful carrier of the three fields.
pub proof fn lemma_put_resp_round_trip(p: PutResp)
    requires
        -0x80000000 <= p.priority < 0x80000000,
    ensures
        put_resp_shaped(put_resp_encoding(p.context_id@, p.override_id@, p.priority as int)),
        put_resp_matches(put_resp_encoding(p.context_id@, p.override_id@, p.priority as int), p),
{
    reveal_strlit("context_id");
    reveal_strlit("override_id");
    reveal_strlit("priority");
    let m = put_resp_encoding(p.context_id@, p.override_id@, p.priority as int);
    assert("context_id"@.len() == 10 && "override_id"@.len() == 11 && "priority"@.len() == 8);
    lemma_find_key(m->Obj_0, "context_id"@);
    lemma_find_key(m->Obj_0, "override_id"@);
    lemma_find_key(m->Obj_0, "priority"@);
    assert(find_key(m->Obj_0, "context_id"@) == 0);
    assert(find_key(m->Obj_0, "override_id"@) == 1);
    assert(find_key(m->Obj_0, "priority"@) == 2);
}

} // verus!
