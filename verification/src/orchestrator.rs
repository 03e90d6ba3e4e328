//! Experiment-creation orchestration.
//!
//! The flow is a linear state machine: validate the request, mint an
//! experiment id, rewrite each variant's id to `<experiment id>-<local
//! id>`, augment the base context with a `variant_id` equality condition
//! per variant, and build one ordered batch of PUT operations. The caller
//! submits the batch to the context store; only when the store answers
//! with exactly one result per submitted variant are the returned ids
//! fanned back onto the variants and the aggregate assembled for
//! persistence. A failing remote call leaves no local state. A
//! persistence failure after a successful remote call leaves the created
//! overrides orphaned: no compensating delete is issued, a documented
//! property of this flow that callers reconcile by hand from logs.

use vstd::prelude::*;
use vstd::string::StringExecFns;
use crate::decimal::{dec_str, i64_to_dec_string};
use crate::errors::AppError;
use crate::experiments::{
    Experiment, ExperimentCreateRequest, ExperimentStatusType, Variant,
};
use crate::json::{
    find_key, lookup, model_members, model_seq, lemma_model_members, lemma_model_seq,
    lemma_find_key, copy_members, copy_values, obj_find, JsonModel, JsonValue,
};
use crate::protocol::{ContextAction, PutReq, PutResp};
use crate::validation::{
    check_context_shape, check_variant_types, check_variants_override_coverage, control_count,
    experimental_count, all_variants_cover, key_views,
};

verus! {

/// The equality condition pinning the `variant_id` dimension to one
/// variant's rewritten id.
pub open spec fn variant_condition(vid: Seq<char>) -> JsonModel {
    JsonModel::Obj(
        seq![
            (
            "=="@,
            JsonModel::Arr(
                seq![
                    JsonModel::Obj(seq![("var"@, JsonModel::Str("variant_id"@))]),
                    JsonModel::Str(vid),
                ],
            ),
            ),
        ],
    )
}

/// The base context narrowed to one variant: an existing `and` list gains
/// the variant condition; a bare condition object is wrapped into an `and`
/// list together with it. `None` when the context cannot be augmented.
pub open spec fn augmented_context(ctx: JsonModel, vid: Seq<char>) -> Option<JsonModel> {
    match ctx {
        JsonModel::Obj(ms) => match lookup(ms, "and"@) {
            Some(JsonModel::Arr(cs)) => Some(
                JsonModel::Obj(
                    ms.update(
                        find_key(ms, "and"@),
                        ("and"@, JsonModel::Arr(cs.push(variant_condition(vid)))),
                    ),
                ),
            ),
            Some(_) => None,
            None => Some(
                JsonModel::Obj(
                    seq![("and"@, JsonModel::Arr(seq![ctx, variant_condition(vid)]))],
                ),
            ),
        },
        _ => None,
    }
}

/// Whether the base context accepts the variant condition: a JSON object
/// whose `and` member, if present, is an array.
pub open spec fn can_augment(ctx: JsonModel) -> bool {
    match ctx {
        JsonModel::Obj(ms) => match lookup(ms, "and"@) {
            Some(JsonModel::Arr(_)) => true,
            Some(_) => false,
            None => true,
        },
        _ => false,
    }
}

/// A variant's id after the experiment id is known.
pub open spec fn rewritten_id(experiment_id: int, original: Seq<char>) -> Seq<char> {
    dec_str(experiment_id) + seq!['-'] + original
}

/// The variant-condition value for one rewritten variant id.
fn variant_condition_value(variant_id: String) -> (r: JsonValue)
    ensures
        r.model() == variant_condition(variant_id@),
{
    broadcast use lemma_model_members, lemma_model_seq;

    let ghost vid_view = variant_id@;
    let mut var_ref: Vec<(String, JsonValue)> = Vec::new();
    var_ref.push(("var".to_owned(), JsonValue::Str("variant_id".to_owned())));
    let ghost var_ref_view = var_ref@;
    let mut operands: Vec<JsonValue> = Vec::new();
    operands.push(JsonValue::Obj(var_ref));
    operands.push(JsonValue::Str(variant_id));
    let ghost operands_view = operands@;
    let mut root: Vec<(String, JsonValue)> = Vec::new();
    root.push(("==".to_owned(), JsonValue::Arr(operands)));
    let ghost root_view = root@;
    let out = JsonValue::Obj(root);
    proof {
        assert(model_members(var_ref_view) =~= seq![("var"@, JsonModel::Str("variant_id"@))]);
        assert(model_seq(operands_view) =~= seq![
            JsonModel::Obj(seq![("var"@, JsonModel::Str("variant_id"@))]),
            JsonModel::Str(vid_view),
        ]);
        assert(model_members(root_view) =~= variant_condition(vid_view)->Obj_0);
    }
    out
}

/// Merges the variant condition for `variant_id` into the base context:
/// appended to its `and` list, or wrapped beside a bare condition.
pub fn add_variant_dimension_to_ctx(context: &JsonValue, variant_id: String) -> (r: Result<
    JsonValue,
    AppError,
>)
    ensures
        r is Ok <==> can_augment(context.model()),
        r matches Ok(c) ==> Some(c.model()) == augmented_context(context.model(), variant_id@),
        r matches Err(e) ==> e is BadArgument,
{
    broadcast use lemma_model_members, lemma_model_seq;

    let cond = variant_condition_value(variant_id);
    let ghost cond_model = cond.model();
    match context {
        JsonValue::Obj(ms) => {
            let key: String = "and".to_owned();
            proof {
                lemma_find_key(model_members(ms@), key@);
            }
            match obj_find(ms, &key) {
                Some(i) => match &ms[i].1 {
                    JsonValue::Arr(cs) => {
                        let mut new_conds = copy_values(cs);
                        let ghost conds0 = model_seq(cs@);
                        new_conds.push(cond);
                        let ghost new_conds_view = new_conds@;
                        let mut new_members = copy_members(ms);
                        new_members.remove(i);
                        new_members.insert(i, (key, JsonValue::Arr(new_conds)));
                        let ghost new_members_view = new_members@;
                        let out = JsonValue::Obj(new_members);
                        proof {
                            assert(model_seq(new_conds_view) =~= conds0.push(cond_model));
                            assert(model_members(new_members_view) =~= model_members(
                                ms@,
                            ).update(
                                i as int,
                                ("and"@, JsonModel::Arr(conds0.push(cond_model))),
                            ));
                        }
                        Ok(out)
                    },
                    _ => Err(
                        AppError::BadArgument(
                            "context and-key must hold an array of conditions".to_owned(),
                        ),
                    ),
                },
                None => {
                    let base = context.deep_copy();
                    let mut conds: Vec<JsonValue> = Vec::new();
                    conds.push(base);
                    conds.push(cond);
                    let ghost conds_view = conds@;
                    let mut root: Vec<(String, JsonValue)> = Vec::new();
                    root.push((key, JsonValue::Arr(conds)));
                    let ghost root_view = root@;
                    let out = JsonValue::Obj(root);
                    proof {
                        assert(model_seq(conds_view) =~= seq![context.model(), cond_model]);
                        assert(model_members(root_view) =~= seq![
                            (
                                "and"@,
                                JsonModel::Arr(seq![context.model(), cond_model]),
                            ),
                        ]);
                    }
                    Ok(out)
                },
            }
        },
        _ => Err(
            AppError::BadArgument("context should be map of key value pairs".to_owned()),
        ),
    }
}

/// One variant's rewritten copy next to its PUT operation, pinned field by
/// field.
pub open spec fn built_variant(v: Variant, original: Variant, experiment_id: int) -> bool {
    &&& v.id@ == rewritten_id(experiment_id, original.id@)
    &&& v.variant_type == original.variant_type
    &&& model_members(v.overrides@) == model_members(original.overrides@)
    &&& v.context_id is None
    &&& v.override_id is None
}

/// One PUT operation carrying a variant's augmented context and overrides.
pub open spec fn built_operation(
    op: ContextAction,
    base_ctx: JsonModel,
    vid: Seq<char>,
    original: Variant,
) -> bool {
    &&& op matches ContextAction::PUT(p) && Some(
        JsonModel::Obj(model_members(p.context@)),
    ) == augmented_context(base_ctx, vid) && model_members(p.overrides@) == model_members(
        original.overrides@,
    )
}

/// Rewrites every variant id to `<experiment id>-<local id>` and builds
/// the ordered batch of PUT operations, one per variant in variant order,
/// each pairing the variant's augmented context with its overrides.
pub fn build_creation_operations(req: &ExperimentCreateRequest, experiment_id: i64) -> (r: Result<
    (Vec<Variant>, Vec<ContextAction>),
    AppError,
>)
    requires
        experiment_id >= 0,
    ensures
        r is Ok <==> req.variants@.len() == 0 || can_augment(req.context.model()),
        r matches Ok(out) ==> out.0@.len() == req.variants@.len() && out.1@.len()
            == req.variants@.len() && (forall|i: int|
            0 <= i < req.variants@.len() ==> built_variant(
                #[trigger] out.0@[i],
                req.variants@[i],
                experiment_id as int,
            )) && (forall|i: int|
            0 <= i < req.variants@.len() ==> built_operation(
                #[trigger] out.1@[i],
                req.context.model(),
                out.0@[i].id@,
                req.variants@[i],
            )),
        r matches Err(e) ==> e is BadArgument,
{
    let mut variants: Vec<Variant> = Vec::new();
    let mut operations: Vec<ContextAction> = Vec::new();
    let n = req.variants.len();
    let prefix = i64_to_dec_string(experiment_id);
    for idx in 0..n
        invariant
            n == req.variants@.len(),
            experiment_id >= 0,
            prefix@ == dec_str(experiment_id as int),
            variants@.len() == idx,
            operations@.len() == idx,
            idx > 0 ==> can_augment(req.context.model()),
            forall|i: int| 0 <= i < idx ==> built_variant(
                #[trigger] variants@[i],
                req.variants@[i],
                experiment_id as int,
            ),
            forall|i: int| 0 <= i < idx ==> built_operation(
                #[trigger] operations@[i],
                req.context.model(),
                variants@[i].id@,
                req.variants@[i],
            ),
    {
        let original = &req.variants[idx];
        let mut vid = prefix.clone();
        proof {
            reveal_strlit("-");
            assert("-"@ =~= seq!['-']);
        }
        vid.append("-");
        vid.append(original.id.as_str());
        proof {
            assert(vid@ =~= rewritten_id(experiment_id as int, original.id@));
        }
        let augmented = match add_variant_dimension_to_ctx(&req.context, vid.clone()) {
            Ok(c) => c,
            Err(e) => {
                return Err(e);
            },
        };
        let members = match augmented {
            JsonValue::Obj(mems) => mems,
            _ => {
                proof {
                    assert(false);
                }
                Vec::new()
            },
        };
        variants.push(
            Variant {
                id: vid,
                variant_type: original.variant_type,
                overrides: copy_members(&original.overrides),
                context_id: None,
                override_id: None,
            },
        );
        operations.push(
            ContextAction::PUT(
                PutReq { context: members, overrides: copy_members(&original.overrides) },
            ),
        );
    }
    Ok((variants, operations))
}

/// Everything a validated request yields before the remote call: the
/// variants with rewritten ids and the ordered batch of PUT operations.
#[derive(Debug)]
pub struct PreparedCreation {
    pub variants: Vec<Variant>,
    pub operations: Vec<ContextAction>,
}

/// Whether a creation request passes every pre-side-effect check: variant
/// cardinality, override coverage and context shape.
pub open spec fn request_valid(req: ExperimentCreateRequest) -> bool {
    &&& control_count(req.variants@) == 1
    &&& experimental_count(req.variants@) >= 1
    &&& all_variants_cover(req.variants@, key_views(req.override_keys@))
    &&& req.context.model() is Obj
    &&& can_augment(req.context.model())
}

/// Runs the validation and context-build steps of the creation flow:
/// checks the request, rewrites variant ids under the minted experiment
/// id, and builds the PUT batch. No side effect has happened yet when
/// this returns; on any failure the request is rejected with its reason.
pub fn prepare_experiment_creation(req: &ExperimentCreateRequest, experiment_id: i64) -> (r: Result<
    PreparedCreation,
    AppError,
>)
    requires
        experiment_id >= 0,
    ensures
        r is Ok <==> request_valid(*req),
        r matches Ok(prep) ==> prep.variants@.len() == req.variants@.len() && prep.operations@.len()
            == req.variants@.len() && (forall|i: int|
            0 <= i < req.variants@.len() ==> built_variant(
                #[trigger] prep.variants@[i],
                req.variants@[i],
                experiment_id as int,
            )) && (forall|i: int|
            0 <= i < req.variants@.len() ==> built_operation(
                #[trigger] prep.operations@[i],
                req.context.model(),
                prep.variants@[i].id@,
                req.variants@[i],
            )),
        r matches Err(e) ==> e is ValidationError || e is BadArgument,
{
    if let Err(e) = check_variant_types(&req.variants) {
        return Err(e);
    }
    if !check_variants_override_coverage(&req.variants, &req.override_keys) {
        return Err(
            AppError::ValidationError(
                "all variants should contain the keys mentioned in override_keys".to_owned(),
            ),
        );
    }
    if let Err(e) = check_context_shape(&req.context) {
        return Err(e);
    }
    match build_creation_operations(req, experiment_id) {
        Ok(out) => {
            proof {
                assert(req.variants@.len() > 0);
            }
            Ok(PreparedCreation { variants: out.0, operations: out.1 })
        },
        Err(e) => Err(e),
    }
}

/// Fans the store's results back onto the variants by position. The
/// response must carry exactly one result per submitted variant; any other
/// length fails the request, so nothing half-updated is ever persisted.
pub fn attach_context_ids(variants: Vec<Variant>, responses: &Vec<PutResp>) -> (r: Result<
    Vec<Variant>,
    AppError,
>)
    ensures
        r is Ok <==> responses@.len() == variants@.len(),
        r matches Ok(vs) ==> vs@.len() == variants@.len() && (forall|i: int|
            0 <= i < vs@.len() ==> (#[trigger] vs@[i]).id == variants@[i].id && vs@[i].variant_type
                == variants@[i].variant_type && vs@[i].overrides == variants@[i].overrides
                && vs@[i].context_id == Some(responses@[i].context_id) && vs@[i].override_id
                == Some(responses@[i].override_id)),
        r matches Err(e) ==> e is RemoteCallError,
{
    if responses.len() != variants.len() {
        return Err(
            AppError::RemoteCallError(
                "bulk response length does not match submitted operations".to_owned(),
            ),
        );
    }
    let ghost variants0 = variants@;
    let mut rest = variants;
    let mut out: Vec<Variant> = Vec::new();
    let n = responses.len();
    for idx in 0..n
        invariant
            n == variants0.len() == responses@.len(),
            rest@ =~= variants0.skip(idx as int),
            out@.len() == idx,
            forall|i: int| 0 <= i < idx ==> (#[trigger] out@[i]).id == variants0[i].id
                && out@[i].variant_type == variants0[i].variant_type && out@[i].overrides
                == variants0[i].overrides && out@[i].context_id == Some(responses@[i].context_id)
                && out@[i].override_id == Some(responses@[i].override_id),
    {
        let v = rest.remove(0);
        let resp = &responses[idx];
        out.push(
            Variant {
                id: v.id,
                variant_type: v.variant_type,
                overrides: v.overrides,
                context_id: Some(resp.context_id.clone()),
                override_id: Some(resp.override_id.clone()),
            },
        );
        proof {
            assert(rest@ =~= variants0.skip(idx + 1));
        }
    }
    Ok(out)
}

/// Assembles the experiment aggregate that is persisted after the remote
/// call succeeded, field by field.
pub fn build_experiment(
    req: &ExperimentCreateRequest,
    experiment_id: i64,
    variants: Vec<Variant>,
    created_by: String,
    created_at_millis: i64,
) -> (r: Experiment)
    ensures
        r.id == experiment_id,
        r.created_by == created_by,
        r.created_at_millis == created_at_millis,
        r.last_modified_millis is None,
        r.name == req.name,
        r.override_keys@ == req.override_keys@,
        r.traffic_percentage == req.traffic_percentage,
        r.status == ExperimentStatusType::CREATED,
        r.context.model() == req.context.model(),
        r.variants == variants,
{
    let override_keys = req.override_keys.clone();
    proof {
        assert forall|i: int| 0 <= i < req.override_keys@.len() implies override_keys@[i]
            == req.override_keys@[i] by {
            assert(vstd::pervasive::cloned::<String>(req.override_keys@[i], override_keys@[i]));
        }
        assert(override_keys@ =~= req.override_keys@);
    }
    Experiment {
        id: experiment_id,
        created_by,
        created_at_millis,
        last_modified_millis: None,
        name: req.name.clone(),
        override_keys,
        traffic_percentage: req.traffic_percentage,
        status: ExperimentStatusType::CREATED,
        context: req.context.deep_copy(),
        variants,
    }
}

/// Replaying a creation request never folds two runs into one: each run
/// mints its own experiment id, and experiments carrying different ids are
/// different aggregates, whatever else they share.
pub proof fn lemma_replayed_creation_distinct(e1: Experiment, e2: Experiment)
    requires
        e1.id != e2.id,
    ensures
        e1 != e2,
{
}

/// Variant ids rewritten under distinct experiment ids never collide,
/// whatever the local ids were: the text before the first dash is the
/// experiment id's decimal rendering, and decimal texts are dash-free and
/// injective. A replayed request therefore creates its own remote
/// overrides next to the first run's, never on top of them.
pub proof fn lemma_rewritten_ids_distinct(e1: int, e2: int, v1: Seq<char>, v2: Seq<char>)
    requires
        e1 >= 0,
        e2 >= 0,
        e1 != e2,
    ensures
        rewritten_id(e1, v1) != rewritten_id(e2, v2),
{
    let s1 = crate::decimal::dec_str(e1);
    let s2 = crate::decimal::dec_str(e2);
    let r1 = rewritten_id(e1, v1);
    let r2 = rewritten_id(e2, v2);
    crate::decimal::lemma_dec_str_len(e1);
    crate::decimal::lemma_dec_str_len(e2);
    crate::decimal::lemma_dec_str_no_dash(e1);
    crate::decimal::lemma_dec_str_no_dash(e2);
    crate::decimal::lemma_dec_str_injective(e1, e2);
    if r1 == r2 {
        assert(r1[s1.len() as int] == '-');
        assert(r2[s2.len() as int] == '-');
        if s1.len() < s2.len() {
            assert(r2[s1.len() as int] == s2[s1.len() as int]);
            assert(r2[s1.len() as int] != '-');
        } else if s2.len() < s1.len() {
            assert(r1[s2.len() as int] == s1[s2.len() as int]);
            assert(r1[s2.len() as int] != '-');
        } else {
            assert forall|i: int| 0 <= i < s1.len() implies s1[i] == s2[i] by {
                assert(r1[i] == s1[i]);
                assert(r2[i] == s2[i]);
            }
            assert(s1 =~= s2);
        }
        assert(false);
    }
}

} // verus!
