//! Dimension extraction from JSON-logic targeting contexts.
//!
//! A context is either a single condition object or `{"and": [cond, ...]}`.
//! Each condition object maps operator names to a two-element operand array
//! in which exactly one operand is a variable reference `{"var": name}`; the
//! other operand is the dimension's value. Extraction walks the conditions
//! in order and yields an ordered mapping of dimension name to value, where
//! a repeated name keeps its first position but takes its last value.

use vstd::prelude::*;
use crate::errors::AppError;
use crate::json::{
    find_key, lookup, model_members, model_seq, lemma_model_members, lemma_model_seq,
    lemma_find_key, obj_find, JsonModel, JsonValue,
};

verus! {

/// An operand is a variable reference when it is an object with a `var`
/// member.
pub open spec fn is_var_ref(v: JsonModel) -> bool {
    v is Obj && lookup(v->Obj_0, "var"@) is Some
}

/// The dimension name of a variable reference, when its `var` member holds a
/// string.
pub open spec fn var_name(v: JsonModel) -> Option<Seq<char>> {
    match lookup(v->Obj_0, "var"@) {
        Some(JsonModel::Str(nm)) => Some(nm),
        _ => None,
    }
}

/// The dimension pair named by a two-element operand array: the variable
/// reference gives the name, the other operand gives the value. `None` when
/// the array is not two elements long, when neither or both operands are
/// variable references, or when the referenced name is not a string.
pub open spec fn operand_pair(operands: Seq<JsonModel>) -> Option<(Seq<char>, JsonModel)> {
    if operands.len() != 2 {
        None
    } else if is_var_ref(operands[0]) && !is_var_ref(operands[1]) {
        match var_name(operands[0]) {
            Some(nm) => Some((nm, operands[1])),
            None => None,
        }
    } else if !is_var_ref(operands[0]) && is_var_ref(operands[1]) {
        match var_name(operands[1]) {
            Some(nm) => Some((nm, operands[0])),
            None => None,
        }
    } else {
        None
    }
}

/// The dimension pairs of one condition object's members, one per operator,
/// in member order. `None` when any operator's operands are malformed.
pub open spec fn condition_pairs(members: Seq<(Seq<char>, JsonModel)>) -> Option<
    Seq<(Seq<char>, JsonModel)>,
>
    decreases members,
{
    if members.len() == 0 {
        Some(Seq::empty())
    } else {
        match members[0].1 {
            JsonModel::Arr(ops) => match operand_pair(ops) {
                Some(p) => match condition_pairs(members.drop_first()) {
                    Some(rest) => Some(seq![p] + rest),
                    None => None,
                },
                None => None,
            },
            _ => None,
        }
    }
}

/// The dimension pairs of one condition, which must be an object.
pub open spec fn condition_obj_pairs(c: JsonModel) -> Option<Seq<(Seq<char>, JsonModel)>> {
    match c {
        JsonModel::Obj(ms) => condition_pairs(ms),
        _ => None,
    }
}

/// The concatenated dimension pairs of a list of conditions.
pub open spec fn conditions_pairs(conds: Seq<JsonModel>) -> Option<Seq<(Seq<char>, JsonModel)>>
    decreases conds,
{
    if conds.len() == 0 {
        Some(Seq::empty())
    } else {
        match condition_obj_pairs(conds[0]) {
            Some(ps) => match conditions_pairs(conds.drop_first()) {
                Some(rest) => Some(ps + rest),
                None => None,
            },
            None => None,
        }
    }
}

/// Writes a pair into an ordered mapping: a present key keeps its position
/// and takes the new value; a new key is appended.
pub open spec fn upsert(
    m: Seq<(Seq<char>, JsonModel)>,
    k: Seq<char>,
    v: JsonModel,
) -> Seq<(Seq<char>, JsonModel)> {
    if find_key(m, k) >= 0 {
        m.update(find_key(m, k), (k, v))
    } else {
        m.push((k, v))
    }
}

/// De-duplicates discovered pairs by key: first position, last value wins.
pub open spec fn dedup_pairs(ps: Seq<(Seq<char>, JsonModel)>) -> Seq<(Seq<char>, JsonModel)>
    decreases ps,
{
    if ps.len() == 0 {
        Seq::empty()
    } else {
        upsert(dedup_pairs(ps.drop_last()), ps.last().0, ps.last().1)
    }
}

/// The full extraction over the model: the ordered, de-duplicated dimension
/// mapping of a context, or `None` when the context is malformed.
pub open spec fn extract_model(ctx: JsonModel) -> Option<Seq<(Seq<char>, JsonModel)>> {
    match ctx {
        JsonModel::Obj(ms) => match lookup(ms, "and"@) {
            Some(JsonModel::Arr(cs)) => match conditions_pairs(cs) {
                Some(ps) => Some(dedup_pairs(ps)),
                None => None,
            },
            Some(_) => None,
            None => match condition_pairs(ms) {
                Some(ps) => Some(dedup_pairs(ps)),
                None => None,
            },
        },
        _ => None,
    }
}

/// Whether an operand is a variable reference.
fn is_var_ref_exec(v: &JsonValue) -> (r: bool)
    ensures
        r == is_var_ref(v.model()),
{
    broadcast use lemma_model_members;

    match v {
        JsonValue::Obj(ms) => {
            let key: String = "var".to_owned();
            obj_find(ms, &key).is_some()
        },
        _ => false,
    }
}

/// The string under an object's `var` member, when it is a string.
fn var_name_exec(v: &JsonValue) -> (r: Option<String>)
    requires
        is_var_ref(v.model()),
    ensures
        match r {
            Some(s) => var_name(v.model()) == Some(s@),
            None => var_name(v.model()) is None,
        },
{
    broadcast use lemma_model_members;

    match v {
        JsonValue::Obj(ms) => {
            let key: String = "var".to_owned();
            proof {
                lemma_find_key(model_members(ms@), key@);
            }
            match obj_find(ms, &key) {
                Some(i) => match &ms[i].1 {
                    JsonValue::Str(s) => Some(s.clone()),
                    _ => None,
                },
                None => None,
            }
        },
        _ => None,
    }
}

/// Splits a two-element operand array into the referenced dimension name and
/// the value operand, the positional complement of the variable reference.
pub fn get_variable_name_and_value(operands: &Vec<JsonValue>) -> (r: Result<
    (String, JsonValue),
    AppError,
>)
    ensures
        r is Ok <==> operand_pair(model_seq(operands@)) is Some,
        r matches Ok(p) ==> operand_pair(model_seq(operands@)) == Some((p.0@, p.1.model())),
        r matches Err(e) ==> e is BadArgument,
{
    broadcast use lemma_model_seq;

    if operands.len() != 2 {
        return Err(
            AppError::BadArgument(
                "operator must carry exactly two operands. Ensure the context provided obeys the rules of JSON logic".to_owned(),
            ),
        );
    }
    let ref0 = is_var_ref_exec(&operands[0]);
    let ref1 = is_var_ref_exec(&operands[1]);
    if ref0 == ref1 {
        return Err(
            AppError::BadArgument(
                "exactly one operand must be a variable reference. Ensure the context provided obeys the rules of JSON logic".to_owned(),
            ),
        );
    }
    let (var_pos, val_pos): (usize, usize) = if ref0 {
        (0, 1)
    } else {
        (1, 0)
    };
    match var_name_exec(&operands[var_pos]) {
        Some(name) => Ok((name, operands[val_pos].deep_copy())),
        None => Err(
            AppError::BadArgument(
                "failed to get variable name as string. Ensure the context provided obeys the rules of JSON logic".to_owned(),
            ),
        ),
    }
}

/// The order of the two operands in a condition does not matter: the
/// variable reference names the dimension and the other operand is the
/// value, whichever position each occupies.
pub proof fn lemma_operand_order_irrelevant(a: JsonModel, b: JsonModel)
    ensures
        operand_pair(seq![a, b]) == operand_pair(seq![b, a]),
{
}

/// When neither operand is a variable reference, the condition entry is
/// rejected.
pub proof fn lemma_neither_operand_var_ref(ops: Seq<JsonModel>)
    requires
        forall|i: int| 0 <= i < ops.len() ==> !is_var_ref(#[trigger] ops[i]),
    ensures
        operand_pair(ops) is None,
{
}

/// A condition with one malformed operator entry is rejected as a whole.
pub proof fn lemma_condition_pairs_none(ms: Seq<(Seq<char>, JsonModel)>, j: int)
    requires
        0 <= j < ms.len(),
        match ms[j].1 {
            JsonModel::Arr(ops) => operand_pair(ops) is None,
            _ => true,
        },
    ensures
        condition_pairs(ms) is None,
    decreases j,
{
    if j > 0 {
        match ms[0].1 {
            JsonModel::Arr(ops) => {
                if operand_pair(ops) is Some {
                    assert(ms.drop_first()[j - 1] == ms[j]);
                    lemma_condition_pairs_none(ms.drop_first(), j - 1);
                }
            },
            _ => {},
        }
    }
}

/// A condition list with one rejected condition is rejected as a whole.
pub proof fn lemma_conditions_pairs_none(cs: Seq<JsonModel>, j: int)
    requires
        0 <= j < cs.len(),
        condition_obj_pairs(cs[j]) is None,
    ensures
        conditions_pairs(cs) is None,
    decreases j,
{
    if j > 0 {
        if condition_obj_pairs(cs[0]) is Some {
            assert(cs.drop_first()[j - 1] == cs[j]);
            lemma_conditions_pairs_none(cs.drop_first(), j - 1);
        }
    }
}

/// Each operator of a condition yields exactly one dimension tuple.
pub proof fn lemma_condition_pairs_len(ms: Seq<(Seq<char>, JsonModel)>)
    requires
        condition_pairs(ms) is Some,
    ensures
        condition_pairs(ms).unwrap().len() == ms.len(),
    decreases ms,
{
    if ms.len() > 0 {
        lemma_condition_pairs_len(ms.drop_first());
    }
}

/// A list of single-operator conditions yields exactly one dimension tuple
/// per condition.
pub proof fn lemma_conditions_pairs_len(cs: Seq<JsonModel>)
    requires
        conditions_pairs(cs) is Some,
        forall|i: int| 0 <= i < cs.len() ==> (#[trigger] cs[i])->Obj_0.len() == 1,
    ensures
        conditions_pairs(cs).unwrap().len() == cs.len(),
    decreases cs,
{
    if cs.len() > 0 {
        lemma_condition_pairs_len(cs[0]->Obj_0);
        lemma_conditions_pairs_len(cs.drop_first());
    }
}

/// De-duplication leaves a mapping whose keys are pairwise distinct
/// unchanged.
pub proof fn lemma_dedup_distinct(ps: Seq<(Seq<char>, JsonModel)>)
    requires
        forall|i: int, j: int| 0 <= i < j < ps.len() ==> ps[i].0 != ps[j].0,
    ensures
        dedup_pairs(ps) == ps,
    decreases ps,
{
    if ps.len() > 0 {
        lemma_dedup_distinct(ps.drop_last());
        lemma_find_key(ps.drop_last(), ps.last().0);
        assert(find_key(ps.drop_last(), ps.last().0) == -1) by {
            assert(forall|i: int| 0 <= i < ps.len() - 1 ==> #[trigger] ps.drop_last()[i].0
                != ps.last().0);
        }
        assert(dedup_pairs(ps) =~= ps);
    }
}

/// A flat context of `n` single-operator conditions with pairwise-distinct
/// dimension names extracts to exactly `n` dimension tuples.
pub proof fn lemma_extract_flat_count(ms: Seq<(Seq<char>, JsonModel)>, cs: Seq<JsonModel>)
    requires
        lookup(ms, "and"@) == Some(JsonModel::Arr(cs)),
        conditions_pairs(cs) is Some,
        forall|i: int| 0 <= i < cs.len() ==> (#[trigger] cs[i])->Obj_0.len() == 1,
        forall|i: int, j: int| 0 <= i < j < cs.len() ==> conditions_pairs(cs).unwrap()[i].0
            != conditions_pairs(cs).unwrap()[j].0,
    ensures
        extract_model(JsonModel::Obj(ms)) == Some(conditions_pairs(cs).unwrap()),
        extract_model(JsonModel::Obj(ms)).unwrap().len() == cs.len(),
{
    lemma_conditions_pairs_len(cs);
    lemma_dedup_distinct(conditions_pairs(cs).unwrap());
}

/// The dimension pairs of one condition object's members from `start` on.
fn condition_pairs_from(ms: &Vec<(String, JsonValue)>, start: usize) -> (r: Result<
    Vec<(String, JsonValue)>,
    AppError,
>)
    requires
        start <= ms@.len(),
    ensures
        r is Ok <==> condition_pairs(model_members(ms@).skip(start as int)) is Some,
        r matches Ok(ps) ==> condition_pairs(model_members(ms@).skip(start as int)) == Some(
            model_members(ps@),
        ),
        r matches Err(e) ==> e is BadArgument,
    decreases ms@.len() - start,
{
    broadcast use lemma_model_members, lemma_model_seq;

    let ghost m = model_members(ms@);
    let ghost s = m.skip(start as int);
    if start == ms.len() {
        let out: Vec<(String, JsonValue)> = Vec::new();
        proof {
            assert(s =~= Seq::empty());
            assert(model_members(out@) =~= Seq::<(Seq<char>, JsonModel)>::empty());
        }
        return Ok(out);
    }
    proof {
        assert(s[0] == m[start as int]);
        assert(s.drop_first() =~= m.skip(start as int + 1));
    }
    match &ms[start].1 {
        JsonValue::Arr(ops) => {
            match get_variable_name_and_value(ops) {
                Ok(p) => {
                    match condition_pairs_from(ms, start + 1) {
                        Ok(mut rest) => {
                            let ghost rest0 = rest@;
                            rest.insert(0, p);
                            proof {
                                assert(model_members(rest@) =~= seq![
                                    (p.0@, p.1.model()),
                                ] + model_members(rest0));
                            }
                            Ok(rest)
                        },
                        Err(e) => Err(e),
                    }
                },
                Err(e) => Err(e),
            }
        },
        _ => Err(
            AppError::BadArgument(
                "failed to parse operands as an array. Ensure the context provided obeys the rules of JSON logic".to_owned(),
            ),
        ),
    }
}

/// The concatenated dimension pairs of the conditions from `start` on.
fn conditions_pairs_from(conds: &Vec<JsonValue>, start: usize) -> (r: Result<
    Vec<(String, JsonValue)>,
    AppError,
>)
    requires
        start <= conds@.len(),
    ensures
        r is Ok <==> conditions_pairs(model_seq(conds@).skip(start as int)) is Some,
        r matches Ok(ps) ==> conditions_pairs(model_seq(conds@).skip(start as int)) == Some(
            model_members(ps@),
        ),
        r matches Err(e) ==> e is BadArgument,
    decreases conds@.len() - start,
{
    broadcast use lemma_model_members, lemma_model_seq;

    let ghost m = model_seq(conds@);
    let ghost s = m.skip(start as int);
    if start == conds.len() {
        let out: Vec<(String, JsonValue)> = Vec::new();
        proof {
            assert(s =~= Seq::empty());
            assert(model_members(out@) =~= Seq::<(Seq<char>, JsonModel)>::empty());
        }
        return Ok(out);
    }
    proof {
        assert(s[0] == m[start as int]);
        assert(s.drop_first() =~= m.skip(start as int + 1));
    }
    match &conds[start] {
        JsonValue::Obj(cms) => {
            proof {
                assert(model_members(cms@).skip(0) =~= model_members(cms@));
            }
            match condition_pairs_from(cms, 0) {
                Ok(mut first) => {
                    match conditions_pairs_from(conds, start + 1) {
                        Ok(mut rest) => {
                            let ghost first0 = first@;
                            let ghost rest0 = rest@;
                            first.append(&mut rest);
                            proof {
                                assert(model_members(first@) =~= model_members(first0)
                                    + model_members(rest0));
                            }
                            Ok(first)
                        },
                        Err(e) => Err(e),
                    }
                },
                Err(e) => Err(e),
            }
        },
        _ => Err(
            AppError::BadArgument(
                "failed to parse condition as an object. Ensure the context provided obeys the rules of JSON logic".to_owned(),
            ),
        ),
    }
}

/// De-duplicates discovered pairs by key: a repeated dimension name keeps
/// its first position and takes its latest value.
fn dedup_exec(pairs: &Vec<(String, JsonValue)>) -> (r: Vec<(String, JsonValue)>)
    ensures
        model_members(r@) == dedup_pairs(model_members(pairs@)),
{
    broadcast use lemma_model_members;

    let ghost m = model_members(pairs@);
    let mut out: Vec<(String, JsonValue)> = Vec::new();
    let n = pairs.len();
    proof {
        assert(m.take(0) =~= Seq::empty());
        assert(model_members(out@) =~= Seq::<(Seq<char>, JsonModel)>::empty());
    }
    for idx in 0..n
        invariant
            n == pairs@.len(),
            m == model_members(pairs@),
            model_members(out@) == dedup_pairs(m.take(idx as int)),
    {
        let k = pairs[idx].0.clone();
        let v = pairs[idx].1.deep_copy();
        let ghost out0 = out@;
        let ghost p = (pairs@[idx as int].0@, pairs@[idx as int].1.model());
        proof {
            lemma_model_members(pairs@);
            lemma_model_members(out@);
            lemma_find_key(model_members(out@), k@);
        }
        match obj_find(&out, &k) {
            Some(j) => {
                proof {
                    assert(find_key(model_members(out0), k@) == j as int);
                    assert(j < out0.len());
                }
                out.remove(j);
                out.insert(j, (k, v));
                proof {
                    lemma_model_members(out@);
                    assert(out@ =~= out0.update(j as int, (out@[j as int].0, out@[j as int].1)));
                    assert(model_members(out@) =~= model_members(out0).update(j as int, p));
                }
            },
            None => {
                out.push((k, v));
                proof {
                    lemma_model_members(out@);
                    assert(model_members(out@) =~= model_members(out0).push(p));
                }
            },
        }
        proof {
            assert(m.take(idx + 1).drop_last() =~= m.take(idx as int));
            assert(m.take(idx + 1).last() == m[idx as int]);
            assert(m[idx as int] == p);
            assert(model_members(out@) == upsert(dedup_pairs(m.take(idx as int)), p.0, p.1));
        }
    }
    proof {
        assert(m.take(n as int) =~= m);
    }
    out
}

/// Extracts the ordered dimension mapping of a JSON-logic context: the
/// conditions under an `and` key, or the sole root condition, decomposed
/// into dimension name/value pairs and de-duplicated by name with the later
/// value winning. Fails with `BadArgument` exactly on malformed contexts.
pub fn extract_dimensions(context_json: &JsonValue) -> (r: Result<Vec<(String, JsonValue)>, AppError>)
    ensures
        r is Ok <==> extract_model(context_json.model()) is Some,
        r matches Ok(dims) ==> extract_model(context_json.model()) == Some(model_members(dims@)),
        r matches Err(e) ==> e is BadArgument,
{
    broadcast use lemma_model_members, lemma_model_seq;

    match context_json {
        JsonValue::Obj(ms) => {
            let key: String = "and".to_owned();
            proof {
                lemma_find_key(model_members(ms@), key@);
            }
            match obj_find(ms, &key) {
                Some(i) => match &ms[i].1 {
                    JsonValue::Arr(conds) => {
                        proof {
                            assert(model_seq(conds@).skip(0) =~= model_seq(conds@));
                        }
                        match conditions_pairs_from(conds, 0) {
                            Ok(ps) => Ok(dedup_exec(&ps)),
                            Err(e) => Err(e),
                        }
                    },
                    _ => Err(
                        AppError::BadArgument(
                            "failed parsing conditions as an array. Ensure the context provided obeys the rules of JSON logic".to_owned(),
                        ),
                    ),
                },
                None => {
                    proof {
                        assert(model_members(ms@).skip(0) =~= model_members(ms@));
                    }
                    match condition_pairs_from(ms, 0) {
                        Ok(ps) => Ok(dedup_exec(&ps)),
                        Err(e) => Err(e),
                    }
                },
            }
        },
        _ => Err(
            AppError::BadArgument(
                "context not a valid JSON object. Provide a valid JSON context".to_owned(),
            ),
        ),
    }
}

} // verus!
