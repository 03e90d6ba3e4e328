//! A model of JSON values.
//!
//! Targeting contexts, overrides and the bulk-operation protocol all move
//! JSON around, and the extraction and validation logic reads inside those
//! values, so the library carries its own JSON representation. Numbers are
//! held as 64-bit integers; object members keep their order of appearance.

use vstd::prelude::*;

verus! {

/// The mathematical shape of a JSON value, used in contracts.
pub ghost enum JsonModel {
    Null,
    Bool(bool),
    Int(int),
    Str(Seq<char>),
    Arr(Seq<JsonModel>),
    Obj(Seq<(Seq<char>, JsonModel)>),
}

/// A JSON value. Object members are an association list in order of
/// appearance.
#[derive(Debug)]
pub enum JsonValue {
    Null,
    Bool(bool),
    Int(i64),
    Str(String),
    Arr(Vec<JsonValue>),
    Obj(Vec<(String, JsonValue)>),
}

/// The models of a sequence of JSON values, element by element.
pub open spec fn model_seq(items: Seq<JsonValue>) -> Seq<JsonModel>
    decreases items,
{
    if items.len() == 0 {
        Seq::empty()
    } else {
        seq![items[0].model()] + model_seq(items.drop_first())
    }
}

/// The models of a sequence of object members, element by element.
pub open spec fn model_members(members: Seq<(String, JsonValue)>) -> Seq<(Seq<char>, JsonModel)>
    decreases members,
{
    if members.len() == 0 {
        Seq::empty()
    } else {
        proof {
            assert(decreases_to!(members => members[0]));
            assert(decreases_to!(members[0] => members[0].1));
        }
        seq![(members[0].0@, members[0].1.model())] + model_members(members.drop_first())
    }
}

impl JsonValue {
    /// The model of this value.
    pub open spec fn model(self) -> JsonModel
        decreases self,
    {
        match self {
            JsonValue::Null => JsonModel::Null,
            JsonValue::Bool(b) => JsonModel::Bool(b),
            JsonValue::Int(i) => JsonModel::Int(i as int),
            JsonValue::Str(s) => JsonModel::Str(s@),
            JsonValue::Arr(items) => {
                proof {
                    assert(decreases_to!(self => items));
                    assert(decreases_to!(items => items@));
                }
                JsonModel::Arr(model_seq(items@))
            },
            JsonValue::Obj(members) => {
                proof {
                    assert(decreases_to!(self => members));
                    assert(decreases_to!(members => members@));
                }
                JsonModel::Obj(model_members(members@))
            },
        }
    }
}

/// The index of the first member with the given key, or -1 when no member
/// has it.
pub open spec fn find_key(members: Seq<(Seq<char>, JsonModel)>, key: Seq<char>) -> int
    decreases members,
{
    if members.len() == 0 {
        -1
    } else if members[0].0 == key {
        0
    } else if find_key(members.drop_first(), key) < 0 {
        -1
    } else {
        find_key(members.drop_first(), key) + 1
    }
}

/// The value of the first member with the given key, if any.
pub open spec fn lookup(members: Seq<(Seq<char>, JsonModel)>, key: Seq<char>) -> Option<JsonModel> {
    if find_key(members, key) >= 0 {
        Some(members[find_key(members, key)].1)
    } else {
        None
    }
}

/// `find_key` returns the first index holding the key, and -1 exactly when
/// the key is absent.
pub proof fn lemma_find_key(members: Seq<(Seq<char>, JsonModel)>, key: Seq<char>)
    ensures
        find_key(members, key) == -1 <==> (forall|i: int|
            0 <= i < members.len() ==> members[i].0 != key),
        find_key(members, key) >= 0 ==> 0 <= find_key(members, key) < members.len()
            && members[find_key(members, key)].0 == key && (forall|i: int|
            0 <= i < find_key(members, key) ==> members[i].0 != key),
    decreases members.len(),
{
    if members.len() > 0 && members[0].0 != key {
        lemma_find_key(members.drop_first(), key);
        assert forall|i: int| 1 <= i < members.len() implies members.drop_first()[i - 1]
            == members[i] by {}
    }
}

impl JsonValue {
    /// A structurally equal copy of this value.
    pub fn deep_copy(&self) -> (r: JsonValue)
        ensures
            r.model() == self.model(),
        decreases self,
    {
        match self {
            JsonValue::Null => JsonValue::Null,
            JsonValue::Bool(b) => JsonValue::Bool(*b),
            JsonValue::Int(i) => JsonValue::Int(*i),
            JsonValue::Str(s) => JsonValue::Str(s.clone()),
            JsonValue::Arr(items) => {
                let mut out: Vec<JsonValue> = Vec::new();
                let n = items.len();
                for idx in 0..n
                    invariant
                        *self is Arr,
                        items@ == self->Arr_0@,
                        n == items@.len(),
                        out@.len() == idx,
                        forall|j: int| 0 <= j < idx ==> out@[j].model() == items@[j].model(),
                {
                    proof {
                        let g: JsonValue = *self;
                        assert(decreases_to!(g => g->Arr_0));
                        assert(decreases_to!(g->Arr_0 => g->Arr_0@));
                        assert(decreases_to!(g->Arr_0@ => g->Arr_0@[idx as int]));
                        assert(g->Arr_0@[idx as int] == items@[idx as int]);
                    }
                    out.push(items[idx].deep_copy());
                }
                proof {
                    lemma_model_seq(out@);
                    lemma_model_seq(items@);
                    assert(model_seq(out@) =~= model_seq(items@));
                }
                JsonValue::Arr(out)
            },
            JsonValue::Obj(members) => {
                let mut out: Vec<(String, JsonValue)> = Vec::new();
                let n = members.len();
                for idx in 0..n
                    invariant
                        *self is Obj,
                        members@ == self->Obj_0@,
                        n == members@.len(),
                        out@.len() == idx,
                        forall|j: int| 0 <= j < idx ==> out@[j].0@ == members@[j].0@
                            && out@[j].1.model() == members@[j].1.model(),
                {
                    proof {
                        let g: JsonValue = *self;
                        assert(decreases_to!(g => g->Obj_0));
                        assert(decreases_to!(g->Obj_0 => g->Obj_0@));
                        assert(decreases_to!(g->Obj_0@ => g->Obj_0@[idx as int]));
                        assert(decreases_to!(g->Obj_0@[idx as int] => g->Obj_0@[idx as int].1));
                        assert(g->Obj_0@[idx as int] == members@[idx as int]);
                    }
                    let entry = &members[idx];
                    out.push((entry.0.clone(), entry.1.deep_copy()));
                }
                proof {
                    lemma_model_members(out@);
                    lemma_model_members(members@);
                    assert(model_members(out@) =~= model_members(members@));
                }
                JsonValue::Obj(out)
            },
        }
    }
}

/// A copy of an object member list: keys kept exactly, values structurally
/// equal.
pub fn copy_members(members: &Vec<(String, JsonValue)>) -> (r: Vec<(String, JsonValue)>)
    ensures
        r@.len() == members@.len(),
        forall|i: int| 0 <= i < members@.len() ==> (#[trigger] r@[i]).0 == members@[i].0
            && r@[i].1.model() == members@[i].1.model(),
        model_members(r@) == model_members(members@),
{
    let mut out: Vec<(String, JsonValue)> = Vec::new();
    let n = members.len();
    for idx in 0..n
        invariant
            n == members@.len(),
            out@.len() == idx,
            forall|j: int| 0 <= j < idx ==> (#[trigger] out@[j]).0 == members@[j].0
                && out@[j].1.model() == members@[j].1.model(),
    {
        let entry = &members[idx];
        out.push((entry.0.clone(), entry.1.deep_copy()));
        proof {
            assert(out@[idx as int].0 == members@[idx as int].0);
            assert(out@[idx as int].1.model() == members@[idx as int].1.model());
        }
    }
    proof {
        lemma_model_members(out@);
        lemma_model_members(members@);
        assert(model_members(out@) =~= model_members(members@));
    }
    out
}

/// A copy of a value list, element by element.
pub fn copy_values(items: &Vec<JsonValue>) -> (r: Vec<JsonValue>)
    ensures
        r@.len() == items@.len(),
        forall|i: int| 0 <= i < items@.len() ==> (#[trigger] r@[i]).model() == items@[i].model(),
        model_seq(r@) == model_seq(items@),
{
    let mut out: Vec<JsonValue> = Vec::new();
    let n = items.len();
    for idx in 0..n
        invariant
            n == items@.len(),
            out@.len() == idx,
            forall|j: int| 0 <= j < idx ==> (#[trigger] out@[j]).model() == items@[j].model(),
    {
        out.push(items[idx].deep_copy());
    }
    proof {
        lemma_model_seq(out@);
        lemma_model_seq(items@);
        assert(model_seq(out@) =~= model_seq(items@));
    }
    out
}

/// Finds the first member carrying the given key.
pub fn obj_find(members: &Vec<(String, JsonValue)>, key: &String) -> (r: Option<usize>)
    ensures
        match r {
            Some(i) => find_key(model_members(members@), key@) == i as int,
            None => find_key(model_members(members@), key@) == -1,
        },
{
    proof {
        lemma_model_members(members@);
        lemma_find_key(model_members(members@), key@);
    }
    let n = members.len();
    for idx in 0..n
        invariant
            n == members@.len(),
            model_members(members@).len() == n,
            forall|j: int| 0 <= j < members@.len() ==> #[trigger] model_members(members@)[j]
                == (members@[j].0@, members@[j].1.model()),
            forall|j: int| 0 <= j < idx ==> members@[j].0@ != key@,
            find_key(model_members(members@), key@) == -1 <==> (forall|i: int|
                0 <= i < members@.len() ==> model_members(members@)[i].0 != key@),
            find_key(model_members(members@), key@) >= 0 ==> 0 <= find_key(
                model_members(members@),
                key@,
            ) < members@.len() && model_members(members@)[find_key(model_members(members@), key@)].0
                == key@ && (forall|i: int|
                0 <= i < find_key(model_members(members@), key@) ==> model_members(members@)[i].0
                    != key@),
    {
        if members[idx].0.eq(key) {
            proof {
                let ms = model_members(members@);
                assert(ms[idx as int].0 == key@);
                assert forall|j: int| 0 <= j < idx implies ms[j].0 != key@ by {
                    assert(ms[j] == (members@[j].0@, members@[j].1.model()));
                }
                assert(find_key(ms, key@) != -1);
                assert(find_key(ms, key@) == idx as int);
            }
            return Some(idx);
        }
    }
    None
}

/// `model_seq` maps the sequence pointwise.
pub broadcast proof fn lemma_model_seq(items: Seq<JsonValue>)
    ensures
        (#[trigger] model_seq(items)).len() == items.len(),
        forall|i: int| 0 <= i < items.len() ==> model_seq(items)[i] == items[i].model(),
    decreases items.len(),
{
    if items.len() > 0 {
        lemma_model_seq(items.drop_first());
    }
}

/// `model_members` maps the member list pointwise.
pub broadcast proof fn lemma_model_members(members: Seq<(String, JsonValue)>)
    ensures
        (#[trigger] model_members(members)).len() == members.len(),
        forall|i: int| 0 <= i < members.len() ==> model_members(members)[i] == (
            members[i].0@,
            members[i].1.model(),
        ),
    decreases members.len(),
{
    if members.len() > 0 {
        lemma_model_members(members.drop_first());
    }
}

} // verus!
