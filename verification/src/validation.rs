//! Validation of experiment-creation requests.
//!
//! All checks are pure and run before any remote or persistent side effect:
//! the variant-type cardinality rule (exactly one CONTROL, at least one
//! EXPERIMENTAL), the override-coverage rule (every variant overrides at
//! least the declared keys), and the context-shape rule (the base context
//! is a JSON object).

use vstd::prelude::*;
use crate::errors::AppError;
use crate::experiments::{ExperimentCreateRequest, Variant, VariantType};
use crate::json::JsonValue;

verus! {

/// How many variants of the list are CONTROL variants.
pub open spec fn control_count(vs: Seq<Variant>) -> int
    decreases vs,
{
    if vs.len() == 0 {
        0
    } else {
        control_count(vs.drop_last()) + if vs.last().variant_type == VariantType::CONTROL {
            1int
        } else {
            0int
        }
    }
}

/// How many variants of the list are EXPERIMENTAL variants.
pub open spec fn experimental_count(vs: Seq<Variant>) -> int
    decreases vs,
{
    if vs.len() == 0 {
        0
    } else {
        experimental_count(vs.drop_last()) + if vs.last().variant_type
            == VariantType::EXPERIMENTAL {
            1int
        } else {
            0int
        }
    }
}

/// Whether an override mapping carries the given key.
pub open spec fn has_key(ov: Seq<(String, JsonValue)>, k: Seq<char>) -> bool {
    exists|i: int| 0 <= i < ov.len() && #[trigger] ov[i].0@ == k
}

/// The declared keys that an override mapping does not carry, in order.
pub open spec fn missing_keys(ov: Seq<(String, JsonValue)>, keys: Seq<Seq<char>>) -> Seq<Seq<char>>
    decreases keys,
{
    if keys.len() == 0 {
        Seq::empty()
    } else {
        missing_keys(ov, keys.drop_last()) + if has_key(ov, keys.last()) {
            Seq::empty()
        } else {
            seq![keys.last()]
        }
    }
}

/// Whether a variant's overrides cover every declared key.
pub open spec fn variant_covers(v: Variant, keys: Seq<Seq<char>>) -> bool {
    forall|j: int| 0 <= j < keys.len() ==> has_key(v.overrides@, #[trigger] keys[j])
}

/// Whether every variant covers every declared key.
pub open spec fn all_variants_cover(vs: Seq<Variant>, keys: Seq<Seq<char>>) -> bool {
    forall|i: int| 0 <= i < vs.len() ==> variant_covers(#[trigger] vs[i], keys)
}

/// The views of a list of key strings.
pub open spec fn key_views(keys: Seq<String>) -> Seq<Seq<char>> {
    keys.map_values(|k: String| k@)
}

/// A variant covers the declared keys exactly when it misses none of them.
pub proof fn lemma_covers_iff_no_missing(v: Variant, keys: Seq<Seq<char>>)
    ensures
        variant_covers(v, keys) <==> missing_keys(v.overrides@, keys).len() == 0,
    decreases keys,
{
    if keys.len() > 0 {
        lemma_covers_iff_no_missing(v, keys.drop_last());
        assert(forall|j: int| 0 <= j < keys.len() - 1 ==> keys.drop_last()[j] == keys[j]);
        if missing_keys(v.overrides@, keys).len() == 0 {
            assert(forall|j: int| 0 <= j < keys.len() - 1 ==> has_key(
                v.overrides@,
                #[trigger] keys[j],
            ));
        }
    }
}

/// Checks the variant-type cardinality rule: exactly one CONTROL variant
/// and at least one EXPERIMENTAL variant.
pub fn check_variant_types(variants: &Vec<Variant>) -> (r: Result<(), AppError>)
    ensures
        r is Ok <==> control_count(variants@) == 1 && experimental_count(variants@) >= 1,
        r matches Err(e) ==> e is ValidationError,
{
    let mut control: usize = 0;
    let mut experimental: usize = 0;
    let n = variants.len();
    for idx in 0..n
        invariant
            n == variants@.len(),
            control == control_count(variants@.take(idx as int)),
            experimental == experimental_count(variants@.take(idx as int)),
            control <= idx,
            experimental <= idx,
    {
        proof {
            assert(variants@.take(idx + 1).drop_last() =~= variants@.take(idx as int));
            assert(variants@.take(idx + 1).last() == variants@[idx as int]);
        }
        match variants[idx].variant_type {
            VariantType::CONTROL => {
                control = control + 1;
            },
            VariantType::EXPERIMENTAL => {
                experimental = experimental + 1;
            },
        }
    }
    proof {
        assert(variants@.take(n as int) =~= variants@);
    }
    if control != 1 {
        return Err(
            AppError::ValidationError(
                "experiment must have exactly 1 control variant".to_owned(),
            ),
        );
    }
    if experimental < 1 {
        return Err(
            AppError::ValidationError(
                "experiment must have atleast 1 experimental variant".to_owned(),
            ),
        );
    }
    Ok(())
}

/// The declared keys that a variant's overrides do not carry.
pub fn missing_override_keys(variant: &Variant, override_keys: &Vec<String>) -> (r: Vec<String>)
    ensures
        key_views(r@) == missing_keys(variant.overrides@, key_views(override_keys@)),
{
    let ghost keys = key_views(override_keys@);
    let mut out: Vec<String> = Vec::new();
    let n = override_keys.len();
    proof {
        assert(keys.take(0) =~= Seq::empty());
        assert(key_views(out@) =~= Seq::<Seq<char>>::empty());
    }
    for idx in 0..n
        invariant
            n == override_keys@.len(),
            keys == key_views(override_keys@),
            keys.len() == n,
            key_views(out@) == missing_keys(variant.overrides@, keys.take(idx as int)),
    {
        let mut found = false;
        let m = variant.overrides.len();
        for j in 0..m
            invariant
                m == variant.overrides@.len(),
                n == override_keys@.len(),
                idx < n,
                found ==> has_key(variant.overrides@, override_keys@[idx as int]@),
                !found ==> forall|l: int| 0 <= l < j ==> variant.overrides@[l].0@
                    != override_keys@[idx as int]@,
        {
            if variant.overrides[j].0.eq(&override_keys[idx]) {
                found = true;
            }
        }
        let ghost out0 = out@;
        if !found {
            out.push(override_keys[idx].clone());
        }
        proof {
            assert(keys.take(idx + 1).drop_last() =~= keys.take(idx as int));
            assert(keys.take(idx + 1).last() == keys[idx as int]);
            assert(keys[idx as int] == override_keys@[idx as int]@);
            if found {
                assert(out@ == out0);
                assert(key_views(out@) =~= missing_keys(variant.overrides@, keys.take(idx + 1)));
            } else {
                assert(!has_key(variant.overrides@, keys[idx as int]));
                assert(key_views(out@) =~= key_views(out0).push(keys[idx as int]));
                assert(key_views(out@) =~= missing_keys(variant.overrides@, keys.take(idx + 1)));
            }
        }
    }
    proof {
        assert(keys.take(n as int) =~= keys);
    }
    out
}

/// Checks the override-coverage rule: every variant's override keys are a
/// superset of the experiment's declared override keys.
pub fn check_variants_override_coverage(variants: &Vec<Variant>, override_keys: &Vec<String>) -> (r:
    bool)
    ensures
        r == all_variants_cover(variants@, key_views(override_keys@)),
{
    let ghost keys = key_views(override_keys@);
    let n = variants.len();
    for idx in 0..n
        invariant
            n == variants@.len(),
            keys == key_views(override_keys@),
            forall|i: int| 0 <= i < idx ==> variant_covers(#[trigger] variants@[i], keys),
    {
        let missing = missing_override_keys(&variants[idx], override_keys);
        proof {
            lemma_covers_iff_no_missing(variants@[idx as int], keys);
        }
        if missing.len() > 0 {
            proof {
                assert(key_views(missing@).len() == missing@.len());
            }
            return false;
        }
        proof {
            assert(key_views(missing@).len() == missing@.len());
        }
    }
    true
}

/// Checks that the base targeting context is a JSON object.
pub fn check_context_shape(context: &JsonValue) -> (r: Result<(), AppError>)
    ensures
        r is Ok <==> context.model() is Obj,
        r matches Err(e) ==> e is BadArgument,
{
    match context {
        JsonValue::Obj(_) => Ok(()),
        _ => Err(
            AppError::BadArgument("context should be map of key value pairs".to_owned()),
        ),
    }
}

/// Checks the request-level invariant enforced by the submission form: the
/// experiment's name must not be empty.
pub fn validate_experiment(experiment: &ExperimentCreateRequest) -> (r: Result<bool, String>)
    ensures
        r is Ok <==> experiment.name@.len() > 0,
        r matches Ok(b) ==> b,
        r matches Err(m) ==> m@ == "experiment name should not be empty"@,
{
    if experiment.name.as_str().is_empty() {
        return Err("experiment name should not be empty".to_owned());
    }
    Ok(true)
}

} // verus!
