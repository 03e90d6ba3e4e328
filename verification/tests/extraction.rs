use experimentation::dimensions::{extract_dimensions, get_variable_name_and_value};
use experimentation::errors::AppError;
use experimentation::json::JsonValue;
use experimentation::validation::{
    check_context_shape, check_variant_types, check_variants_override_coverage,
    missing_override_keys, validate_experiment,
};
use experimentation::experiments::{ExperimentCreateRequest, Variant, VariantType};

fn obj(members: Vec<(&str, JsonValue)>) -> JsonValue {
    JsonValue::Obj(members.into_iter().map(|(k, v)| (k.to_string(), v)).collect())
}

fn var_ref(name: &str) -> JsonValue {
    obj(vec![("var", JsonValue::Str(name.to_string()))])
}

fn eq_condition(name: &str, value: JsonValue) -> JsonValue {
    obj(vec![("==", JsonValue::Arr(vec![var_ref(name), value]))])
}

fn jv_eq(a: &JsonValue, b: &JsonValue) -> bool {
    match (a, b) {
        (JsonValue::Null, JsonValue::Null) => true,
        (JsonValue::Bool(x), JsonValue::Bool(y)) => x == y,
        (JsonValue::Int(x), JsonValue::Int(y)) => x == y,
        (JsonValue::Str(x), JsonValue::Str(y)) => x == y,
        (JsonValue::Arr(xs), JsonValue::Arr(ys)) => {
            xs.len() == ys.len() && xs.iter().zip(ys.iter()).all(|(x, y)| jv_eq(x, y))
        }
        (JsonValue::Obj(xs), JsonValue::Obj(ys)) => {
            xs.len() == ys.len()
                && xs.iter().zip(ys.iter()).all(|(x, y)| x.0 == y.0 && jv_eq(&x.1, &y.1))
        }
        _ => false,
    }
}

fn make_variant(id: &str, vt: VariantType, keys: Vec<(&str, i64)>) -> Variant {
    Variant {
        id: id.to_string(),
        variant_type: vt,
        overrides: keys
            .into_iter()
            .map(|(k, v)| (k.to_string(), JsonValue::Int(v)))
            .collect(),
        context_id: None,
        override_id: None,
    }
}

#[test]
fn extract_single_condition() {
    let ctx = eq_condition("city", JsonValue::Str("NY".to_string()));
    let dims = extract_dimensions(&ctx).unwrap();
    assert_eq!(dims.len(), 1);
    assert_eq!(dims[0].0, "city");
    assert!(jv_eq(&dims[0].1, &JsonValue::Str("NY".to_string())));
}

#[test]
fn extract_and_conditions_both_operand_orders() {
    // The first condition holds the variable first, the second holds it
    // second: both orders must extract the same way.
    let c1 = obj(vec![("==", JsonValue::Arr(vec![var_ref("a"), JsonValue::Int(1)]))]);
    let c2 = obj(vec![(">", JsonValue::Arr(vec![JsonValue::Int(2), var_ref("b")]))]);
    let ctx = obj(vec![("and", JsonValue::Arr(vec![c1, c2]))]);
    let dims = extract_dimensions(&ctx).unwrap();
    assert_eq!(dims.len(), 2);
    assert_eq!(dims[0].0, "a");
    assert!(jv_eq(&dims[0].1, &JsonValue::Int(1)));
    assert_eq!(dims[1].0, "b");
    assert!(jv_eq(&dims[1].1, &JsonValue::Int(2)));
}

#[test]
fn extract_duplicate_key_later_value_wins() {
    let c1 = eq_condition("os", JsonValue::Str("android".to_string()));
    let c2 = eq_condition("city", JsonValue::Str("NY".to_string()));
    let c3 = eq_condition("os", JsonValue::Str("ios".to_string()));
    let ctx = obj(vec![("and", JsonValue::Arr(vec![c1, c2, c3]))]);
    let dims = extract_dimensions(&ctx).unwrap();
    // The repeated key keeps its first position and takes the later value.
    assert_eq!(dims.len(), 2);
    assert_eq!(dims[0].0, "os");
    assert!(jv_eq(&dims[0].1, &JsonValue::Str("ios".to_string())));
    assert_eq!(dims[1].0, "city");
}

#[test]
fn extract_neither_operand_var_ref_fails() {
    let cond = obj(vec![("==", JsonValue::Arr(vec![JsonValue::Int(1), JsonValue::Int(2)]))]);
    let err = extract_dimensions(&cond).unwrap_err();
    assert!(matches!(err, AppError::BadArgument(_)));
}

#[test]
fn extract_both_operands_var_ref_fails() {
    let cond = obj(vec![("==", JsonValue::Arr(vec![var_ref("a"), var_ref("b")]))]);
    let err = extract_dimensions(&cond).unwrap_err();
    assert!(matches!(err, AppError::BadArgument(_)));
}

#[test]
fn extract_root_not_object_fails() {
    let err = extract_dimensions(&JsonValue::Arr(vec![])).unwrap_err();
    assert!(matches!(err, AppError::BadArgument(_)));
}

#[test]
fn extract_and_key_not_array_fails() {
    let ctx = obj(vec![("and", JsonValue::Int(3))]);
    let err = extract_dimensions(&ctx).unwrap_err();
    assert!(matches!(err, AppError::BadArgument(_)));
}

#[test]
fn extract_wrong_operand_count_fails() {
    let cond = obj(vec![("==", JsonValue::Arr(vec![var_ref("a")]))]);
    let err = extract_dimensions(&cond).unwrap_err();
    assert!(matches!(err, AppError::BadArgument(_)));
}

#[test]
fn variable_name_and_value_var_second() {
    let operands = vec![JsonValue::Int(7), var_ref("tier")];
    let (name, value) = get_variable_name_and_value(&operands).unwrap();
    assert_eq!(name, "tier");
    assert!(jv_eq(&value, &JsonValue::Int(7)));
}

#[test]
fn variant_types_exactly_one_control_passes() {
    let variants = vec![
        make_variant("ctrl", VariantType::CONTROL, vec![("a", 1)]),
        make_variant("v1", VariantType::EXPERIMENTAL, vec![("a", 2)]),
        make_variant("v2", VariantType::EXPERIMENTAL, vec![("a", 3)]),
    ];
    assert!(check_variant_types(&variants).is_ok());
}

#[test]
fn variant_types_no_control_fails() {
    let variants = vec![
        make_variant("v1", VariantType::EXPERIMENTAL, vec![("a", 2)]),
    ];
    let err = check_variant_types(&variants).unwrap_err();
    assert!(matches!(err, AppError::ValidationError(_)));
}

#[test]
fn variant_types_two_controls_fails() {
    let variants = vec![
        make_variant("c1", VariantType::CONTROL, vec![("a", 1)]),
        make_variant("c2", VariantType::CONTROL, vec![("a", 2)]),
        make_variant("v1", VariantType::EXPERIMENTAL, vec![("a", 3)]),
    ];
    assert!(check_variant_types(&variants).is_err());
}

#[test]
fn variant_types_no_experimental_fails() {
    let variants = vec![make_variant("ctrl", VariantType::CONTROL, vec![("a", 1)])];
    assert!(check_variant_types(&variants).is_err());
}

#[test]
fn coverage_superset_passes() {
    let variants = vec![
        make_variant("ctrl", VariantType::CONTROL, vec![("a", 1), ("b", 2)]),
        make_variant("v1", VariantType::EXPERIMENTAL, vec![("b", 3), ("a", 4), ("c", 5)]),
    ];
    let keys = vec!["a".to_string(), "b".to_string()];
    assert!(check_variants_override_coverage(&variants, &keys));
}

#[test]
fn coverage_strict_subset_fails_naming_missing_keys() {
    let v = make_variant("v1", VariantType::EXPERIMENTAL, vec![("a", 1)]);
    let keys = vec!["a".to_string(), "b".to_string(), "c".to_string()];
    let missing = missing_override_keys(&v, &keys);
    assert_eq!(missing, vec!["b".to_string(), "c".to_string()]);
    assert!(!check_variants_override_coverage(&vec![v], &keys));
}

#[test]
fn context_shape_object_required() {
    assert!(check_context_shape(&obj(vec![])).is_ok());
    let err = check_context_shape(&JsonValue::Str("x".to_string())).unwrap_err();
    assert!(matches!(err, AppError::BadArgument(_)));
}

#[test]
fn validate_experiment_rejects_empty_name() {
    let req = ExperimentCreateRequest {
        name: String::new(),
        override_keys: vec![],
        traffic_percentage: 0,
        context: obj(vec![]),
        variants: vec![],
    };
    assert_eq!(
        validate_experiment(&req).unwrap_err(),
        "experiment name should not be empty".to_string()
    );
    let named = ExperimentCreateRequest { name: "exp1".to_string(), ..req };
    assert_eq!(validate_experiment(&named).unwrap(), true);
}

#[test]
fn variant_types_empty_list_fails() {
    let variants: Vec<Variant> = vec![];
    assert!(check_variant_types(&variants).is_err());
}

#[test]
fn coverage_holds_vacuously_without_declared_keys() {
    let variants = vec![make_variant("v", VariantType::CONTROL, vec![])];
    assert!(check_variants_override_coverage(&variants, &vec![]));
}
