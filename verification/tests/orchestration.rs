use experimentation::client::{build_update_request, response_outcome};
use experimentation::errors::AppError;
use experimentation::experiments::{ExperimentCreateRequest, ExperimentStatusType, Variant, VariantType};
use experimentation::json::JsonValue;
use experimentation::orchestrator::{
    add_variant_dimension_to_ctx, attach_context_ids, build_experiment,
    prepare_experiment_creation,
};
use experimentation::protocol::{
    decode_bulk_response, decode_put_resp, decode_put_resp_array, encode_action,
    encode_bulk_response, encode_put_resp, ContextAction, ContextBulkResponse, MoveReq, PutReq,
    PutResp,
};
use experimentation::listing::{experiment_matches_filters, page_offset, ListFilters};
use experimentation::snowflake::{generate_snowflake_id, SnowflakeGenerator};

fn obj(members: Vec<(&str, JsonValue)>) -> JsonValue {
    JsonValue::Obj(members.into_iter().map(|(k, v)| (k.to_string(), v)).collect())
}

fn var_ref(name: &str) -> JsonValue {
    obj(vec![("var", JsonValue::Str(name.to_string()))])
}

fn eq_condition(name: &str, value: JsonValue) -> JsonValue {
    obj(vec![("==", JsonValue::Arr(vec![var_ref(name), value]))])
}

fn jv_eq(a: &JsonValue, b: &JsonValue) -> bool {
    match (a, b) {
        (JsonValue::Null, JsonValue::Null) => true,
        (JsonValue::Bool(x), JsonValue::Bool(y)) => x == y,
        (JsonValue::Int(x), JsonValue::Int(y)) => x == y,
        (JsonValue::Str(x), JsonValue::Str(y)) => x == y,
        (JsonValue::Arr(xs), JsonValue::Arr(ys)) => {
            xs.len() == ys.len() && xs.iter().zip(ys.iter()).all(|(x, y)| jv_eq(x, y))
        }
        (JsonValue::Obj(xs), JsonValue::Obj(ys)) => {
            xs.len() == ys.len()
                && xs.iter().zip(ys.iter()).all(|(x, y)| x.0 == y.0 && jv_eq(&x.1, &y.1))
        }
        _ => false,
    }
}

fn base_request() -> ExperimentCreateRequest {
    ExperimentCreateRequest {
        name: "exp1".to_string(),
        override_keys: vec!["a".to_string()],
        traffic_percentage: 10,
        context: eq_condition("city", JsonValue::Str("NY".to_string())),
        variants: vec![
            Variant {
                id: "ctrl".to_string(),
                variant_type: VariantType::CONTROL,
                overrides: vec![("a".to_string(), JsonValue::Int(1))],
                context_id: None,
                override_id: None,
            },
            Variant {
                id: "v1".to_string(),
                variant_type: VariantType::EXPERIMENTAL,
                overrides: vec![("a".to_string(), JsonValue::Int(2))],
                context_id: None,
                override_id: None,
            },
        ],
    }
}

fn expected_augmented_context(variant_id: &str) -> JsonValue {
    obj(vec![(
        "and",
        JsonValue::Arr(vec![
            eq_condition("city", JsonValue::Str("NY".to_string())),
            eq_condition("variant_id", JsonValue::Str(variant_id.to_string())),
        ]),
    )])
}

#[test]
fn add_variant_dimension_wraps_bare_condition() {
    let ctx = eq_condition("city", JsonValue::Str("NY".to_string()));
    let augmented = add_variant_dimension_to_ctx(&ctx, "7-ctrl".to_string()).unwrap();
    assert!(jv_eq(&augmented, &expected_augmented_context("7-ctrl")));
}

#[test]
fn add_variant_dimension_appends_to_and_list() {
    let c1 = eq_condition("os", JsonValue::Str("ios".to_string()));
    let ctx = obj(vec![("and", JsonValue::Arr(vec![c1.deep_copy()]))]);
    let augmented = add_variant_dimension_to_ctx(&ctx, "9-v1".to_string()).unwrap();
    let expected = obj(vec![(
        "and",
        JsonValue::Arr(vec![
            c1,
            eq_condition("variant_id", JsonValue::Str("9-v1".to_string())),
        ]),
    )]);
    assert!(jv_eq(&augmented, &expected));
}

#[test]
fn add_variant_dimension_rejects_scalar_context() {
    let err = add_variant_dimension_to_ctx(&JsonValue::Int(1), "x".to_string()).unwrap_err();
    assert!(matches!(err, AppError::BadArgument(_)));
}

#[test]
fn end_to_end_creation_example() {
    let request = base_request();
    let mut generator = SnowflakeGenerator::new(1);
    let experiment_id = generate_snowflake_id(&mut generator).unwrap();
    let id_text = experiment_id.to_string();

    let prepared = prepare_experiment_creation(&request, experiment_id).unwrap();
    assert_eq!(prepared.variants.len(), 2);
    assert_eq!(prepared.variants[0].id, format!("{id_text}-ctrl"));
    assert_eq!(prepared.variants[1].id, format!("{id_text}-v1"));
    assert_eq!(prepared.operations.len(), 2);
    for (i, suffix) in ["ctrl", "v1"].iter().enumerate() {
        match &prepared.operations[i] {
            ContextAction::PUT(put) => {
                let got_ctx = JsonValue::Obj(
                    put.context.iter().map(|(k, v)| (k.clone(), v.deep_copy())).collect(),
                );
                let want = expected_augmented_context(&format!("{id_text}-{suffix}"));
                assert!(jv_eq(&got_ctx, &want), "augmented context mismatch");
            }
            _ => panic!("expected a PUT operation"),
        }
    }

    // The store answers positionally, one result per submitted variant.
    let responses = vec![
        PutResp {
            context_id: "ctx-1".to_string(),
            override_id: "ovr-1".to_string(),
            priority: 5,
        },
        PutResp {
            context_id: "ctx-2".to_string(),
            override_id: "ovr-2".to_string(),
            priority: 6,
        },
    ];
    let updated = attach_context_ids(prepared.variants, &responses).unwrap();
    assert_eq!(updated[0].context_id, Some("ctx-1".to_string()));
    assert_eq!(updated[0].override_id, Some("ovr-1".to_string()));
    assert_eq!(updated[1].context_id, Some("ctx-2".to_string()));
    assert_eq!(updated[1].override_id, Some("ovr-2".to_string()));

    let experiment = build_experiment(
        &request,
        experiment_id,
        updated,
        "tester".to_string(),
        1700000000000,
    );
    assert_eq!(experiment.id, experiment_id);
    assert_eq!(experiment.name, "exp1".to_string());
    assert_eq!(experiment.created_by, "tester".to_string());
    assert!(experiment.last_modified_millis.is_none());
    assert!(matches!(experiment.status, ExperimentStatusType::CREATED));
    assert_eq!(experiment.variants.len(), 2);
}

#[test]
fn bulk_response_shorter_than_operations_fails() {
    let request = base_request();
    let prepared = prepare_experiment_creation(&request, 7).unwrap();
    let responses = vec![PutResp {
        context_id: "ctx-1".to_string(),
        override_id: "ovr-1".to_string(),
        priority: 1,
    }];
    let err = attach_context_ids(prepared.variants, &responses).unwrap_err();
    assert!(matches!(err, AppError::RemoteCallError(_)));
}

#[test]
fn bulk_response_longer_than_operations_fails() {
    let request = base_request();
    let prepared = prepare_experiment_creation(&request, 7).unwrap();
    let mk = |n: u32| PutResp {
        context_id: format!("c{n}"),
        override_id: format!("o{n}"),
        priority: 0,
    };
    let responses = vec![mk(1), mk(2), mk(3)];
    let err = attach_context_ids(prepared.variants, &responses).unwrap_err();
    assert!(matches!(err, AppError::RemoteCallError(_)));
}

#[test]
fn replaying_a_request_creates_two_distinct_experiments() {
    // No deduplication is expected: each submission mints its own id and
    // its own remote overrides.
    let mut generator = SnowflakeGenerator::new(2);
    let id1 = generate_snowflake_id(&mut generator).unwrap();
    let id2 = generate_snowflake_id(&mut generator).unwrap();
    assert_ne!(id1, id2);

    let first = prepare_experiment_creation(&base_request(), id1).unwrap();
    let second = prepare_experiment_creation(&base_request(), id2).unwrap();
    assert_ne!(first.variants[0].id, second.variants[0].id);
    assert_ne!(first.variants[1].id, second.variants[1].id);

    let e1 = build_experiment(&base_request(), id1, first.variants, "u".to_string(), 0);
    let e2 = build_experiment(&base_request(), id2, second.variants, "u".to_string(), 0);
    assert_ne!(e1.id, e2.id);
}

#[test]
fn prepare_rejects_invalid_cardinality() {
    let mut request = base_request();
    request.variants.remove(0);
    let err = prepare_experiment_creation(&request, 7).unwrap_err();
    assert!(matches!(err, AppError::ValidationError(_)));
}

#[test]
fn prepare_rejects_uncovered_override_keys() {
    let mut request = base_request();
    request.override_keys.push("zzz".to_string());
    let err = prepare_experiment_creation(&request, 7).unwrap_err();
    assert!(matches!(err, AppError::ValidationError(_)));
}

#[test]
fn encode_action_tags_all_variants_of_the_sum() {
    let put = ContextAction::PUT(PutReq {
        context: vec![("k".to_string(), JsonValue::Int(1))],
        overrides: vec![("o".to_string(), JsonValue::Int(2))],
    });
    match encode_action(&put) {
        JsonValue::Obj(ms) => {
            assert_eq!(ms.len(), 1);
            assert_eq!(ms[0].0, "PUT".to_string());
        }
        _ => panic!("PUT must encode to an object"),
    }
    let del = ContextAction::DELETE("ctx-9".to_string());
    match encode_action(&del) {
        JsonValue::Obj(ms) => {
            assert_eq!(ms[0].0, "DELETE".to_string());
            assert!(jv_eq(&ms[0].1, &JsonValue::Str("ctx-9".to_string())));
        }
        _ => panic!("DELETE must encode to an object"),
    }
    let mv = ContextAction::MOVE((
        "ctx-3".to_string(),
        MoveReq { context: vec![("k".to_string(), JsonValue::Int(1))] },
    ));
    match encode_action(&mv) {
        JsonValue::Obj(ms) => {
            assert_eq!(ms[0].0, "MOVE".to_string());
            assert!(matches!(ms[0].1, JsonValue::Arr(_)));
        }
        _ => panic!("MOVE must encode to an object"),
    }
}

#[test]
fn put_resp_round_trips_through_wire_shape() {
    let resp = PutResp {
        context_id: "ctx-1".to_string(),
        override_id: "ovr-1".to_string(),
        priority: -4,
    };
    let wire = encode_put_resp(&resp);
    let back = decode_put_resp(&wire).unwrap();
    assert_eq!(back.context_id, "ctx-1".to_string());
    assert_eq!(back.override_id, "ovr-1".to_string());
    assert_eq!(back.priority, -4);
}

#[test]
fn decode_put_resp_rejects_missing_member() {
    let wire = obj(vec![("context_id", JsonValue::Str("c".to_string()))]);
    let err = decode_put_resp(&wire).unwrap_err();
    assert!(matches!(err, AppError::RemoteCallError(_)));
}

#[test]
fn decode_put_resp_array_keeps_positions() {
    let mk = |n: i64| {
        encode_put_resp(&PutResp {
            context_id: format!("c{n}"),
            override_id: format!("o{n}"),
            priority: n as i32,
        })
    };
    let wire = JsonValue::Arr(vec![mk(1), mk(2)]);
    let decoded = decode_put_resp_array(&wire).unwrap();
    assert_eq!(decoded.len(), 2);
    assert_eq!(decoded[0].context_id, "c1".to_string());
    assert_eq!(decoded[1].context_id, "c2".to_string());
    let bad = JsonValue::Arr(vec![mk(1), JsonValue::Int(3)]);
    assert!(decode_put_resp_array(&bad).is_err());
    assert!(decode_put_resp_array(&JsonValue::Int(0)).is_err());
}

#[test]
fn update_request_keeps_ids_and_overrides() {
    let variants = vec![
        Variant {
            id: "7-ctrl".to_string(),
            variant_type: VariantType::CONTROL,
            overrides: vec![("a".to_string(), JsonValue::Int(1))],
            context_id: Some("c".to_string()),
            override_id: Some("o".to_string()),
        },
    ];
    let update = build_update_request(variants);
    assert_eq!(update.variants.len(), 1);
    assert_eq!(update.variants[0].id, "7-ctrl".to_string());
    assert_eq!(update.variants[0].overrides.len(), 1);
}

#[test]
fn response_outcome_maps_statuses() {
    assert_eq!(response_outcome(200, "body".to_string()), Ok("body".to_string()));
    assert_eq!(
        response_outcome(400, String::new()),
        Err("epxeriment data corrupt".to_string())
    );
    assert_eq!(
        response_outcome(500, String::new()),
        Err("Internal Server Error".to_string())
    );
}

#[test]
fn error_messages_surface_reason() {
    let err = AppError::ValidationError("experiment must have exactly 1 control variant".to_string());
    assert_eq!(err.message(), "experiment must have exactly 1 control variant");
}

#[test]
fn listing_filter_and_page_offset() {
    let request = base_request();
    let prepared = prepare_experiment_creation(&request, 11).unwrap();
    let experiment = build_experiment(&request, 11, prepared.variants, "u".to_string(), 500);
    let filters = ListFilters {
        status: vec![ExperimentStatusType::CREATED, ExperimentStatusType::CONCLUDED],
        from_date_millis: 0,
        to_date_millis: 1000,
        page: 3,
        count: 20,
    };
    assert!(experiment_matches_filters(&experiment, &filters));
    let outside = ListFilters { from_date_millis: 600, ..filters };
    assert!(!experiment_matches_filters(&experiment, &outside));
    let wrong_status = ListFilters {
        status: vec![ExperimentStatusType::INPROGRESS],
        from_date_millis: 0,
        to_date_millis: 1000,
        page: 1,
        count: 20,
    };
    assert!(!experiment_matches_filters(&experiment, &wrong_status));
    assert_eq!(page_offset(3, 20), Some(40));
    assert_eq!(page_offset(1, 20), Some(0));
    assert_eq!(page_offset(i64::MAX, 2), None);
}

#[test]
fn bulk_response_round_trips_every_tag() {
    let resp = PutResp {
        context_id: "ctx-1".to_string(),
        override_id: "ovr-1".to_string(),
        priority: 2,
    };
    let wire = encode_bulk_response(&ContextBulkResponse::PUT(resp));
    match decode_bulk_response(&wire).unwrap() {
        ContextBulkResponse::PUT(p) => assert_eq!(p.context_id, "ctx-1".to_string()),
        _ => panic!("wrong tag after round trip"),
    }
    let wire = encode_bulk_response(&ContextBulkResponse::DELETE("ctx-7".to_string()));
    match decode_bulk_response(&wire).unwrap() {
        ContextBulkResponse::DELETE(id) => assert_eq!(id, "ctx-7".to_string()),
        _ => panic!("wrong tag after round trip"),
    }
    let resp = PutResp {
        context_id: "ctx-2".to_string(),
        override_id: "ovr-2".to_string(),
        priority: 3,
    };
    let wire = encode_bulk_response(&ContextBulkResponse::MOVE(resp));
    match decode_bulk_response(&wire).unwrap() {
        ContextBulkResponse::MOVE(p) => assert_eq!(p.override_id, "ovr-2".to_string()),
        _ => panic!("wrong tag after round trip"),
    }
    let unknown = obj(vec![("PATCH", JsonValue::Int(0))]);
    assert!(decode_bulk_response(&unknown).is_err());
}
