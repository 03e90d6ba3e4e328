use experimentation::decimal::u64_to_dec_string;
use experimentation::hostinfo::{get_pod_info, split_on_char};
use experimentation::snowflake::{generate_snowflake_id, SnowflakeGenerator};

#[test]
fn decimal_rendering_exact() {
    assert_eq!(u64_to_dec_string(0), "0".to_string());
    assert_eq!(u64_to_dec_string(7), "7".to_string());
    assert_eq!(u64_to_dec_string(42), "42".to_string());
    assert_eq!(u64_to_dec_string(1234567890), "1234567890".to_string());
    assert_eq!(u64_to_dec_string(1000000), "1000000".to_string());
}

#[test]
fn split_on_char_tokens() {
    assert_eq!(
        split_on_char("a-b-c", '-'),
        vec!["a".to_string(), "b".to_string(), "c".to_string()]
    );
    assert_eq!(split_on_char("abc", '-'), vec!["abc".to_string()]);
    assert_eq!(
        split_on_char("a--b", '-'),
        vec!["a".to_string(), "".to_string(), "b".to_string()]
    );
    assert_eq!(
        split_on_char("CREATED,INPROGRESS", ','),
        vec!["CREATED".to_string(), "INPROGRESS".to_string()]
    );
}

#[test]
fn pod_info_from_hostname() {
    let (pod_id, deployment_id) = get_pod_info("superposition-5c7f9b-x2x4z").unwrap();
    assert_eq!(pod_id, "x2x4z".to_string());
    assert_eq!(deployment_id, "superposition".to_string());
}

#[test]
fn pod_info_takes_last_three_tokens() {
    let (pod_id, deployment_id) = get_pod_info("extra-deploy-rs-pod").unwrap();
    assert_eq!(pod_id, "pod".to_string());
    assert_eq!(deployment_id, "deploy".to_string());
}

#[test]
fn pod_info_malformed_hostname() {
    assert!(get_pod_info("nodashes").is_none());
    assert!(get_pod_info("one-dash").is_none());
}

#[test]
fn snowflake_ids_distinct_under_load() {
    // A stress run standing in for many concurrent callers: the generator
    // is a single exclusively-owned resource, so callers serialize on it;
    // every one of 1000 minted ids must be fresh.
    let mut generator = SnowflakeGenerator::new(3);
    let mut previous: i64 = -1;
    for _ in 0..1000 {
        let id = generate_snowflake_id(&mut generator).unwrap();
        assert!(id > previous, "ids must strictly increase");
        previous = id;
    }
}

#[test]
fn snowflake_counter_rolls_within_one_millisecond() {
    let mut generator = SnowflakeGenerator::new(1);
    let first = generate_snowflake_id(&mut generator).unwrap();
    let second = generate_snowflake_id(&mut generator).unwrap();
    assert!(second > first);
}

#[test]
fn decimal_rendering_largest_value() {
    assert_eq!(u64_to_dec_string(u64::MAX), "18446744073709551615".to_string());
}

#[test]
fn snowflake_errors_only_when_exhausted() {
    let mut generator = SnowflakeGenerator {
        last_millis: 0x1FFFFFFFFFF,
        sequence: 0xFFF,
        machine: 0,
    };
    assert!(generate_snowflake_id(&mut generator).is_err());
}
