use casperlens::diff::{get_contract_version_diff, ValidationError};
use casperlens::observability::Observability;
use casperlens::reader::ReadError;
use casperlens::resolver::{
    resolve, RecordFetch, ResolveAction, ResolveError, ResolveEvent, ResolveState,
};
use casperlens::schema::{ContractVersionDiff, ContractVersionSchema, EntryPoint, NamedKey};

const PACKAGE: &str = "hash-2222222222222222222222222222222222222222222222222222222222222222";
const KEY: &str = "package-2222222222222222222222222222222222222222222222222222222222222222-7-3";

fn version(number: u32, entry_points: &[(&str, &str)]) -> ContractVersionSchema {
    ContractVersionSchema {
        contract_package_hash: PACKAGE.to_string(),
        contract_hash: format!("contract-{}", number),
        contract_wasm_hash: format!("wasm-{}", number),
        contract_version: number,
        protocol_major_version: 2,
        entry_points: entry_points
            .iter()
            .map(|(n, s)| EntryPoint { name: n.to_string(), signature: s.to_string() })
            .collect(),
        named_keys: vec![NamedKey { name: "k".to_string(), value: format!("uref-{}", number) }],
        disabled: false,
        age: "2025-01-01T00:00:00Z".to_string(),
    }
}

fn found(record: ContractVersionSchema) -> RecordFetch {
    RecordFetch::Found { record }
}

fn some_diff() -> ContractVersionDiff {
    get_contract_version_diff(version(3, &[("a", "()")]), version(7, &[("b", "()")])).unwrap()
}

fn step(state: ResolveState, event: ResolveEvent) -> (ResolveState, ResolveAction) {
    resolve(PACKAGE, 3, 7, state, event)
}

#[test]
fn the_cache_is_asked_first() {
    let (state, action) = step(ResolveState::Idle, ResolveEvent::Begin);
    assert_eq!(state, ResolveState::LookingUp);
    assert_eq!(action, ResolveAction::Lookup { key: KEY.to_string() });
}

#[test]
fn a_hit_is_returned_without_asking_the_record_store() {
    let (state, action) =
        step(ResolveState::LookingUp, ResolveEvent::Cache { lookup: Ok(Some(some_diff())) });
    assert_eq!(state, ResolveState::Done);
    assert_eq!(action, ResolveAction::Return { result: Ok(some_diff()), persist: None });
}

#[test]
fn a_miss_and_a_failed_read_both_go_to_the_record_store() {
    let expected = (
        ResolveState::FetchingRecords,
        ResolveAction::FetchRecords {
            package_hash: PACKAGE.to_string(),
            older_version: 3,
            newer_version: 7,
        },
    );
    assert_eq!(step(ResolveState::LookingUp, ResolveEvent::Cache { lookup: Ok(None) }), expected);
    assert_eq!(
        step(
            ResolveState::LookingUp,
            ResolveEvent::Cache { lookup: Err(ReadError::InvalidPackageIdentity) }
        ),
        expected
    );
}

#[test]
fn a_fresh_difference_is_returned_and_written_back() {
    let (state, action) = step(
        ResolveState::FetchingRecords,
        ResolveEvent::Records {
            older: found(version(3, &[("a", "()")])),
            newer: found(version(7, &[("b", "()")])),
        },
    );
    assert_eq!(state, ResolveState::Done);
    assert_eq!(
        action,
        ResolveAction::Return { result: Ok(some_diff()), persist: Some(KEY.to_string()) }
    );
}

#[test]
fn missing_and_failing_records_are_reported() {
    let cases = [
        (RecordFetch::NotFound, found(version(7, &[])), ResolveError::RecordNotFound { contract_version: 3 }),
        (found(version(3, &[])), RecordFetch::NotFound, ResolveError::RecordNotFound { contract_version: 7 }),
        (RecordFetch::NotFound, RecordFetch::NotFound, ResolveError::RecordNotFound { contract_version: 3 }),
        (
            RecordFetch::Failed { reason: "down".to_string() },
            RecordFetch::NotFound,
            ResolveError::RecordStore { reason: "down".to_string() },
        ),
        (
            found(version(3, &[])),
            RecordFetch::Failed { reason: "slow".to_string() },
            ResolveError::RecordStore { reason: "slow".to_string() },
        ),
        (
            found(version(7, &[])),
            found(version(3, &[])),
            ResolveError::Validation(ValidationError::WrongOrder {
                contract_version: 7,
                contract_hash: "contract-3".to_string(),
            }),
        ),
        (
            found(version(3, &[])),
            found(version(3, &[])),
            ResolveError::Validation(ValidationError::SameVersion {
                contract_version: 3,
                contract_hash: "contract-3".to_string(),
            }),
        ),
    ];
    for (older, newer, error) in cases {
        let (state, action) =
            step(ResolveState::FetchingRecords, ResolveEvent::Records { older, newer });
        assert_eq!(state, ResolveState::Done);
        assert_eq!(action, ResolveAction::Return { result: Err(error), persist: None });
    }
}

#[test]
fn an_event_out_of_turn_ends_the_resolution() {
    let out_of_turn = (
        ResolveState::Done,
        ResolveAction::Return { result: Err(ResolveError::OutOfTurn), persist: None },
    );
    assert_eq!(step(ResolveState::Idle, ResolveEvent::Cache { lookup: Ok(None) }), out_of_turn);
    assert_eq!(step(ResolveState::LookingUp, ResolveEvent::Begin), out_of_turn);
    assert_eq!(step(ResolveState::FetchingRecords, ResolveEvent::Begin), out_of_turn);
    assert_eq!(step(ResolveState::Done, ResolveEvent::Begin), out_of_turn);
}

/// Runs one resolution against records and a store, the way a caller would:
/// a miss, a fetch, and the write that follows the answer.
fn resolve_once(store: &mut Observability, payload_of: fn(&ContractVersionDiff) -> String) -> ContractVersionDiff {
    let (state, action) = step(ResolveState::Idle, ResolveEvent::Begin);
    let ResolveAction::Lookup { key } = action else { panic!("{:?}", action) };
    assert_eq!(key, KEY);
    let (state, action) = step(state, ResolveEvent::Cache { lookup: Ok(None) });
    assert!(matches!(action, ResolveAction::FetchRecords { .. }));
    let (_, action) = step(
        state,
        ResolveEvent::Records {
            older: found(version(3, &[("a", "()"), ("b", "(u32)")])),
            newer: found(version(7, &[("b", "(u32)"), ("c", "()")])),
        },
    );
    let ResolveAction::Return { result: Ok(diff), persist: Some(key) } = action else {
        panic!("{:?}", action)
    };
    store.store_diff("owner", key, payload_of(&diff)).unwrap();
    diff
}

#[test]
fn two_resolutions_of_one_request_agree() {
    let mut store = Observability::init("owner".to_string());
    let payload_of: fn(&ContractVersionDiff) -> String = |diff| format!("{:?}", diff);

    let first = resolve_once(&mut store, payload_of);
    let after_first = store.get_diff(KEY.to_string());
    let second = resolve_once(&mut store, payload_of);

    assert_eq!(first, second);
    assert_eq!(store.get_diff(KEY.to_string()), after_first);
    assert_eq!(store.get_diff(KEY.to_string()), Some(payload_of(&first)));
    assert_eq!(store.get_latest_version(), KEY);
}

#[test]
fn every_shape_of_a_reference_is_looked_up_under_one_key() {
    for package in ["resource-ab", "ab", "package-ab", "hash-ab"] {
        let (_, action) = resolve(package, 3, 7, ResolveState::Idle, ResolveEvent::Begin);
        assert_eq!(action, ResolveAction::Lookup { key: "package-ab-7-3".to_string() });
    }
}

#[test]
fn a_cached_payload_that_does_not_decode_is_computed_afresh() {
    let lookup = casperlens::reader::fetch_result(
        casperlens::reader::FetchAction::Decode { payload: "{".to_string() },
        None,
    );
    let (state, action) = step(ResolveState::LookingUp, ResolveEvent::Cache { lookup });
    assert_eq!(state, ResolveState::FetchingRecords);
    assert!(matches!(action, ResolveAction::FetchRecords { .. }));
}
