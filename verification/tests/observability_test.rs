use casperlens::observability::{Error, Observability};
use casperlens::reader::{fetch_with_lookup, DictionaryLookup, FetchAction, FetchState};

const OWNER: &str = "account-hash-00";
const OTHER: &str = "account-hash-01";

fn deploy() -> Observability {
    Observability::init(OWNER.to_string())
}

#[test]
fn test_init() {
    let contract = deploy();

    // Verify initial state is empty
    assert_eq!(contract.get_latest_version(), "");
    assert_eq!(contract.get_diff("any_version".to_string()), None);
}

#[test]
fn test_storage_and_retrieval() {
    let mut contract = deploy();

    // Store diff
    let version = "v1".to_string();
    let diff = "{\"change\": \"init\"}".to_string();
    assert_eq!(contract.store_diff(OWNER, version.clone(), diff.clone()), Ok(()));

    // Verify storage
    assert_eq!(contract.get_latest_version(), version);
    assert_eq!(contract.get_diff(version), Some(diff));
}

#[test]
fn test_multiple_versions() {
    let mut contract = deploy();

    // Store v1
    assert_eq!(contract.store_diff(OWNER, "v1".to_string(), "diff1".to_string()), Ok(()));
    assert_eq!(contract.get_latest_version(), "v1");

    // Store v2
    assert_eq!(contract.store_diff(OWNER, "v2".to_string(), "diff2".to_string()), Ok(()));
    assert_eq!(contract.get_latest_version(), "v2");

    // Store v3
    assert_eq!(contract.store_diff(OWNER, "v3".to_string(), "diff3".to_string()), Ok(()));
    assert_eq!(contract.get_latest_version(), "v3");

    // Verify all can be retrieved
    assert_eq!(contract.get_diff("v1".to_string()), Some("diff1".to_string()));
    assert_eq!(contract.get_diff("v2".to_string()), Some("diff2".to_string()));
    assert_eq!(contract.get_diff("v3".to_string()), Some("diff3".to_string()));
}

#[test]
fn test_get_non_existent() {
    let mut contract = deploy();

    assert_eq!(contract.store_diff(OWNER, "v1".to_string(), "diff1".to_string()), Ok(()));

    // Verify non-existent keys return None
    assert_eq!(contract.get_diff("v2".to_string()), None);
    assert_eq!(contract.get_diff("random".to_string()), None);
}

#[test]
#[should_panic]
fn test_access_control() {
    let mut contract = deploy();

    // Deployer is owner; another account calls

    // Should panic
    contract.store_diff(OTHER, "v2".to_string(), "hacker".to_string()).unwrap();
}

#[test]
fn only_the_owner_writes() {
    let mut contract = deploy();
    assert_eq!(contract.owner(), OWNER);

    assert_eq!(
        contract.store_diff(OTHER, "v2".to_string(), "hacker".to_string()),
        Err(Error::NotAuthorized)
    );
    assert_eq!(contract.get_diff("v2".to_string()), None);
    assert_eq!(contract.get_latest_version(), "");
}

#[test]
fn a_refused_write_leaves_the_store_alone() {
    let mut contract = deploy();
    contract.store_diff(OWNER, "v1".to_string(), "data".to_string()).unwrap();

    assert_eq!(
        contract.store_diff(OTHER, "v1".to_string(), "new data".to_string()),
        Err(Error::NotAuthorized)
    );
    assert_eq!(contract.get_diff("v1".to_string()), Some("data".to_string()));
    assert_eq!(contract.get_latest_version(), "v1");
}

#[test]
fn writing_a_taken_key_replaces_the_value() {
    let mut contract = deploy();
    contract.store_diff(OWNER, "v1".to_string(), "data".to_string()).unwrap();
    contract.store_diff(OWNER, "v2".to_string(), "other".to_string()).unwrap();

    assert_eq!(contract.store_diff(OWNER, "v1".to_string(), "new data".to_string()), Ok(()));
    assert_eq!(contract.get_diff("v1".to_string()), Some("new data".to_string()));
    assert_eq!(contract.get_diff("v2".to_string()), Some("other".to_string()));
    assert_eq!(contract.get_latest_version(), "v1");
}

#[test]
fn writing_the_same_twice_changes_nothing() {
    let mut contract = deploy();
    contract.store_diff(OWNER, "package-ab-2-1".to_string(), "{}".to_string()).unwrap();
    contract.store_diff(OWNER, "package-ab-3-2".to_string(), "[]".to_string()).unwrap();
    let latest = contract.get_latest_version();
    let first = contract.get_diff("package-ab-2-1".to_string());
    let second = contract.get_diff("package-ab-3-2".to_string());

    assert_eq!(contract.store_diff(OWNER, "package-ab-3-2".to_string(), "[]".to_string()), Ok(()));

    assert_eq!(contract.get_latest_version(), latest);
    assert_eq!(contract.get_diff("package-ab-2-1".to_string()), first);
    assert_eq!(contract.get_diff("package-ab-3-2".to_string()), second);
    assert_eq!(second, Some("[]".to_string()));
}

#[test]
fn keys_are_told_apart_whatever_their_order() {
    let mut contract = deploy();
    for key in ["m", "b", "z", "a", "ab", ""] {
        contract.store_diff(OWNER, key.to_string(), format!("diff of {}", key)).unwrap();
    }
    for key in ["m", "b", "z", "a", "ab", ""] {
        assert_eq!(contract.get_diff(key.to_string()), Some(format!("diff of {}", key)));
    }
    assert_eq!(contract.get_diff("aa".to_string()), None);
    assert_eq!(contract.get_latest_version(), "");
    contract.ping();
}

#[test]
fn error_codes() {
    assert_eq!(Error::NotAuthorized.code(), 1);
    assert_eq!(Error::VersionAlreadyExists.code(), 2);
}

fn read(contract: &Observability, key: &str) -> (FetchState, FetchAction) {
    fetch_with_lookup(match contract.get_diff(key.to_string()) {
        Some(payload) => DictionaryLookup::Found { payload },
        None => DictionaryLookup::NotFound,
    })
}

#[test]
fn what_was_written_is_read() {
    let mut contract = deploy();
    assert_eq!(read(&contract, "package-ab-7-3"), (FetchState::Done, FetchAction::Miss));

    contract.store_diff(OWNER, "package-ab-7-3".to_string(), "{\"v1\":3}".to_string()).unwrap();
    assert_eq!(
        read(&contract, "package-ab-7-3"),
        (FetchState::Done, FetchAction::Decode { payload: "{\"v1\":3}".to_string() })
    );
    assert_eq!(read(&contract, "package-ab-3-7"), (FetchState::Done, FetchAction::Miss));

    contract.store_diff(OWNER, "package-ab-7-3".to_string(), String::new()).unwrap();
    assert_eq!(read(&contract, "package-ab-7-3"), (FetchState::Done, FetchAction::Miss));
}
