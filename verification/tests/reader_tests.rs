use casperlens::diff::get_contract_version_diff;
use casperlens::reader::{
    begin_fetch, fetch_contract_diff_from_chain, fetch_result, fetch_with_lookup,
    fetch_with_package, fetch_with_seed, fetch_with_state_root, find_named_key,
    get_state_root_hash, latest_enabled_version, DictionaryLookup, FetchAction, FetchEvent,
    FetchState, PackageVersion, ReadError,
};
use casperlens::schema::{ContractVersionDiff, ContractVersionSchema, NamedKey};

const STORE: &str = "hash-1111111111111111111111111111111111111111111111111111111111111111";
const STORE_KEY: &str = "package-1111111111111111111111111111111111111111111111111111111111111111";
const TARGET: &str = "2222222222222222222222222222222222222222222222222222222222222222";
const ROOT: &str = "abababababababababababababababababababababababababababababababab";
const SEED: &str = "uref-3333333333333333333333333333333333333333333333333333333333333333-007";

fn step(state: FetchState, event: FetchEvent) -> (FetchState, FetchAction) {
    fetch_contract_diff_from_chain(3, 7, TARGET, STORE, state, event)
}

fn package_version(major: u32, version: u32, hash: &str, enabled: bool) -> PackageVersion {
    PackageVersion {
        protocol_version_major: major,
        contract_version: version,
        contract_hash: hash.to_string(),
        enabled,
    }
}

fn named_key(name: &str, value: &str) -> NamedKey {
    NamedKey { name: name.to_string(), value: value.to_string() }
}

#[test]
fn a_state_root_is_its_64_hex_digits() {
    assert_eq!(get_state_root_hash(ROOT), Some(ROOT.to_string()));
    assert_eq!(get_state_root_hash(&format!("Digest({})", ROOT)), None);
    assert_eq!(get_state_root_hash(&format!("[{}]", ROOT)), Some(ROOT.to_string()));
    assert_eq!(get_state_root_hash(&format!("\"{}..{}\"", &ROOT[..32], &ROOT[32..])), Some(ROOT.to_string()));
    assert_eq!(get_state_root_hash(&ROOT[1..]), None);
    assert_eq!(get_state_root_hash(&format!("{}0", ROOT)), None);
    assert_eq!(get_state_root_hash(""), None);
    let mixed = "0123456789abcdefABCDEF0123456789abcdefABCDEF0123456789abcdefABCD";
    assert_eq!(get_state_root_hash(&format!("g{}-xyz", mixed)), Some(mixed.to_string()));
}

#[test]
fn the_latest_enabled_version_is_picked() {
    let versions = vec![
        package_version(1, 1, "contract-a", true),
        package_version(2, 1, "contract-b", true),
        package_version(1, 9, "contract-c", true),
        package_version(2, 2, "contract-d", false),
    ];
    assert_eq!(latest_enabled_version(&versions), Some(1));
    assert_eq!(latest_enabled_version(&versions[..1].iter().map(|v| package_version(v.protocol_version_major, v.contract_version, &v.contract_hash, false)).collect()), None);
    assert_eq!(latest_enabled_version(&vec![]), None);
    let repeated = vec![
        package_version(1, 1, "contract-a", true),
        package_version(1, 1, "contract-b", true),
    ];
    assert_eq!(latest_enabled_version(&repeated), Some(0));
    let ascending = vec![
        package_version(1, 1, "contract-a", true),
        package_version(1, 2, "contract-b", true),
        package_version(1, 3, "contract-c", true),
    ];
    assert_eq!(latest_enabled_version(&ascending), Some(2));
}

#[test]
fn named_keys_are_found_by_name() {
    let keys = vec![named_key("a", "1"), named_key("diffs", "2"), named_key("b", "4")];
    assert_eq!(find_named_key(&keys, "diffs"), Some(&"2".to_string()));
    assert_eq!(find_named_key(&keys, "a"), Some(&"1".to_string()));
    assert_eq!(find_named_key(&keys, "b"), Some(&"4".to_string()));
    assert_eq!(find_named_key(&keys, "c"), None);
    assert_eq!(find_named_key(&vec![], "diffs"), None);
}

#[test]
fn of_two_named_keys_with_one_name_the_last_counts() {
    let keys = vec![named_key("diffs", "2"), named_key("a", "1"), named_key("diffs", "3")];
    assert_eq!(find_named_key(&keys, "diffs"), Some(&"3".to_string()));

    let first = "uref-4444444444444444444444444444444444444444444444444444444444444444-007";
    let keys = vec![named_key("diffs", first), named_key("diffs", SEED)];
    let (_, action) = step(
        FetchState::AwaitingContract { state_root: [0; 32] },
        FetchEvent::Contract { named_keys: Some(keys) },
    );
    let FetchAction::QueryDictionary { seed_addr, .. } = action else { panic!("{:?}", action) };
    assert_eq!(seed_addr, [0x33; 32]);
}

#[test]
fn a_read_asks_four_questions() {
    let (state, action) = step(FetchState::Idle, FetchEvent::Begin);
    assert_eq!(state, FetchState::AwaitingStateRoot);
    assert_eq!(action, FetchAction::QueryStateRoot);

    let (state, action) = step(state, FetchEvent::StateRoot { rendered: Some(ROOT.to_string()) });
    assert_eq!(state, FetchState::AwaitingPackage { state_root: [0xab; 32] });
    assert_eq!(action, FetchAction::QueryPackage { package_hash: STORE_KEY.to_string() });

    let versions = vec![
        package_version(2, 1, "contract-old", true),
        package_version(2, 2, "contract-new", true),
        package_version(2, 3, "contract-off", false),
    ];
    let (state, action) = step(state, FetchEvent::Package { versions: Some(versions) });
    assert_eq!(state, FetchState::AwaitingContract { state_root: [0xab; 32] });
    assert_eq!(action, FetchAction::QueryContract { contract_hash: "contract-new".to_string() });

    let keys = vec![named_key("owner", "account-hash-00"), named_key("diffs", SEED)];
    let (state, action) = step(state, FetchEvent::Contract { named_keys: Some(keys) });
    assert_eq!(state, FetchState::AwaitingItem);
    assert_eq!(
        action,
        FetchAction::QueryDictionary {
            state_root: [0xab; 32],
            seed_addr: [0x33; 32],
            seed_access: 7,
            dictionary_item_key: format!("package-{}-7-3", TARGET),
        }
    );

    let (state, action) = step(
        state,
        FetchEvent::Item { lookup: DictionaryLookup::Found { payload: "{\"v1\":1}".to_string() } },
    );
    assert_eq!(state, FetchState::Done);
    assert_eq!(action, FetchAction::Decode { payload: "{\"v1\":1}".to_string() });
}

#[test]
fn the_seed_is_read_from_its_text() {
    let seed = "uref-000102030405060708090a0b0c0d0e0f101112131415161718191a1b1c1d1e1f-001";
    let keys = vec![named_key("diffs", seed)];
    let (_, action) = step(
        FetchState::AwaitingContract { state_root: [0; 32] },
        FetchEvent::Contract { named_keys: Some(keys) },
    );
    let FetchAction::QueryDictionary { seed_addr, seed_access, .. } = action else {
        panic!("{:?}", action)
    };
    let expected: Vec<u8> = (0u8..32).collect();
    assert_eq!(seed_addr.to_vec(), expected);
    assert_eq!(seed_access, 1);
    let uref = casper_types::URef::new(
        seed_addr,
        casper_types::AccessRights::from_bits(seed_access).unwrap(),
    );
    assert_eq!(uref.to_formatted_string(), seed);
}

#[test]
fn the_state_root_is_read_from_its_hex() {
    let hex = "000102030405060708090a0b0c0d0e0f101112131415161718191a1b1c1d1e1f";
    let (state, _) = step(
        FetchState::AwaitingStateRoot,
        FetchEvent::StateRoot { rendered: Some(format!("<{}>", hex)) },
    );
    let FetchState::AwaitingPackage { state_root } = state else { panic!("{:?}", state) };
    let expected: Vec<u8> = (0u8..32).collect();
    assert_eq!(state_root.to_vec(), expected);
    assert_eq!(casper_types::Digest::from(state_root), casper_types::Digest::from_hex(hex).unwrap());
}

#[test]
fn whatever_goes_wrong_is_a_miss() {
    let miss = (FetchState::Done, FetchAction::Miss);
    let awaiting_package = FetchState::AwaitingPackage { state_root: [0; 32] };
    let awaiting_contract = FetchState::AwaitingContract { state_root: [0; 32] };

    assert_eq!(step(FetchState::AwaitingStateRoot, FetchEvent::StateRoot { rendered: None }), miss);
    assert_eq!(
        step(FetchState::AwaitingStateRoot, FetchEvent::StateRoot { rendered: Some("abab".to_string()) }),
        miss
    );
    // 64 hex digits of mixed case whose checksum does not hold
    let bad = "aBababababababababababababababababababababababababababababababab";
    assert_eq!(
        step(FetchState::AwaitingStateRoot, FetchEvent::StateRoot { rendered: Some(bad.to_string()) }),
        miss
    );
    assert_eq!(step(awaiting_package, FetchEvent::Package { versions: None }), miss);
    assert_eq!(step(awaiting_package, FetchEvent::Package { versions: Some(vec![]) }), miss);
    assert_eq!(
        step(
            awaiting_package,
            FetchEvent::Package { versions: Some(vec![package_version(1, 1, "c", false)]) }
        ),
        miss
    );
    assert_eq!(step(awaiting_contract, FetchEvent::Contract { named_keys: None }), miss);
    assert_eq!(
        step(awaiting_contract, FetchEvent::Contract { named_keys: Some(vec![named_key("x", SEED)]) }),
        miss
    );
    assert_eq!(
        step(
            awaiting_contract,
            FetchEvent::Contract { named_keys: Some(vec![named_key("diffs", "hash-11")]) }
        ),
        miss
    );
    assert_eq!(
        step(FetchState::AwaitingItem, FetchEvent::Item { lookup: DictionaryLookup::NotFound }),
        miss
    );
    assert_eq!(
        step(FetchState::AwaitingItem, FetchEvent::Item { lookup: DictionaryLookup::TransportError }),
        miss
    );
    assert_eq!(
        step(
            FetchState::AwaitingItem,
            FetchEvent::Item { lookup: DictionaryLookup::Found { payload: String::new() } }
        ),
        miss
    );
    assert_eq!(step(FetchState::Idle, FetchEvent::StateRoot { rendered: None }), miss);
    assert_eq!(step(FetchState::Done, FetchEvent::Begin), miss);
}

#[test]
fn a_store_that_names_no_package_fails_the_read() {
    for store in ["", "zz", "package-11", "hash-xyz"] {
        let (state, action) = fetch_contract_diff_from_chain(
            3,
            7,
            TARGET,
            store,
            FetchState::Idle,
            FetchEvent::Begin,
        );
        assert_eq!(state, FetchState::Done);
        assert_eq!(action, FetchAction::Fail { error: ReadError::InvalidPackageIdentity });
    }
    assert_eq!(ReadError::InvalidPackageIdentity.message(), "Invalid package hash");
}

#[test]
fn each_answer_decides_the_next_question() {
    assert_eq!(
        begin_fetch(None),
        (FetchState::Done, FetchAction::Fail { error: ReadError::InvalidPackageIdentity })
    );
    assert_eq!(
        begin_fetch(Some([1; 32])),
        (FetchState::AwaitingStateRoot, FetchAction::QueryStateRoot)
    );

    assert_eq!(fetch_with_state_root(None, "ab"), (FetchState::Done, FetchAction::Miss));
    assert_eq!(
        fetch_with_state_root(Some([2; 32]), "hash-ab"),
        (
            FetchState::AwaitingPackage { state_root: [2; 32] },
            FetchAction::QueryPackage { package_hash: "package-ab".to_string() },
        )
    );

    assert_eq!(fetch_with_package([2; 32], &None), (FetchState::Done, FetchAction::Miss));
    assert_eq!(
        fetch_with_package([2; 32], &Some(vec![package_version(1, 1, "contract-a", true)])),
        (
            FetchState::AwaitingContract { state_root: [2; 32] },
            FetchAction::QueryContract { contract_hash: "contract-a".to_string() },
        )
    );

    assert_eq!(
        fetch_with_seed([2; 32], None, "k".to_string()),
        (FetchState::Done, FetchAction::Miss)
    );
    assert_eq!(
        fetch_with_seed([2; 32], Some(([3; 32], 5)), "k".to_string()),
        (
            FetchState::AwaitingItem,
            FetchAction::QueryDictionary {
                state_root: [2; 32],
                seed_addr: [3; 32],
                seed_access: 5,
                dictionary_item_key: "k".to_string(),
            },
        )
    );

    assert_eq!(
        fetch_with_lookup(DictionaryLookup::Found { payload: "p".to_string() }),
        (FetchState::Done, FetchAction::Decode { payload: "p".to_string() })
    );
    assert_eq!(
        fetch_with_lookup(DictionaryLookup::Found { payload: String::new() }),
        (FetchState::Done, FetchAction::Miss)
    );
    assert_eq!(fetch_with_lookup(DictionaryLookup::NotFound), (FetchState::Done, FetchAction::Miss));
}

fn some_diff() -> ContractVersionDiff {
    let version = |number: u32, key: &str| ContractVersionSchema {
        contract_package_hash: TARGET.to_string(),
        contract_hash: format!("contract-{}", number),
        contract_wasm_hash: format!("wasm-{}", number),
        contract_version: number,
        protocol_major_version: 2,
        entry_points: vec![],
        named_keys: vec![named_key("k", key)],
        disabled: false,
        age: "2025-01-01T00:00:00Z".to_string(),
    };
    get_contract_version_diff(version(3, "uref-1"), version(7, "uref-2")).unwrap()
}

#[test]
fn a_payload_that_does_not_decode_is_a_miss() {
    let found = || FetchAction::Decode { payload: "{".to_string() };
    assert_eq!(fetch_result(found(), None), Ok(None));
    assert_eq!(fetch_result(found(), Some(some_diff())), Ok(Some(some_diff())));
}

#[test]
fn a_read_ends_with_a_difference_a_miss_or_an_error() {
    assert_eq!(fetch_result(FetchAction::Miss, None), Ok(None));
    assert_eq!(fetch_result(FetchAction::Miss, Some(some_diff())), Ok(None));
    assert_eq!(
        fetch_result(FetchAction::Fail { error: ReadError::InvalidPackageIdentity }, None),
        Err(ReadError::InvalidPackageIdentity)
    );
    assert_eq!(
        fetch_result(
            FetchAction::Fail { error: ReadError::InvalidPackageIdentity },
            Some(some_diff())
        ),
        Err(ReadError::InvalidPackageIdentity)
    );
    // a read that was broken off
    assert_eq!(fetch_result(FetchAction::QueryStateRoot, Some(some_diff())), Ok(None));
    assert_eq!(
        fetch_result(FetchAction::QueryContract { contract_hash: "c".to_string() }, None),
        Ok(None)
    );
}

#[test]
fn every_shape_of_a_reference_asks_for_the_same_entry() {
    let keys = || Some(vec![named_key("diffs", SEED)]);
    let asked = |target: &str| {
        let (_, action) = fetch_contract_diff_from_chain(
            3,
            7,
            target,
            STORE,
            FetchState::AwaitingContract { state_root: [0; 32] },
            FetchEvent::Contract { named_keys: keys() },
        );
        let FetchAction::QueryDictionary { dictionary_item_key, .. } = action else {
            panic!("{:?}", action)
        };
        dictionary_item_key
    };
    assert_eq!(asked("resource-ab"), "package-ab-7-3");
    assert_eq!(asked("ab"), "package-ab-7-3");
    assert_eq!(asked("package-ab"), "package-ab-7-3");
    assert_eq!(asked("hash-ab"), "package-ab-7-3");

    let store = "resource-1111111111111111111111111111111111111111111111111111111111111111";
    let (state, action) =
        fetch_contract_diff_from_chain(3, 7, "ab", store, FetchState::Idle, FetchEvent::Begin);
    assert_eq!((state, action), (FetchState::AwaitingStateRoot, FetchAction::QueryStateRoot));
    let (_, action) = fetch_contract_diff_from_chain(
        3,
        7,
        "ab",
        store,
        FetchState::AwaitingStateRoot,
        FetchEvent::StateRoot { rendered: Some(ROOT.to_string()) },
    );
    assert_eq!(action, FetchAction::QueryPackage { package_hash: STORE_KEY.to_string() });
}
