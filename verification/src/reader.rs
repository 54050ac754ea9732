//! Reading a cached difference from the store on chain.
//!
//! A read takes four questions to the node: the current state root, the
//! store's package, the newest enabled contract of that package, and the entry
//! of that contract's dictionary `diffs` under the cache key. This module
//! decides what to ask next and what a reply means; asking is left to the
//! caller. Whatever goes wrong on the way makes the read a miss, for the
//! difference can always be computed afresh. Only a store reference that names
//! no package at all is an error.

use crate::key::{cache_key, derive_key, normalize_package_hash, normalized_package_hash};
use crate::outside::{digest_of_hex, package_hash_addr, parse_digest_hex, parse_package_hash,
    parse_uref, uref_of};
use crate::index::last_value;
use crate::schema::{named_key_entry, ContractVersionDiff, ContractVersionDiffView, NamedKey,
    NamedKeyView};
use crate::text::same_text;
use vstd::prelude::*;
use vstd::string::*;

verus! {

/// `c` is one of `0`-`9`, `a`-`f`, `A`-`F`.
pub open spec fn is_hex_digit(c: char) -> bool {
    ('0' <= c && c <= '9') || ('a' <= c && c <= 'f') || ('A' <= c && c <= 'F')
}

/// The hex digits of `s`, in order, everything else left out.
pub open spec fn hex_digits(s: Seq<char>) -> Seq<char>
    decreases s.len(),
{
    if s.len() == 0 {
        Seq::empty()
    } else if is_hex_digit(s.last()) {
        hex_digits(s.drop_last()).push(s.last())
    } else {
        hex_digits(s.drop_last())
    }
}

/// The state root that a node's reply holds: its hex digits, where there are
/// exactly 64 of them.
pub open spec fn state_root_hex(rendered: Seq<char>) -> Option<Seq<char>> {
    if hex_digits(rendered).len() == 64 {
        Some(hex_digits(rendered))
    } else {
        None
    }
}

fn hex_digit(c: char) -> (r: bool)
    ensures
        r == is_hex_digit(c),
{
    ('0' <= c && c <= '9') || ('a' <= c && c <= 'f') || ('A' <= c && c <= 'F')
}

/// Reads the state root out of a node's reply as it was rendered to text:
/// keeps the hex digits and wants 64 of them.
pub fn get_state_root_hash(rendered: &str) -> (r: Option<String>)
    ensures
        match r {
            Some(hex) => state_root_hex(rendered@) == Some(hex@),
            None => state_root_hex(rendered@) is None,
        },
{
    let n: usize = rendered.unicode_len();
    let mut out = String::new();
    let mut count: usize = 0;
    let mut i: usize = 0;
    assert(rendered@.take(0) =~= Seq::<char>::empty());
    while i < n
        invariant
            n == rendered@.len(),
            i <= n,
            count <= i,
            count == out@.len(),
            out@ == hex_digits(rendered@.take(i as int)),
        decreases n - i,
    {
        let ghost next = rendered@.take(i + 1);
        assert(next.drop_last() =~= rendered@.take(i as int));
        assert(next.last() == rendered@[i as int]);
        if hex_digit(rendered.get_char(i)) {
            assert(rendered@.subrange(i as int, i + 1) =~= seq![rendered@[i as int]]);
            out.append(rendered.substring_char(i, i + 1));
            assert(out@ =~= hex_digits(rendered@.take(i as int)).push(rendered@[i as int]));
            count = count + 1;
        }
        i = i + 1;
    }
    assert(rendered@.take(n as int) =~= rendered@);
    if count == 64 {
        Some(out)
    } else {
        None
    }
}

/// One version of a package as the chain lists it.
#[derive(Debug, PartialEq, Eq)]
pub struct PackageVersion {
    pub protocol_version_major: u32,
    pub contract_version: u32,
    /// The contract of this version, in its text form.
    pub contract_hash: String,
    pub enabled: bool,
}

pub struct PackageVersionView {
    pub protocol_version_major: u32,
    pub contract_version: u32,
    pub contract_hash: Seq<char>,
    pub enabled: bool,
}

impl View for PackageVersion {
    type V = PackageVersionView;

    open spec fn view(&self) -> PackageVersionView {
        PackageVersionView {
            protocol_version_major: self.protocol_version_major,
            contract_version: self.contract_version,
            contract_hash: self.contract_hash@,
            enabled: self.enabled,
        }
    }
}

impl DeepView for PackageVersion {
    type V = PackageVersionView;

    open spec fn deep_view(&self) -> PackageVersionView {
        self@
    }
}

/// `a` is a later version than `b`: a higher protocol version, or the same
/// with a higher contract version.
pub open spec fn later_than(a: PackageVersionView, b: PackageVersionView) -> bool {
    a.protocol_version_major > b.protocol_version_major || (a.protocol_version_major
        == b.protocol_version_major && a.contract_version > b.contract_version)
}

/// The position of the latest enabled version among the first `n`: the
/// enabled one than which no enabled one is later, and the first such where
/// the list repeats a version.
pub open spec fn latest_enabled(versions: Seq<PackageVersionView>, n: int) -> Option<int>
    decreases n,
{
    if n <= 0 {
        None
    } else {
        let before = latest_enabled(versions, n - 1);
        if !versions[n - 1].enabled {
            before
        } else {
            match before {
                None => Some(n - 1),
                Some(b) => if later_than(versions[n - 1], versions[b]) {
                    Some(n - 1)
                } else {
                    before
                },
            }
        }
    }
}

/// What `latest_enabled` picks is enabled, and no enabled version is later.
pub proof fn lemma_latest_enabled(versions: Seq<PackageVersionView>, n: int)
    requires
        0 <= n <= versions.len(),
    ensures
        match latest_enabled(versions, n) {
            Some(p) => 0 <= p < n && versions[p].enabled && forall|j: int|
                0 <= j < n && (#[trigger] versions[j]).enabled ==> !later_than(
                    versions[j],
                    versions[p],
                ),
            None => forall|j: int| 0 <= j < n ==> !(#[trigger] versions[j]).enabled,
        },
    decreases n,
{
    if n > 0 {
        lemma_latest_enabled(versions, n - 1);
    }
}

/// Finds the latest enabled version of a package.
pub fn latest_enabled_version(versions: &Vec<PackageVersion>) -> (r: Option<usize>)
    ensures
        match r {
            Some(p) => latest_enabled(versions.deep_view(), versions.len() as int) == Some(
                p as int,
            ) && p < versions.len(),
            None => latest_enabled(versions.deep_view(), versions.len() as int) is None,
        },
{
    let mut best: Option<usize> = None;
    let mut i: usize = 0;
    while i < versions.len()
        invariant
            i <= versions.len(),
            match best {
                Some(p) => latest_enabled(versions.deep_view(), i as int) == Some(p as int) && p
                    < i,
                None => latest_enabled(versions.deep_view(), i as int) is None,
            },
        decreases versions.len() - i,
    {
        let v = &versions[i];
        assert(versions.deep_view()[i as int] == v@);
        if v.enabled {
            match best {
                None => {
                    best = Some(i);
                },
                Some(p) => {
                    let b = &versions[p];
                    assert(versions.deep_view()[p as int] == b@);
                    if v.protocol_version_major > b.protocol_version_major || (
                    v.protocol_version_major == b.protocol_version_major && v.contract_version
                        > b.contract_version) {
                        best = Some(i);
                    }
                },
            }
        }
        i = i + 1;
    }
    best
}

/// The value of the named key called `name`, if there is one. Named keys are
/// a map: where a list names a key twice, its last entry counts, as it does
/// when two versions are compared.
pub open spec fn named_key_value(keys: Seq<NamedKeyView>, name: Seq<char>) -> Option<Seq<char>> {
    last_value(keys.map_values(|k: NamedKeyView| named_key_entry(k)), name)
}

/// Looks a named key up by its name.
pub fn find_named_key<'a>(keys: &'a Vec<NamedKey>, name: &str) -> (r: Option<&'a String>)
    ensures
        match r {
            Some(value) => named_key_value(keys.deep_view(), name@) == Some(value@),
            None => named_key_value(keys.deep_view(), name@) is None,
        },
{
    let ghost entries = keys.deep_view().map_values(|k: NamedKeyView| named_key_entry(k));
    let mut p: usize = keys.len();
    assert(entries.take(p as int) =~= entries);
    while p > 0
        invariant
            p <= keys.len(),
            entries == keys.deep_view().map_values(|k: NamedKeyView| named_key_entry(k)),
            last_value(entries, name@) == last_value(entries.take(p as int), name@),
        decreases p,
    {
        let ghost front = entries.take(p as int);
        assert(front.last() == named_key_entry(keys@[p - 1]@));
        assert(front.drop_last() =~= entries.take(p - 1));
        if same_text(keys[p - 1].name.as_str(), name) {
            return Some(&keys[p - 1].value);
        }
        p = p - 1;
    }
    None
}

/// Why a read failed for good.
#[derive(Debug, Clone, Copy, PartialEq, Eq)]
pub enum ReadError {
    /// The reference to the store does not name a package.
    InvalidPackageIdentity,
}

impl ReadError {
    /// The error as a sentence.
    pub fn message(&self) -> (r: &'static str)
        ensures
            r@ == "Invalid package hash"@,
    {
        "Invalid package hash"
    }
}

/// How a dictionary lookup went.
#[derive(Debug, PartialEq, Eq)]
pub enum DictionaryLookup {
    /// The dictionary holds `payload` under the key.
    Found { payload: String },
    /// The dictionary holds nothing under the key.
    NotFound,
    /// The node could not be asked, or did not answer.
    TransportError,
}

pub enum DictionaryLookupView {
    Found { payload: Seq<char> },
    NotFound,
    TransportError,
}

impl View for DictionaryLookup {
    type V = DictionaryLookupView;

    open spec fn view(&self) -> DictionaryLookupView {
        match self {
            DictionaryLookup::Found { payload } => DictionaryLookupView::Found { payload: payload@ },
            DictionaryLookup::NotFound => DictionaryLookupView::NotFound,
            DictionaryLookup::TransportError => DictionaryLookupView::TransportError,
        }
    }
}

/// The payload that a lookup brought, if it brought one: nothing where the key
/// was not found, the node failed, or what was found is empty.
pub open spec fn payload_of(lookup: DictionaryLookupView) -> Option<Seq<char>> {
    match lookup {
        DictionaryLookupView::Found { payload } => if payload.len() == 0 {
            None
        } else {
            Some(payload)
        },
        _ => None,
    }
}

/// Where a read stands.
#[derive(Debug, Clone, Copy, PartialEq, Eq)]
pub enum FetchState {
    /// Nothing was asked yet.
    Idle,
    /// The node was asked for its state root.
    AwaitingStateRoot,
    /// The node was asked for the store's package.
    AwaitingPackage { state_root: [u8; 32] },
    /// The node was asked for the store's contract.
    AwaitingContract { state_root: [u8; 32] },
    /// The node was asked for the dictionary entry.
    AwaitingItem,
    /// The read has ended.
    Done,
}

/// What the node answered.
#[derive(Debug, PartialEq, Eq)]
pub enum FetchEvent {
    /// The read is asked for.
    Begin,
    /// The state root as the node's reply renders it, if there was a reply.
    StateRoot { rendered: Option<String> },
    /// The versions of the store's package, if the node gave the package.
    Package { versions: Option<Vec<PackageVersion>> },
    /// The named keys of the store's contract, if the node gave the contract.
    Contract { named_keys: Option<Vec<NamedKey>> },
    /// How the dictionary lookup went.
    Item { lookup: DictionaryLookup },
}

pub enum FetchEventView {
    Begin,
    StateRoot { rendered: Option<Seq<char>> },
    Package { versions: Option<Seq<PackageVersionView>> },
    Contract { named_keys: Option<Seq<NamedKeyView>> },
    Item { lookup: DictionaryLookupView },
}

impl View for FetchEvent {
    type V = FetchEventView;

    open spec fn view(&self) -> FetchEventView {
        match self {
            FetchEvent::Begin => FetchEventView::Begin,
            FetchEvent::StateRoot { rendered } => FetchEventView::StateRoot {
                rendered: rendered.deep_view(),
            },
            FetchEvent::Package { versions } => FetchEventView::Package {
                versions: versions.deep_view(),
            },
            FetchEvent::Contract { named_keys } => FetchEventView::Contract {
                named_keys: named_keys.deep_view(),
            },
            FetchEvent::Item { lookup } => FetchEventView::Item { lookup: lookup@ },
        }
    }
}

/// What is to be done next.
#[derive(Debug, PartialEq, Eq)]
pub enum FetchAction {
    /// Ask the node for its current state root.
    QueryStateRoot,
    /// Ask the node for the package `package_hash`.
    QueryPackage { package_hash: String },
    /// Ask the node for the contract `contract_hash`.
    QueryContract { contract_hash: String },
    /// Ask the node, at `state_root`, for the entry `dictionary_item_key` of
    /// the dictionary whose seed has the address `seed_addr` and the access
    /// rights `seed_access`.
    QueryDictionary {
        state_root: [u8; 32],
        seed_addr: [u8; 32],
        seed_access: u8,
        dictionary_item_key: String,
    },
    /// The store holds `payload` under the key: decode it, and end the read
    /// with [`fetch_result`].
    Decode { payload: String },
    /// The store has nothing to offer: compute the difference.
    Miss,
    /// The read cannot be done.
    Fail { error: ReadError },
}

pub enum FetchActionView {
    QueryStateRoot,
    QueryPackage { package_hash: Seq<char> },
    QueryContract { contract_hash: Seq<char> },
    QueryDictionary {
        state_root: [u8; 32],
        seed_addr: [u8; 32],
        seed_access: u8,
        dictionary_item_key: Seq<char>,
    },
    Decode { payload: Seq<char> },
    Miss,
    Fail { error: ReadError },
}

impl View for FetchAction {
    type V = FetchActionView;

    open spec fn view(&self) -> FetchActionView {
        match self {
            FetchAction::QueryStateRoot => FetchActionView::QueryStateRoot,
            FetchAction::QueryPackage { package_hash } => FetchActionView::QueryPackage {
                package_hash: package_hash@,
            },
            FetchAction::QueryContract { contract_hash } => FetchActionView::QueryContract {
                contract_hash: contract_hash@,
            },
            FetchAction::QueryDictionary {
                state_root,
                seed_addr,
                seed_access,
                dictionary_item_key,
            } => FetchActionView::QueryDictionary {
                state_root: *state_root,
                seed_addr: *seed_addr,
                seed_access: *seed_access,
                dictionary_item_key: dictionary_item_key@,
            },
            FetchAction::Decode { payload } => FetchActionView::Decode { payload: payload@ },
            FetchAction::Miss => FetchActionView::Miss,
            FetchAction::Fail { error } => FetchActionView::Fail { error: *error },
        }
    }
}

/// The state root that a reply gives: its 64 hex digits, read as a digest.
pub open spec fn state_root_of(rendered: Option<Seq<char>>) -> Option<[u8; 32]> {
    match rendered {
        Some(text) => match state_root_hex(text) {
            Some(hex) => digest_of_hex(hex),
            None => None,
        },
        None => None,
    }
}

/// The contract to ask for: that of the latest enabled version.
pub open spec fn store_contract(versions: Option<Seq<PackageVersionView>>) -> Option<Seq<char>> {
    match versions {
        Some(list) => match latest_enabled(list, list.len() as int) {
            Some(p) => Some(list[p].contract_hash),
            None => None,
        },
        None => None,
    }
}

/// The seed of the dictionary `diffs`: what the contract's named key of that
/// name refers to, where it refers to a dictionary seed.
pub open spec fn diffs_seed(named_keys: Option<Seq<NamedKeyView>>) -> Option<([u8; 32], u8)> {
    match named_keys {
        Some(keys) => match named_key_value(keys, "diffs"@) {
            Some(value) => uref_of(value),
            None => None,
        },
        None => None,
    }
}

/// The first step, once the store's reference was read: a reference that names
/// no package ends the read, any other sends for the state root.
pub open spec fn begun(store_package: Option<[u8; 32]>) -> (FetchState, FetchActionView) {
    match store_package {
        None => (
            FetchState::Done,
            FetchActionView::Fail { error: ReadError::InvalidPackageIdentity },
        ),
        Some(_) => (FetchState::AwaitingStateRoot, FetchActionView::QueryStateRoot),
    }
}

/// The step after the node gave its state root, or did not.
pub open spec fn with_state_root(root: Option<[u8; 32]>, store: Seq<char>) -> (
    FetchState,
    FetchActionView,
) {
    match root {
        Some(state_root) => (
            FetchState::AwaitingPackage { state_root },
            FetchActionView::QueryPackage { package_hash: normalized_package_hash(store) },
        ),
        None => (FetchState::Done, FetchActionView::Miss),
    }
}

/// The step after the node gave the store's package, or did not.
pub open spec fn with_package(state_root: [u8; 32], contract: Option<Seq<char>>) -> (
    FetchState,
    FetchActionView,
) {
    match contract {
        Some(contract_hash) => (
            FetchState::AwaitingContract { state_root },
            FetchActionView::QueryContract { contract_hash },
        ),
        None => (FetchState::Done, FetchActionView::Miss),
    }
}

/// The step after the node gave the store's contract, or did not.
pub open spec fn with_seed(
    state_root: [u8; 32],
    seed: Option<([u8; 32], u8)>,
    dictionary_item_key: Seq<char>,
) -> (FetchState, FetchActionView) {
    match seed {
        Some(uref) => (
            FetchState::AwaitingItem,
            FetchActionView::QueryDictionary {
                state_root,
                seed_addr: uref.0,
                seed_access: uref.1,
                dictionary_item_key,
            },
        ),
        None => (FetchState::Done, FetchActionView::Miss),
    }
}

/// The last step: a payload is handed out to be decoded, anything else is a
/// miss.
pub open spec fn with_lookup(lookup: DictionaryLookupView) -> (FetchState, FetchActionView) {
    match payload_of(lookup) {
        Some(payload) => (FetchState::Done, FetchActionView::Decode { payload }),
        None => (FetchState::Done, FetchActionView::Miss),
    }
}

/// One step in reading the difference from `older_version` to `newer_version`
/// of the package `target` from the store `store`. An event that does not
/// answer what was asked makes the read a miss.
pub open spec fn fetch_step(
    target: Seq<char>,
    older_version: u32,
    newer_version: u32,
    store: Seq<char>,
    state: FetchState,
    event: FetchEventView,
) -> (FetchState, FetchActionView) {
    match (state, event) {
        (FetchState::Idle, FetchEventView::Begin) => begun(
            package_hash_addr(normalized_package_hash(store)),
        ),
        (FetchState::AwaitingStateRoot, FetchEventView::StateRoot { rendered }) => with_state_root(
            state_root_of(rendered),
            store,
        ),
        (FetchState::AwaitingPackage { state_root }, FetchEventView::Package { versions }) => {
            with_package(state_root, store_contract(versions))
        },
        (FetchState::AwaitingContract { state_root }, FetchEventView::Contract { named_keys }) => {
            with_seed(
                state_root,
                diffs_seed(named_keys),
                cache_key(target, older_version, newer_version),
            )
        },
        (FetchState::AwaitingItem, FetchEventView::Item { lookup }) => with_lookup(lookup),
        _ => (FetchState::Done, FetchActionView::Miss),
    }
}

/// Takes the first step of a read, given what the store's reference was read
/// as.
pub fn begin_fetch(store_package: Option<[u8; 32]>) -> (r: (FetchState, FetchAction))
    ensures
        (r.0, r.1@) == begun(store_package),
{
    match store_package {
        None => (FetchState::Done, FetchAction::Fail { error: ReadError::InvalidPackageIdentity }),
        Some(_) => (FetchState::AwaitingStateRoot, FetchAction::QueryStateRoot),
    }
}

/// Takes the step after the state root came, given what it was read as.
pub fn fetch_with_state_root(root: Option<[u8; 32]>, store: &str) -> (r: (FetchState, FetchAction))
    ensures
        (r.0, r.1@) == with_state_root(root, store@),
{
    match root {
        Some(state_root) => (
            FetchState::AwaitingPackage { state_root },
            FetchAction::QueryPackage { package_hash: normalize_package_hash(store) },
        ),
        None => (FetchState::Done, FetchAction::Miss),
    }
}

/// Takes the step after the store's package came.
pub fn fetch_with_package(state_root: [u8; 32], versions: &Option<Vec<PackageVersion>>) -> (r: (
    FetchState,
    FetchAction,
))
    ensures
        (r.0, r.1@) == with_package(state_root, store_contract(versions.deep_view())),
{
    let contract = match versions {
        Some(list) => match latest_enabled_version(list) {
            Some(p) => {
                assert(list.deep_view()[p as int] == list@[p as int]@);
                Some(list[p].contract_hash.clone())
            },
            None => None,
        },
        None => None,
    };
    match contract {
        Some(contract_hash) => (
            FetchState::AwaitingContract { state_root },
            FetchAction::QueryContract { contract_hash },
        ),
        None => (FetchState::Done, FetchAction::Miss),
    }
}

/// Takes the step after the store's contract came, given what its `diffs` key
/// was read as.
pub fn fetch_with_seed(state_root: [u8; 32], seed: Option<([u8; 32], u8)>, key: String) -> (r: (
    FetchState,
    FetchAction,
))
    ensures
        (r.0, r.1@) == with_seed(state_root, seed, key@),
{
    match seed {
        Some(uref) => (
            FetchState::AwaitingItem,
            FetchAction::QueryDictionary {
                state_root,
                seed_addr: uref.0,
                seed_access: uref.1,
                dictionary_item_key: key,
            },
        ),
        None => (FetchState::Done, FetchAction::Miss),
    }
}

/// Takes the last step of a read: tells a payload from a miss.
pub fn fetch_with_lookup(lookup: DictionaryLookup) -> (r: (FetchState, FetchAction))
    ensures
        (r.0, r.1@) == with_lookup(lookup@),
{
    match lookup {
        DictionaryLookup::Found { payload } => {
            if payload.as_str().unicode_len() == 0 {
                (FetchState::Done, FetchAction::Miss)
            } else {
                (FetchState::Done, FetchAction::Decode { payload })
            }
        },
        _ => (FetchState::Done, FetchAction::Miss),
    }
}

/// What a read comes to once its last action was taken. `decoded` is what the
/// decoder made of the payload, `None` where the payload is no difference: a
/// payload that does not decode is a miss like any other. A read that was
/// broken off before its last action is a miss as well.
pub open spec fn read_result(
    last: FetchActionView,
    decoded: Option<ContractVersionDiffView>,
) -> Result<Option<ContractVersionDiffView>, ReadError> {
    match last {
        FetchActionView::Decode { .. } => Ok(decoded),
        FetchActionView::Fail { error } => Err(error),
        _ => Ok(None),
    }
}

/// Ends a read: gives the difference where the store held one that decodes,
/// nothing on a miss or where the payload does not decode, and the error
/// where the read could not be done. `decoded` is looked at only where the
/// last action was `Decode`.
pub fn fetch_result(last: FetchAction, decoded: Option<ContractVersionDiff>) -> (r: Result<
    Option<ContractVersionDiff>,
    ReadError,
>)
    ensures
        match r {
            Ok(Some(diff)) => read_result(last@, decoded.deep_view()) == Ok::<
                Option<ContractVersionDiffView>,
                ReadError,
            >(Some(diff@)),
            Ok(None) => read_result(last@, decoded.deep_view()) == Ok::<
                Option<ContractVersionDiffView>,
                ReadError,
            >(None),
            Err(e) => read_result(last@, decoded.deep_view()) == Err::<
                Option<ContractVersionDiffView>,
                ReadError,
            >(e),
        },
{
    match last {
        FetchAction::Decode { .. } => Ok(decoded),
        FetchAction::Fail { error } => Err(error),
        _ => Ok(None),
    }
}

/// Takes one step in reading the difference from `older_version` to
/// `newer_version` of the package `target_package_hash` from the store
/// `observability_package_hash`: start with [`FetchState::Idle`] and
/// [`FetchEvent::Begin`], ask the node what the action says, and come back
/// with the state returned and the node's answer, until the action is
/// `Decode`, `Miss` or `Fail`.
pub fn fetch_contract_diff_from_chain(
    older_version: u32,
    newer_version: u32,
    target_package_hash: &str,
    observability_package_hash: &str,
    state: FetchState,
    event: FetchEvent,
) -> (r: (FetchState, FetchAction))
    ensures
        (r.0, r.1@) == fetch_step(
            target_package_hash@,
            older_version,
            newer_version,
            observability_package_hash@,
            state,
            event@,
        ),
{
    match (state, event) {
        (FetchState::Idle, FetchEvent::Begin) => begin_fetch(
            parse_package_hash(normalize_package_hash(observability_package_hash).as_str()).ok(),
        ),
        (FetchState::AwaitingStateRoot, FetchEvent::StateRoot { rendered }) => {
            let root = match rendered {
                Some(text) => match get_state_root_hash(text.as_str()) {
                    Some(hex) => parse_digest_hex(hex.as_str()),
                    None => None,
                },
                None => None,
            };
            fetch_with_state_root(root, observability_package_hash)
        },
        (FetchState::AwaitingPackage { state_root }, FetchEvent::Package { versions }) => {
            fetch_with_package(state_root, &versions)
        },
        (FetchState::AwaitingContract { state_root }, FetchEvent::Contract { named_keys }) => {
            let seed = match &named_keys {
                Some(keys) => match find_named_key(keys, "diffs") {
                    Some(value) => parse_uref(value.as_str()),
                    None => None,
                },
                None => None,
            };
            fetch_with_seed(
                state_root,
                seed,
                derive_key(target_package_hash, older_version, newer_version),
            )
        },
        (FetchState::AwaitingItem, FetchEvent::Item { lookup }) => fetch_with_lookup(lookup),
        _ => (FetchState::Done, FetchAction::Miss),
    }
}

} // verus!
