//! Writing a difference to the store on chain.
//!
//! A difference is written by one transaction that calls `store_diff` on the
//! store's package with the cache key and the serialised difference. This
//! module decides whether a difference may be written and puts the
//! transaction together; sending it is left to the caller.

use crate::key::{cache_key, derive_key, normalize_package_hash, normalized_package_hash};
use crate::network::{chain_name, chain_name_of};
use crate::outside::{now_rfc3339, package_hash_parsed, parse_package_hash, pretty_json,
    random_id, to_pretty_json};
use crate::diff::{get_contract_version_diff, version_diff, ValidationError, ValidationErrorView};
use crate::schema::{ContractVersionDiff, ContractVersionDiffView, ContractVersionSchema,
    ContractVersionSchemaView};
use vstd::prelude::*;
use vstd::string::*;
use vstd::utf8::encode_utf8;

verus! {

/// The largest serialised difference, in bytes, that the chain stores.
pub const MAX_PAYLOAD_BYTES: usize = 32_000;

/// Why a difference was not written.
#[derive(Debug, PartialEq, Eq)]
pub enum WriteError {
    /// The serialised difference is larger than the chain stores.
    PayloadTooLarge,
    /// The reference to the store does not name a package, for `reason`.
    InvalidPackageHash { reason: String },
    /// The arguments of the call could not be written as JSON.
    SessionArgs,
}

pub enum WriteErrorView {
    PayloadTooLarge,
    InvalidPackageHash { reason: Seq<char> },
    SessionArgs,
}

impl View for WriteError {
    type V = WriteErrorView;

    open spec fn view(&self) -> WriteErrorView {
        match self {
            WriteError::PayloadTooLarge => WriteErrorView::PayloadTooLarge,
            WriteError::InvalidPackageHash { reason } => WriteErrorView::InvalidPackageHash {
                reason: reason@,
            },
            WriteError::SessionArgs => WriteErrorView::SessionArgs,
        }
    }
}

/// The sentence that reports why a difference was not written.
pub open spec fn write_error_message(e: WriteErrorView) -> Seq<char> {
    match e {
        WriteErrorView::PayloadTooLarge => "Diff too large to store on-chain"@,
        WriteErrorView::InvalidPackageHash { reason } => "Invalid package hash: "@ + reason,
        WriteErrorView::SessionArgs => "Failed to serialize session args"@,
    }
}

impl WriteError {
    /// The error as a sentence.
    pub fn message(&self) -> (r: String)
        ensures
            r@ == write_error_message(self@),
    {
        match self {
            WriteError::PayloadTooLarge => String::from_str("Diff too large to store on-chain"),
            WriteError::InvalidPackageHash { reason } => {
                let mut s = String::from_str("Invalid package hash: ");
                s.append(reason.as_str());
                s
            },
            WriteError::SessionArgs => String::from_str("Failed to serialize session args"),
        }
    }
}

/// A transaction that stores one difference, ready to be signed and sent.
#[derive(Debug, PartialEq, Eq)]
pub struct StoreDiffTransaction {
    /// The number that identifies the request to the node.
    pub rpc_id: i64,
    /// The package of the store, as its 32 bytes.
    pub package_hash: [u8; 32],
    /// The entry point called on the store.
    pub entry_point: String,
    /// The arguments of the call, as JSON text.
    pub session_args_json: String,
    /// The chain the transaction is meant for.
    pub chain_name: String,
    /// When the transaction was made, in RFC 3339.
    pub timestamp: String,
    /// How long the transaction stays valid.
    pub ttl: String,
    /// Where the signing key is read from.
    pub secret_key: String,
    pub pricing_mode: String,
    pub standard_payment: String,
    pub payment_amount: String,
    pub transferred_value: String,
    pub gas_price_tolerance: String,
    pub additional_computation_factor: String,
}

pub struct StoreDiffTransactionView {
    pub rpc_id: i64,
    pub package_hash: [u8; 32],
    pub entry_point: Seq<char>,
    pub session_args_json: Seq<char>,
    pub chain_name: Seq<char>,
    pub timestamp: Seq<char>,
    pub ttl: Seq<char>,
    pub secret_key: Seq<char>,
    pub pricing_mode: Seq<char>,
    pub standard_payment: Seq<char>,
    pub payment_amount: Seq<char>,
    pub transferred_value: Seq<char>,
    pub gas_price_tolerance: Seq<char>,
    pub additional_computation_factor: Seq<char>,
}

impl View for StoreDiffTransaction {
    type V = StoreDiffTransactionView;

    open spec fn view(&self) -> StoreDiffTransactionView {
        StoreDiffTransactionView {
            rpc_id: self.rpc_id,
            package_hash: self.package_hash,
            entry_point: self.entry_point@,
            session_args_json: self.session_args_json@,
            chain_name: self.chain_name@,
            timestamp: self.timestamp@,
            ttl: self.ttl@,
            secret_key: self.secret_key@,
            pricing_mode: self.pricing_mode@,
            standard_payment: self.standard_payment@,
            payment_amount: self.payment_amount@,
            transferred_value: self.transferred_value@,
            gas_price_tolerance: self.gas_price_tolerance@,
            additional_computation_factor: self.additional_computation_factor@,
        }
    }
}

/// The two arguments of `store_diff` the way the node wants them: one object
/// for each, with its name, its type and its value.
pub open spec fn session_rows(version_id: Seq<char>, payload: Seq<char>) -> Seq<
    Seq<(Seq<char>, Seq<char>)>,
> {
    seq![
        seq![("name"@, "version_id"@), ("type"@, "String"@), ("value"@, version_id)],
        seq![("name"@, "diff"@), ("type"@, "String"@), ("value"@, payload)],
    ]
}

/// What stands in the way of writing `payload` as the difference from
/// `older_version` to `newer_version` of the package `target`, to the store
/// `store`. The size is looked at first, then the store, then the arguments.
pub open spec fn write_error(
    target: Seq<char>,
    older_version: u32,
    newer_version: u32,
    payload: Seq<char>,
    store: Seq<char>,
) -> Option<WriteErrorView> {
    if encode_utf8(payload).len() > MAX_PAYLOAD_BYTES {
        Some(WriteErrorView::PayloadTooLarge)
    } else if package_hash_parsed(normalized_package_hash(store)) is Err {
        Some(
            WriteErrorView::InvalidPackageHash {
                reason: package_hash_parsed(normalized_package_hash(store))->Err_0,
            },
        )
    } else if pretty_json(session_rows(cache_key(target, older_version, newer_version), payload))
        is None {
        Some(WriteErrorView::SessionArgs)
    } else {
        None
    }
}

/// The transaction that writes `payload` where nothing stands in the way.
pub open spec fn transaction_for(
    target: Seq<char>,
    older_version: u32,
    newer_version: u32,
    payload: Seq<char>,
    network: Seq<char>,
    store: Seq<char>,
    timestamp: Seq<char>,
    rpc_id: i64,
) -> StoreDiffTransactionView {
    transaction_with(
        package_hash_parsed(normalized_package_hash(store))->Ok_0,
        pretty_json(session_rows(cache_key(target, older_version, newer_version), payload))->0,
        network,
        timestamp,
        rpc_id,
    )
}

fn argument_row(name: &str, value: &str) -> (row: Vec<(String, String)>)
    ensures
        row.deep_view() == seq![("name"@, name@), ("type"@, "String"@), ("value"@, value@)],
{
    let mut row: Vec<(String, String)> = Vec::new();
    row.push((String::from_str("name"), String::from_str(name)));
    row.push((String::from_str("type"), String::from_str("String")));
    row.push((String::from_str("value"), String::from_str(value)));
    assert(row.deep_view() =~= seq![("name"@, name@), ("type"@, "String"@), ("value"@, value@)]);
    row
}

/// The transaction that calls `store_diff` on the package `package_hash` with
/// the arguments `session_args_json`, for `network`.
pub open spec fn transaction_with(
    package_hash: [u8; 32],
    session_args_json: Seq<char>,
    network: Seq<char>,
    timestamp: Seq<char>,
    rpc_id: i64,
) -> StoreDiffTransactionView {
    StoreDiffTransactionView {
        rpc_id,
        package_hash,
        entry_point: "store_diff"@,
        session_args_json,
        chain_name: chain_name_of(network),
        timestamp,
        ttl: "30min"@,
        secret_key: "./secret-key.pem"@,
        pricing_mode: "classic"@,
        standard_payment: "true"@,
        payment_amount: "50000000000"@,
        transferred_value: "0"@,
        gas_price_tolerance: "1"@,
        additional_computation_factor: "0"@,
    }
}

/// What becomes of a write once the store's reference and the arguments were
/// read: an error where the reference names no package, another where the
/// arguments could not be written, the transaction otherwise.
pub open spec fn transaction_from_parts(
    package_hash: Result<[u8; 32], Seq<char>>,
    session_args_json: Option<Seq<char>>,
    network: Seq<char>,
    timestamp: Seq<char>,
    rpc_id: i64,
) -> Result<StoreDiffTransactionView, WriteErrorView> {
    match package_hash {
        Err(reason) => Err(WriteErrorView::InvalidPackageHash { reason }),
        Ok(package) => match session_args_json {
            None => Err(WriteErrorView::SessionArgs),
            Some(args) => Ok(transaction_with(package, args, network, timestamp, rpc_id)),
        },
    }
}

/// What the parser made of a reference, with its sentence as mathematical
/// text.
pub open spec fn parsed_view(package_hash: Result<[u8; 32], String>) -> Result<[u8; 32], Seq<char>> {
    match package_hash {
        Ok(addr) => Ok(addr),
        Err(reason) => Err(reason@),
    }
}

/// Fills in the transaction that calls `store_diff` on the package
/// `package_hash` with the arguments `session_args_json`: the chain that goes
/// with `network`, half an hour to live, classic pricing, a fixed payment.
/// An `Err` for the package tells why the store's reference names none, and
/// `None` for the arguments that they could not be written; either makes the
/// error that tells so.
pub fn assemble_transaction(
    package_hash: Result<[u8; 32], String>,
    session_args_json: Option<String>,
    network: &str,
    timestamp: String,
    rpc_id: i64,
) -> (r: Result<StoreDiffTransaction, WriteError>)
    ensures
        match r {
            Ok(tx) => transaction_from_parts(
                parsed_view(package_hash),
                session_args_json.deep_view(),
                network@,
                timestamp@,
                rpc_id,
            ) == Ok::<StoreDiffTransactionView, WriteErrorView>(tx@),
            Err(e) => transaction_from_parts(
                parsed_view(package_hash),
                session_args_json.deep_view(),
                network@,
                timestamp@,
                rpc_id,
            ) == Err::<StoreDiffTransactionView, WriteErrorView>(e@),
        },
{
    let package_hash = match package_hash {
        Ok(package) => package,
        Err(reason) => { return Err(WriteError::InvalidPackageHash { reason }); },
    };
    let session_args_json = match session_args_json {
        Some(args) => args,
        None => { return Err(WriteError::SessionArgs); },
    };
    Ok(
        StoreDiffTransaction {
            rpc_id,
            package_hash,
            entry_point: String::from_str("store_diff"),
            session_args_json,
            chain_name: String::from_str(chain_name(network)),
            timestamp,
            ttl: String::from_str("30min"),
            secret_key: String::from_str("./secret-key.pem"),
            pricing_mode: String::from_str("classic"),
            standard_payment: String::from_str("true"),
            payment_amount: String::from_str("50000000000"),
            transferred_value: String::from_str("0"),
            gas_price_tolerance: String::from_str("1"),
            additional_computation_factor: String::from_str("0"),
        },
    )
}

/// The arguments of the call that stores `payload` under `version_id`.
pub fn session_arguments(version_id: &str, payload: &str) -> (rows: Vec<Vec<(String, String)>>)
    ensures
        rows.deep_view() == session_rows(version_id@, payload@),
{
    let mut rows: Vec<Vec<(String, String)>> = Vec::new();
    rows.push(argument_row("version_id", version_id));
    rows.push(argument_row("diff", payload));
    assert(rows.deep_view() =~= session_rows(version_id@, payload@));
    rows
}

/// Is `payload` larger than the chain stores?
pub fn payload_too_large(payload: &str) -> (r: bool)
    ensures
        r == (encode_utf8(payload@).len() > MAX_PAYLOAD_BYTES),
{
    payload.as_bytes().len() > MAX_PAYLOAD_BYTES
}

/// Puts together the transaction that stores `payload`, the serialised
/// difference from `older_version` to `newer_version` of the package
/// `target`, in the store `store` on `network`. A payload over
/// [`MAX_PAYLOAD_BYTES`] is refused before anything else is looked at.
pub fn store_diff_transaction(
    target: &str,
    older_version: u32,
    newer_version: u32,
    payload: &str,
    network: &str,
    store: &str,
    timestamp: String,
    rpc_id: i64,
) -> (r: Result<StoreDiffTransaction, WriteError>)
    ensures
        match r {
            Ok(tx) => write_error(target@, older_version, newer_version, payload@, store@) is None
                && tx@ == transaction_for(
                target@,
                older_version,
                newer_version,
                payload@,
                network@,
                store@,
                timestamp@,
                rpc_id,
            ),
            Err(e) => write_error(target@, older_version, newer_version, payload@, store@) == Some(
                e@,
            ),
        },
{
    if payload_too_large(payload) {
        return Err(WriteError::PayloadTooLarge);
    }
    let package_hash = parse_package_hash(normalize_package_hash(store).as_str());
    let version_id = derive_key(target, older_version, newer_version);
    let session_args_json = to_pretty_json(&session_arguments(version_id.as_str(), payload));
    assemble_transaction(package_hash, session_args_json, network, timestamp, rpc_id)
}

/// Puts together the transaction that stores `payload`, the serialised
/// difference from `v1` to `v2`, stamped with the present time and a fresh
/// request number. Whatever the clock and the generator give, the transaction
/// is the one [`store_diff_transaction`] makes of them.
pub fn write_contract_diff_to_chain(
    target_package_hash: &str,
    v1: &ContractVersionSchema,
    v2: &ContractVersionSchema,
    payload: &str,
    network: &str,
    observability_package_hash: &str,
) -> (r: Result<StoreDiffTransaction, WriteError>)
    ensures
        match r {
            Ok(tx) => write_error(
                target_package_hash@,
                v1.contract_version,
                v2.contract_version,
                payload@,
                observability_package_hash@,
            ) is None && tx@ == transaction_for(
                target_package_hash@,
                v1.contract_version,
                v2.contract_version,
                payload@,
                network@,
                observability_package_hash@,
                tx.timestamp@,
                tx.rpc_id,
            ),
            Err(e) => write_error(
                target_package_hash@,
                v1.contract_version,
                v2.contract_version,
                payload@,
                observability_package_hash@,
            ) == Some(e@),
        },
{
    let rpc_id = random_id();
    let timestamp = now_rfc3339();
    store_diff_transaction(
        target_package_hash,
        v1.contract_version,
        v2.contract_version,
        payload,
        network,
        observability_package_hash,
        timestamp,
        rpc_id,
    )
}

/// Where the writing of a list of versions stands.
#[derive(Debug, Clone, Copy, PartialEq, Eq)]
pub enum BatchState {
    /// Nothing was done yet.
    Idle,
    /// The difference that ends at the version `index` is being serialised.
    Encoding { index: usize },
    /// The transaction for the difference that ends at `index` is being sent.
    Submitting { index: usize },
    /// The writing has ended.
    Done,
}

/// What happened since the last step.
#[derive(Debug, PartialEq, Eq)]
pub enum BatchEvent {
    /// The writing is asked for.
    Begin,
    /// The difference was serialised to `payload`.
    Encoded { payload: String },
    /// The transaction was accepted by the node.
    Accepted,
    /// The transaction was refused, for `reason`.
    Refused { reason: String },
}

pub enum BatchEventView {
    Begin,
    Encoded { payload: Seq<char> },
    Accepted,
    Refused { reason: Seq<char> },
}

impl View for BatchEvent {
    type V = BatchEventView;

    open spec fn view(&self) -> BatchEventView {
        match self {
            BatchEvent::Begin => BatchEventView::Begin,
            BatchEvent::Encoded { payload } => BatchEventView::Encoded { payload: payload@ },
            BatchEvent::Accepted => BatchEventView::Accepted,
            BatchEvent::Refused { reason } => BatchEventView::Refused { reason: reason@ },
        }
    }
}

/// Why the writing of a list of versions ended early.
#[derive(Debug, PartialEq, Eq)]
pub enum BatchError {
    /// Two neighbours in the list cannot be compared.
    Validation(ValidationError),
    /// A difference could not be put into a transaction.
    Write(WriteError),
    /// The node refused a transaction.
    Submission { reason: String },
    /// The event does not answer what was asked for.
    OutOfTurn,
}

pub enum BatchErrorView {
    Validation(ValidationErrorView),
    Write(WriteErrorView),
    Submission { reason: Seq<char> },
    OutOfTurn,
}

impl View for BatchError {
    type V = BatchErrorView;

    open spec fn view(&self) -> BatchErrorView {
        match self {
            BatchError::Validation(e) => BatchErrorView::Validation(e@),
            BatchError::Write(e) => BatchErrorView::Write(e@),
            BatchError::Submission { reason } => BatchErrorView::Submission { reason: reason@ },
            BatchError::OutOfTurn => BatchErrorView::OutOfTurn,
        }
    }
}

/// The sentence that reports why the writing ended early.
pub open spec fn batch_error_message(e: BatchErrorView) -> Seq<char> {
    match e {
        BatchErrorView::Validation(v) => crate::diff::validation_message(v),
        BatchErrorView::Write(w) => write_error_message(w),
        BatchErrorView::Submission { reason } => "Casper tx failed: "@ + reason,
        BatchErrorView::OutOfTurn => "Unexpected event"@,
    }
}

impl BatchError {
    /// The error as a sentence.
    pub fn message(&self) -> (r: String)
        ensures
            r@ == batch_error_message(self@),
    {
        match self {
            BatchError::Validation(v) => v.message(),
            BatchError::Write(w) => w.message(),
            BatchError::Submission { reason } => {
                let mut s = String::from_str("Casper tx failed: ");
                s.append(reason.as_str());
                s
            },
            BatchError::OutOfTurn => String::from_str("Unexpected event"),
        }
    }
}

/// What is to be done next.
#[derive(Debug, PartialEq, Eq)]
pub enum BatchAction {
    /// Serialise `diff` and report the text as [`BatchEvent::Encoded`].
    Encode { diff: ContractVersionDiff },
    /// Sign and send `transaction`, and report how the node answered.
    Submit { transaction: StoreDiffTransaction },
    /// Stop: the writing ended with `result`.
    Finish { result: Result<(), BatchError> },
}

pub enum BatchActionView {
    Encode { diff: ContractVersionDiffView },
    Submit { transaction: StoreDiffTransactionView },
    Finish { result: Result<(), BatchErrorView> },
}

impl View for BatchAction {
    type V = BatchActionView;

    open spec fn view(&self) -> BatchActionView {
        match self {
            BatchAction::Encode { diff } => BatchActionView::Encode { diff: diff@ },
            BatchAction::Submit { transaction } => BatchActionView::Submit {
                transaction: transaction@,
            },
            BatchAction::Finish { result } => BatchActionView::Finish {
                result: match result {
                    Ok(_) => Ok(()),
                    Err(e) => Err(e@),
                },
            },
        }
    }
}

/// Turning to the difference that ends at the version `index`: it is computed
/// and handed out to be serialised, or the writing ends with the reason for
/// which the two versions cannot be compared.
pub open spec fn batch_turn_to(versions: Seq<ContractVersionSchemaView>, index: int) -> (
    BatchState,
    BatchActionView,
) {
    match version_diff(versions[index - 1], versions[index]) {
        Ok(diff) => (BatchState::Encoding { index: index as usize }, BatchActionView::Encode { diff }),
        Err(e) => (
            BatchState::Done,
            BatchActionView::Finish { result: Err(BatchErrorView::Validation(e)) },
        ),
    }
}

/// One step in writing the differences between the neighbours of a list of
/// versions, first pair first. Each difference is computed, serialised, put
/// into a transaction and sent before the next one is looked at; the first
/// failure ends the writing. A list of fewer than two versions has nothing to
/// write.
pub open spec fn batch_step(
    target: Seq<char>,
    versions: Seq<ContractVersionSchemaView>,
    network: Seq<char>,
    store: Seq<char>,
    state: BatchState,
    event: BatchEventView,
    timestamp: Seq<char>,
    rpc_id: i64,
) -> (BatchState, BatchActionView) {
    let out_of_turn = (
        BatchState::Done,
        BatchActionView::Finish { result: Err(BatchErrorView::OutOfTurn) },
    );
    match (state, event) {
        (BatchState::Idle, BatchEventView::Begin) => if versions.len() <= 1 {
            (BatchState::Done, BatchActionView::Finish { result: Ok(()) })
        } else {
            batch_turn_to(versions, 1)
        },
        (BatchState::Encoding { index }, BatchEventView::Encoded { payload }) => if 1 <= index
            < versions.len() {
            let older = versions[index - 1].contract_version;
            let newer = versions[index as int].contract_version;
            match write_error(target, older, newer, payload, store) {
                Some(e) => (
                    BatchState::Done,
                    BatchActionView::Finish { result: Err(BatchErrorView::Write(e)) },
                ),
                None => (
                    BatchState::Submitting { index },
                    BatchActionView::Submit {
                        transaction: transaction_for(
                            target,
                            older,
                            newer,
                            payload,
                            network,
                            store,
                            timestamp,
                            rpc_id,
                        ),
                    },
                ),
            }
        } else {
            out_of_turn
        },
        (BatchState::Submitting { index }, BatchEventView::Accepted) => if 1 <= index
            < versions.len() {
            if index + 1 < versions.len() {
                batch_turn_to(versions, index + 1)
            } else {
                (BatchState::Done, BatchActionView::Finish { result: Ok(()) })
            }
        } else {
            out_of_turn
        },
        (BatchState::Submitting { index }, BatchEventView::Refused { reason }) => (
            BatchState::Done,
            BatchActionView::Finish { result: Err(BatchErrorView::Submission { reason }) },
        ),
        _ => out_of_turn,
    }
}

fn turn_to(contract_versions: &Vec<ContractVersionSchema>, index: usize) -> (r: (
    BatchState,
    BatchAction,
))
    requires
        1 <= index < contract_versions.len(),
    ensures
        (r.0, r.1@) == batch_turn_to(contract_versions.deep_view(), index as int),
{
    match get_contract_version_diff(
        contract_versions[index - 1].clone(),
        contract_versions[index].clone(),
    ) {
        Ok(diff) => (BatchState::Encoding { index }, BatchAction::Encode { diff }),
        Err(e) => (BatchState::Done, BatchAction::Finish { result: Err(BatchError::Validation(e)) }),
    }
}

/// Takes one step in writing the differences between the neighbours of
/// `contract_versions`, with the time and the request number given.
pub fn batch_step_at(
    target_package_hash: &str,
    contract_versions: &Vec<ContractVersionSchema>,
    network: &str,
    observability_package_hash: &str,
    state: BatchState,
    event: BatchEvent,
    timestamp: String,
    rpc_id: i64,
) -> (r: (BatchState, BatchAction))
    ensures
        (r.0, r.1@) == batch_step(
            target_package_hash@,
            contract_versions.deep_view(),
            network@,
            observability_package_hash@,
            state,
            event@,
            timestamp@,
            rpc_id,
        ),
{
    let n = contract_versions.len();
    match (state, event) {
        (BatchState::Idle, BatchEvent::Begin) => {
            if n <= 1 {
                (BatchState::Done, BatchAction::Finish { result: Ok(()) })
            } else {
                turn_to(contract_versions, 1)
            }
        },
        (BatchState::Encoding { index }, BatchEvent::Encoded { payload }) => {
            if 1 <= index && index < n {
                match store_diff_transaction(
                    target_package_hash,
                    contract_versions[index - 1].contract_version,
                    contract_versions[index].contract_version,
                    payload.as_str(),
                    network,
                    observability_package_hash,
                    timestamp,
                    rpc_id,
                ) {
                    Ok(transaction) => (
                        BatchState::Submitting { index },
                        BatchAction::Submit { transaction },
                    ),
                    Err(e) => (
                        BatchState::Done,
                        BatchAction::Finish { result: Err(BatchError::Write(e)) },
                    ),
                }
            } else {
                (BatchState::Done, BatchAction::Finish { result: Err(BatchError::OutOfTurn) })
            }
        },
        (BatchState::Submitting { index }, BatchEvent::Accepted) => {
            if 1 <= index && index < n {
                if index + 1 < n {
                    turn_to(contract_versions, index + 1)
                } else {
                    (BatchState::Done, BatchAction::Finish { result: Ok(()) })
                }
            } else {
                (BatchState::Done, BatchAction::Finish { result: Err(BatchError::OutOfTurn) })
            }
        },
        (BatchState::Submitting { index }, BatchEvent::Refused { reason }) => (
            BatchState::Done,
            BatchAction::Finish { result: Err(BatchError::Submission { reason }) },
        ),
        _ => (BatchState::Done, BatchAction::Finish { result: Err(BatchError::OutOfTurn) }),
    }
}

/// Takes one step in writing the differences between the neighbours of
/// `contract_versions` to the store: start with [`BatchState::Idle`] and
/// [`BatchEvent::Begin`], do what the action says, and come back with the
/// state returned and the event that tells how it went, until the action is
/// [`BatchAction::Finish`]. A transaction is stamped with the present time and
/// a fresh request number; apart from those two the step is a function of its
/// arguments.
pub fn write_contract_diff_versions_to_chain(
    target_package_hash: &str,
    contract_versions: &Vec<ContractVersionSchema>,
    network: &str,
    observability_package_hash: &str,
    state: BatchState,
    event: BatchEvent,
) -> (r: (BatchState, BatchAction))
    ensures
        exists|timestamp: Seq<char>, rpc_id: i64|
            (r.0, r.1@) == #[trigger] batch_step(
                target_package_hash@,
                contract_versions.deep_view(),
                network@,
                observability_package_hash@,
                state,
                event@,
                timestamp,
                rpc_id,
            ),
{
    let rpc_id = random_id();
    let timestamp = now_rfc3339();
    let ghost stamp = timestamp@;
    let r = batch_step_at(
        target_package_hash,
        contract_versions,
        network,
        observability_package_hash,
        state,
        event,
        timestamp,
        rpc_id,
    );
    assert((r.0, r.1@) == batch_step(
        target_package_hash@,
        contract_versions.deep_view(),
        network@,
        observability_package_hash@,
        state,
        event@,
        stamp,
        rpc_id,
    ));
    r
}

} // verus!
