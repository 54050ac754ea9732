//! Resolving the difference between two versions of a package.
//!
//! The cache is asked first. A hit is the answer. On a miss the two versions
//! are fetched from the record store and compared, the difference is handed
//! back at once, and the caller is told to write it to the cache behind the
//! requester's back: how that write ends is nobody's business but the log's.

use crate::diff::{get_contract_version_diff, version_diff, ValidationError, ValidationErrorView};
use crate::key::{cache_key, derive_key};
use crate::reader::ReadError;
use crate::schema::{ContractVersionDiff, ContractVersionDiffView, ContractVersionSchema,
    ContractVersionSchemaView};
use vstd::prelude::*;
use vstd::string::*;

verus! {

/// Why no difference could be given.
#[derive(Debug, PartialEq, Eq)]
pub enum ResolveError {
    /// The two versions cannot be compared.
    Validation(ValidationError),
    /// The record store has no version of this number.
    RecordNotFound { contract_version: u32 },
    /// The record store failed, for `reason`.
    RecordStore { reason: String },
    /// The event does not answer what was asked for.
    OutOfTurn,
}

pub enum ResolveErrorView {
    Validation(ValidationErrorView),
    RecordNotFound { contract_version: u32 },
    RecordStore { reason: Seq<char> },
    OutOfTurn,
}

impl View for ResolveError {
    type V = ResolveErrorView;

    open spec fn view(&self) -> ResolveErrorView {
        match self {
            ResolveError::Validation(e) => ResolveErrorView::Validation(e@),
            ResolveError::RecordNotFound { contract_version } => ResolveErrorView::RecordNotFound {
                contract_version: *contract_version,
            },
            ResolveError::RecordStore { reason } => ResolveErrorView::RecordStore {
                reason: reason@,
            },
            ResolveError::OutOfTurn => ResolveErrorView::OutOfTurn,
        }
    }
}

/// What the record store answered when asked for one version.
#[derive(Debug, PartialEq, Eq)]
pub enum RecordFetch {
    Found { record: ContractVersionSchema },
    NotFound,
    Failed { reason: String },
}

pub enum RecordFetchView {
    Found { record: ContractVersionSchemaView },
    NotFound,
    Failed { reason: Seq<char> },
}

impl View for RecordFetch {
    type V = RecordFetchView;

    open spec fn view(&self) -> RecordFetchView {
        match self {
            RecordFetch::Found { record } => RecordFetchView::Found { record: record@ },
            RecordFetch::NotFound => RecordFetchView::NotFound,
            RecordFetch::Failed { reason } => RecordFetchView::Failed { reason: reason@ },
        }
    }
}

/// Where a resolution stands.
#[derive(Debug, Clone, Copy, PartialEq, Eq)]
pub enum ResolveState {
    /// Nothing was done yet.
    Idle,
    /// The cache was asked.
    LookingUp,
    /// The record store was asked.
    FetchingRecords,
    /// The answer was given.
    Done,
}

/// What happened since the last step.
#[derive(Debug, PartialEq, Eq)]
pub enum ResolveEvent {
    /// The difference is asked for.
    Begin,
    /// The cache answered: a difference, nothing, or an error.
    Cache { lookup: Result<Option<ContractVersionDiff>, ReadError> },
    /// The record store answered for the older and for the newer version.
    Records { older: RecordFetch, newer: RecordFetch },
}

pub enum ResolveEventView {
    Begin,
    Cache { lookup: Result<Option<ContractVersionDiffView>, ReadError> },
    Records { older: RecordFetchView, newer: RecordFetchView },
}

impl View for ResolveEvent {
    type V = ResolveEventView;

    open spec fn view(&self) -> ResolveEventView {
        match self {
            ResolveEvent::Begin => ResolveEventView::Begin,
            ResolveEvent::Cache { lookup } => ResolveEventView::Cache {
                lookup: match lookup {
                    Ok(Some(diff)) => Ok(Some(diff@)),
                    Ok(None) => Ok(None),
                    Err(e) => Err(*e),
                },
            },
            ResolveEvent::Records { older, newer } => ResolveEventView::Records {
                older: older@,
                newer: newer@,
            },
        }
    }
}

/// What is to be done next.
#[derive(Debug, PartialEq, Eq)]
pub enum ResolveAction {
    /// Ask the cache for what it holds under `key`.
    Lookup { key: String },
    /// Ask the record store for the two versions of the package.
    FetchRecords { package_hash: String, older_version: u32, newer_version: u32 },
    /// Give `result` to the requester now. Where `persist` holds a key, write
    /// the difference under it afterwards, without making the requester wait.
    Return { result: Result<ContractVersionDiff, ResolveError>, persist: Option<String> },
}

pub enum ResolveActionView {
    Lookup { key: Seq<char> },
    FetchRecords { package_hash: Seq<char>, older_version: u32, newer_version: u32 },
    Return { result: Result<ContractVersionDiffView, ResolveErrorView>, persist: Option<Seq<char>> },
}

impl View for ResolveAction {
    type V = ResolveActionView;

    open spec fn view(&self) -> ResolveActionView {
        match self {
            ResolveAction::Lookup { key } => ResolveActionView::Lookup { key: key@ },
            ResolveAction::FetchRecords { package_hash, older_version, newer_version } => {
                ResolveActionView::FetchRecords {
                    package_hash: package_hash@,
                    older_version: *older_version,
                    newer_version: *newer_version,
                }
            },
            ResolveAction::Return { result, persist } => ResolveActionView::Return {
                result: match result {
                    Ok(diff) => Ok(diff@),
                    Err(e) => Err(e@),
                },
                persist: persist.deep_view(),
            },
        }
    }
}

/// The answer to give once the record store has answered: the first thing that
/// went wrong with the older record, then with the newer one, then with
/// comparing them; the difference where nothing went wrong.
pub open spec fn resolved_from_records(
    older_version: u32,
    newer_version: u32,
    older: RecordFetchView,
    newer: RecordFetchView,
) -> Result<ContractVersionDiffView, ResolveErrorView> {
    match older {
        RecordFetchView::Failed { reason } => Err(ResolveErrorView::RecordStore { reason }),
        RecordFetchView::NotFound => Err(
            ResolveErrorView::RecordNotFound { contract_version: older_version },
        ),
        RecordFetchView::Found { record: v1 } => match newer {
            RecordFetchView::Failed { reason } => Err(ResolveErrorView::RecordStore { reason }),
            RecordFetchView::NotFound => Err(
                ResolveErrorView::RecordNotFound { contract_version: newer_version },
            ),
            RecordFetchView::Found { record: v2 } => match version_diff(v1, v2) {
                Ok(diff) => Ok(diff),
                Err(e) => Err(ResolveErrorView::Validation(e)),
            },
        },
    }
}

/// One step in resolving the difference from `older_version` to
/// `newer_version` of the package `package_hash`.
pub open spec fn resolve_step(
    package_hash: Seq<char>,
    older_version: u32,
    newer_version: u32,
    state: ResolveState,
    event: ResolveEventView,
) -> (ResolveState, ResolveActionView) {
    match (state, event) {
        (ResolveState::Idle, ResolveEventView::Begin) => (
            ResolveState::LookingUp,
            ResolveActionView::Lookup { key: cache_key(package_hash, older_version, newer_version) },
        ),
        (ResolveState::LookingUp, ResolveEventView::Cache { lookup }) => match lookup {
            Ok(Some(diff)) => (
                ResolveState::Done,
                ResolveActionView::Return { result: Ok(diff), persist: None },
            ),
            _ => (
                ResolveState::FetchingRecords,
                ResolveActionView::FetchRecords { package_hash, older_version, newer_version },
            ),
        },
        (ResolveState::FetchingRecords, ResolveEventView::Records { older, newer }) => {
            let result = resolved_from_records(older_version, newer_version, older, newer);
            (
                ResolveState::Done,
                ResolveActionView::Return {
                    result,
                    persist: if result is Ok {
                        Some(cache_key(package_hash, older_version, newer_version))
                    } else {
                        None
                    },
                },
            )
        },
        _ => (
            ResolveState::Done,
            ResolveActionView::Return { result: Err(ResolveErrorView::OutOfTurn), persist: None },
        ),
    }
}

fn from_records(
    older_version: u32,
    newer_version: u32,
    older: RecordFetch,
    newer: RecordFetch,
) -> (r: Result<ContractVersionDiff, ResolveError>)
    ensures
        match r {
            Ok(diff) => resolved_from_records(older_version, newer_version, older@, newer@) == Ok::<
                ContractVersionDiffView,
                ResolveErrorView,
            >(diff@),
            Err(e) => resolved_from_records(older_version, newer_version, older@, newer@) == Err::<
                ContractVersionDiffView,
                ResolveErrorView,
            >(e@),
        },
{
    let v1 = match older {
        RecordFetch::Found { record } => record,
        RecordFetch::NotFound => {
            return Err(ResolveError::RecordNotFound { contract_version: older_version });
        },
        RecordFetch::Failed { reason } => { return Err(ResolveError::RecordStore { reason }); },
    };
    let v2 = match newer {
        RecordFetch::Found { record } => record,
        RecordFetch::NotFound => {
            return Err(ResolveError::RecordNotFound { contract_version: newer_version });
        },
        RecordFetch::Failed { reason } => { return Err(ResolveError::RecordStore { reason }); },
    };
    match get_contract_version_diff(v1, v2) {
        Ok(diff) => Ok(diff),
        Err(e) => Err(ResolveError::Validation(e)),
    }
}

/// Takes one step in resolving the difference from `older_version` to
/// `newer_version` of the package `package_hash`: start with
/// [`ResolveState::Idle`] and [`ResolveEvent::Begin`], do what the action
/// says, and come back with the state returned and the event that tells how
/// it went, until the action is `Return`.
pub fn resolve(
    package_hash: &str,
    older_version: u32,
    newer_version: u32,
    state: ResolveState,
    event: ResolveEvent,
) -> (r: (ResolveState, ResolveAction))
    ensures
        (r.0, r.1@) == resolve_step(package_hash@, older_version, newer_version, state, event@),
{
    match (state, event) {
        (ResolveState::Idle, ResolveEvent::Begin) => (
            ResolveState::LookingUp,
            ResolveAction::Lookup { key: derive_key(package_hash, older_version, newer_version) },
        ),
        (ResolveState::LookingUp, ResolveEvent::Cache { lookup }) => match lookup {
            Ok(Some(diff)) => (
                ResolveState::Done,
                ResolveAction::Return { result: Ok(diff), persist: None },
            ),
            _ => (
                ResolveState::FetchingRecords,
                ResolveAction::FetchRecords {
                    package_hash: String::from_str(package_hash),
                    older_version,
                    newer_version,
                },
            ),
        },
        (ResolveState::FetchingRecords, ResolveEvent::Records { older, newer }) => {
            let result = from_records(older_version, newer_version, older, newer);
            let persist = if result.is_ok() {
                Some(derive_key(package_hash, older_version, newer_version))
            } else {
                None
            };
            (ResolveState::Done, ResolveAction::Return { result, persist })
        },
        _ => (
            ResolveState::Done,
            ResolveAction::Return { result: Err(ResolveError::OutOfTurn), persist: None },
        ),
    }
}

/// A hit in the cache is the answer: it is returned as it came, the record
/// store is not asked, and nothing is written back.
pub proof fn lemma_hit_returns_at_once(
    package_hash: Seq<char>,
    older_version: u32,
    newer_version: u32,
    diff: ContractVersionDiffView,
)
    ensures
        resolve_step(
            package_hash,
            older_version,
            newer_version,
            ResolveState::LookingUp,
            ResolveEventView::Cache { lookup: Ok(Some(diff)) },
        ) == (ResolveState::Done, ResolveActionView::Return { result: Ok(diff), persist: None }),
{
}

/// Whatever the cache says short of a hit, be it nothing or an error, the
/// record store is asked next: a failed read is never the requester's problem.
pub proof fn lemma_miss_falls_back(
    package_hash: Seq<char>,
    older_version: u32,
    newer_version: u32,
    lookup: Result<Option<ContractVersionDiffView>, ReadError>,
)
    requires
        !(lookup matches Ok(Some(_))),
    ensures
        resolve_step(
            package_hash,
            older_version,
            newer_version,
            ResolveState::LookingUp,
            ResolveEventView::Cache { lookup },
        ) == (
            ResolveState::FetchingRecords,
            ResolveActionView::FetchRecords { package_hash, older_version, newer_version },
        ),
{
}

/// A difference is written back exactly when it was computed afresh, and then
/// under the key it was looked up by. Two resolutions of the same request that
/// see the same records give the same answer and ask for the same write.
pub proof fn lemma_fresh_difference_is_persisted(
    package_hash: Seq<char>,
    older_version: u32,
    newer_version: u32,
    older: RecordFetchView,
    newer: RecordFetchView,
)
    ensures
        ({
            let step = resolve_step(
                package_hash,
                older_version,
                newer_version,
                ResolveState::FetchingRecords,
                ResolveEventView::Records { older, newer },
            );
            &&& step.0 == ResolveState::Done
            &&& step.1 matches ResolveActionView::Return { result, persist }
            &&& result == resolved_from_records(older_version, newer_version, older, newer)
            &&& persist == if result is Ok {
                Some(cache_key(package_hash, older_version, newer_version))
            } else {
                None::<Seq<char>>
            }
        }),
{
}

} // verus!
