//! The store that keeps computed differences: a table from cache key to
//! serialised difference, written by its owner only and read by anyone.
//!
//! Writing under a key that is already taken replaces what was there, so
//! writing the same difference again changes nothing.

use crate::index::{find, Entry, EntryView, KeyedIndex};
use crate::reader::{with_lookup, DictionaryLookupView, FetchActionView, FetchState};
use crate::text::same_text;
use vstd::prelude::*;
use vstd::string::*;

verus! {

/// Why the store refused to be written.
#[derive(Debug, Clone, Copy, PartialEq, Eq)]
pub enum Error {
    /// The caller is not the owner of the store.
    NotAuthorized,
    /// The key is already taken. The store never answers with this: taken keys
    /// are overwritten.
    VersionAlreadyExists,
}

impl Error {
    /// The number under which the chain reports the error.
    pub fn code(&self) -> (r: u16)
        ensures
            r == match *self {
                Error::NotAuthorized => 1u16,
                Error::VersionAlreadyExists => 2u16,
            },
    {
        match self {
            Error::NotAuthorized => 1,
            Error::VersionAlreadyExists => 2,
        }
    }
}

/// The store.
pub struct Observability {
    diffs: KeyedIndex,
    latest_version: String,
    owner: String,
}

/// What the store holds.
pub struct ObservabilityView {
    /// The serialised differences by their keys.
    pub diffs: Map<Seq<char>, Seq<char>>,
    /// The key that was written last; empty before the first write.
    pub latest_version: Seq<char>,
    /// The account that may write.
    pub owner: Seq<char>,
}

/// The table that an index stands for.
pub open spec fn table_of(idx: Seq<EntryView>) -> Map<Seq<char>, Seq<char>> {
    Map::new(|key: Seq<char>| find(idx, key) is Some, |key: Seq<char>| find(idx, key)->0)
}

/// The store after `caller` asked to write `diff` under `version_id`, and
/// the answer it got. The owner's write is done and remembered as the latest;
/// anybody else's is refused and changes nothing.
pub open spec fn stored(
    store: ObservabilityView,
    caller: Seq<char>,
    version_id: Seq<char>,
    diff: Seq<char>,
) -> (ObservabilityView, Result<(), Error>) {
    if caller == store.owner {
        (
            ObservabilityView {
                diffs: store.diffs.insert(version_id, diff),
                latest_version: version_id,
                owner: store.owner,
            },
            Ok(()),
        )
    } else {
        (store, Err(Error::NotAuthorized))
    }
}

/// Writing the same difference under the same key a second time is accepted
/// like the first and leaves the store as the first write left it.
pub proof fn lemma_store_idempotent(
    store: ObservabilityView,
    caller: Seq<char>,
    version_id: Seq<char>,
    diff: Seq<char>,
)
    ensures
        ({
            let once = stored(store, caller, version_id, diff);
            let twice = stored(once.0, caller, version_id, diff);
            &&& twice.0 == once.0
            &&& twice.1 == once.1
            &&& once.1 is Ok ==> once.0.diffs.contains_key(version_id) && once.0.diffs[version_id]
                == diff
        }),
{
    let once = stored(store, caller, version_id, diff);
    if caller == store.owner {
        assert(once.0.diffs.insert(version_id, diff) =~= once.0.diffs);
    }
}

/// A write leaves every other key as it was.
pub proof fn lemma_store_keeps_other_keys(
    store: ObservabilityView,
    caller: Seq<char>,
    version_id: Seq<char>,
    diff: Seq<char>,
    other: Seq<char>,
)
    requires
        other != version_id,
    ensures
        ({
            let after = stored(store, caller, version_id, diff).0;
            &&& after.diffs.contains_key(other) == store.diffs.contains_key(other)
            &&& store.diffs.contains_key(other) ==> after.diffs[other] == store.diffs[other]
        }),
{
}

/// What a reader finds in the store under `version_id`.
pub open spec fn found_in(store: ObservabilityView, version_id: Seq<char>) -> DictionaryLookupView {
    if store.diffs.contains_key(version_id) {
        DictionaryLookupView::Found { payload: store.diffs[version_id] }
    } else {
        DictionaryLookupView::NotFound
    }
}

/// What the owner wrote is what a reader gets: after a difference was written
/// under a key, a read of that key ends with that very payload to decode, and
/// with a miss only where the payload is empty.
pub proof fn lemma_written_is_read(
    store: ObservabilityView,
    version_id: Seq<char>,
    diff: Seq<char>,
)
    ensures
        ({
            let after = stored(store, store.owner, version_id, diff).0;
            with_lookup(found_in(after, version_id)) == if diff.len() == 0 {
                (FetchState::Done, FetchActionView::Miss)
            } else {
                (FetchState::Done, FetchActionView::Decode { payload: diff })
            }
        }),
{
}

/// A key that was never written is a miss.
pub proof fn lemma_unwritten_is_a_miss(store: ObservabilityView, version_id: Seq<char>)
    requires
        !store.diffs.contains_key(version_id),
    ensures
        with_lookup(found_in(store, version_id)) == (FetchState::Done, FetchActionView::Miss),
{
}

impl View for Observability {
    type V = ObservabilityView;

    closed spec fn view(&self) -> ObservabilityView {
        ObservabilityView {
            diffs: table_of(self.diffs@),
            latest_version: self.latest_version@,
            owner: self.owner@,
        }
    }
}

impl Observability {
    /// An empty store owned by `caller`.
    pub fn init(caller: String) -> (r: Self)
        ensures
            r@ == (ObservabilityView {
                diffs: Map::empty(),
                latest_version: Seq::empty(),
                owner: caller@,
            }),
    {
        let diffs = KeyedIndex::new();
        assert(table_of(diffs@) =~= Map::empty());
        Observability { diffs, latest_version: String::new(), owner: caller }
    }

    /// Writes `diff` under `version_id` for `caller`. Only the owner may
    /// write; what was under the key before is replaced.
    pub fn store_diff(&mut self, caller: &str, version_id: String, diff: String) -> (r: Result<
        (),
        Error,
    >)
        ensures
            (final(self)@, r) == stored(old(self)@, caller@, version_id@, diff@),
    {
        if !same_text(caller, self.owner.as_str()) {
            return Err(Error::NotAuthorized);
        }
        let ghost before = self.diffs@;
        self.diffs.insert(Entry { key: version_id.clone(), value: diff });
        self.latest_version = version_id;
        assert(table_of(self.diffs@) =~= table_of(before).insert(version_id@, diff@));
        Ok(())
    }

    /// What is stored under `version_id`, if anything.
    pub fn get_diff(&self, version_id: String) -> (r: Option<String>)
        ensures
            match r {
                Some(diff) => self@.diffs.contains_key(version_id@) && self@.diffs[version_id@]
                    == diff@,
                None => !self@.diffs.contains_key(version_id@),
            },
    {
        match self.diffs.get(version_id.as_str()) {
            Some(diff) => Some(diff.clone()),
            None => None,
        }
    }

    /// The key that was written last; empty before the first write.
    pub fn get_latest_version(&self) -> (r: String)
        ensures
            r@ == self@.latest_version,
    {
        self.latest_version.clone()
    }

    /// The account that may write.
    pub fn owner(&self) -> (r: String)
        ensures
            r@ == self@.owner,
    {
        self.owner.clone()
    }

    /// Does nothing; a way to see that the store answers.
    pub fn ping(&self) {
    }
}

} // verus!
