//! A keyed index: entries kept in the order of their names, one per name.
//!
//! Filing an entry under a name that is already present replaces the entry
//! that was there, so an index built from a list holds, for every name in the
//! list, the last entry given for it. [`KeyedIndex`] is the index itself; the
//! functions on sequences say what it holds.

use crate::text::{lemma_name_before_irreflexive, lemma_name_before_total,
    lemma_name_before_transitive, name_before, name_lt, same_text};
use vstd::prelude::*;

verus! {

/// A name with the value filed under it.
#[derive(Debug, PartialEq, Eq)]
pub struct Entry {
    pub key: String,
    pub value: String,
}

/// What an [`Entry`] holds, as mathematical text.
pub struct EntryView {
    pub key: Seq<char>,
    pub value: Seq<char>,
}

impl View for Entry {
    type V = EntryView;

    open spec fn view(&self) -> EntryView {
        EntryView { key: self.key@, value: self.value@ }
    }
}

impl DeepView for Entry {
    type V = EntryView;

    open spec fn deep_view(&self) -> EntryView {
        self@
    }
}

impl Clone for Entry {
    fn clone(&self) -> (r: Self)
        ensures
            r@ == self@,
    {
        Entry { key: self.key.clone(), value: self.value.clone() }
    }
}

/// Every entry's name comes strictly before the names of the entries after it.
pub open spec fn sorted(idx: Seq<EntryView>) -> bool {
    forall|i: int, j: int| 0 <= i < j < idx.len() ==> name_before(idx[i].key, idx[j].key)
}

/// One past the position of the last entry whose name comes before `key`;
/// zero if there is none. In a sorted index this is the place where `key`
/// stands or would have to stand.
pub open spec fn rank(idx: Seq<EntryView>, key: Seq<char>) -> int
    decreases idx.len(),
{
    if idx.len() == 0 {
        0
    } else if name_before(idx.last().key, key) {
        idx.len() as int
    } else {
        rank(idx.drop_last(), key)
    }
}

/// The position of `key` in the index, if an entry stands under it.
pub open spec fn position(idx: Seq<EntryView>, key: Seq<char>) -> Option<int> {
    let p = rank(idx, key);
    if p < idx.len() && idx[p].key == key {
        Some(p)
    } else {
        None
    }
}

/// The value filed under `key`, if any.
pub open spec fn find(idx: Seq<EntryView>, key: Seq<char>) -> Option<Seq<char>> {
    match position(idx, key) {
        Some(p) => Some(idx[p].value),
        None => None,
    }
}

/// The index after `e` was filed: in the place of the entry with its name, or
/// else where its name belongs.
pub open spec fn upsert(idx: Seq<EntryView>, e: EntryView) -> Seq<EntryView> {
    let p = rank(idx, e.key);
    if p < idx.len() && idx[p].key == e.key {
        idx.update(p, e)
    } else {
        idx.insert(p, e)
    }
}

/// The index of a list: its entries filed one after the other, first to last.
pub open spec fn index_of(src: Seq<EntryView>) -> Seq<EntryView>
    decreases src.len(),
{
    if src.len() == 0 {
        Seq::empty()
    } else {
        upsert(index_of(src.drop_last()), src.last())
    }
}

/// The value of the last entry of `src` named `key`, if there is one.
pub open spec fn last_value(src: Seq<EntryView>, key: Seq<char>) -> Option<Seq<char>>
    decreases src.len(),
{
    if src.len() == 0 {
        None
    } else if src.last().key == key {
        Some(src.last().value)
    } else {
        last_value(src.drop_last(), key)
    }
}

/// Where `rank` points: within the index, after every earlier name, and, in a
/// sorted index, at or before every name that does not come before `key`.
pub proof fn lemma_rank(idx: Seq<EntryView>, key: Seq<char>)
    ensures
        0 <= rank(idx, key) <= idx.len(),
        rank(idx, key) > 0 ==> name_before(idx[rank(idx, key) - 1].key, key),
        forall|j: int| rank(idx, key) <= j < idx.len() ==> !name_before(#[trigger] idx[j].key, key),
        sorted(idx) ==> forall|j: int|
            0 <= j < rank(idx, key) ==> name_before(#[trigger] idx[j].key, key),
    decreases idx.len(),
{
    if idx.len() > 0 {
        let init = idx.drop_last();
        lemma_rank(init, key);
        if name_before(idx.last().key, key) {
            if sorted(idx) {
                assert forall|j: int| 0 <= j < idx.len() implies name_before(
                    #[trigger] idx[j].key,
                    key,
                ) by {
                    if j < idx.len() - 1 {
                        lemma_name_before_transitive(idx[j].key, idx.last().key, key);
                    }
                }
            }
        } else {
            assert forall|j: int| rank(idx, key) <= j < idx.len() implies !name_before(
                #[trigger] idx[j].key,
                key,
            ) by {
                if j < idx.len() - 1 {
                    assert(init[j] == idx[j]);
                }
            }
            if sorted(idx) {
                assert(sorted(init));
                assert forall|j: int| 0 <= j < rank(idx, key) implies name_before(
                    #[trigger] idx[j].key,
                    key,
                ) by {
                    assert(init[j] == idx[j]);
                }
            }
        }
    }
}

/// In a sorted index a name stands at one position at most, and `position`
/// finds it.
pub proof fn lemma_position(idx: Seq<EntryView>, key: Seq<char>)
    requires
        sorted(idx),
    ensures
        match position(idx, key) {
            Some(p) => 0 <= p < idx.len() && idx[p].key == key,
            None => true,
        },
        forall|i: int| 0 <= i < idx.len() && #[trigger] idx[i].key == key ==> position(idx, key) == Some(i),
{
    lemma_rank(idx, key);
    let p = rank(idx, key);
    assert forall|i: int| 0 <= i < idx.len() && #[trigger] idx[i].key == key implies position(
        idx,
        key,
    ) == Some(i) by {
        lemma_name_before_irreflexive(key);
        if i < p {
            assert(name_before(idx[i].key, key));
        } else if i > p {
            // idx[p] comes before idx[i] == key, yet rank says it does not
            assert(name_before(idx[p].key, idx[i].key));
            assert(!name_before(idx[p].key, key));
        } else {
        }
    }
}

/// Filing an entry keeps the index sorted.
pub proof fn lemma_upsert_sorted(idx: Seq<EntryView>, e: EntryView)
    requires
        sorted(idx),
    ensures
        sorted(upsert(idx, e)),
{
    lemma_rank(idx, e.key);
    let p = rank(idx, e.key);
    let out = upsert(idx, e);
    if p < idx.len() && idx[p].key == e.key {
        assert forall|i: int, j: int| 0 <= i < j < out.len() implies name_before(
            out[i].key,
            out[j].key,
        ) by {
            assert(out[i].key == idx[i].key);
            assert(out[j].key == idx[j].key);
        }
    } else {
        assert forall|i: int, j: int| 0 <= i < j < out.len() implies name_before(
            out[i].key,
            out[j].key,
        ) by {
            if j < p {
                assert(out[i] == idx[i] && out[j] == idx[j]);
            } else if j == p {
                assert(out[i] == idx[i]);
                assert(name_before(idx[i].key, e.key));
            } else if i < p {
                assert(out[i] == idx[i] && out[j] == idx[j - 1]);
                if i == j - 1 {
                } else {
                }
            } else if i == p {
                assert(out[j] == idx[j - 1]);
                assert(!name_before(idx[j - 1].key, e.key));
                lemma_name_before_total(idx[j - 1].key, e.key);
                if idx[j - 1].key == e.key {
                    // then position p itself would hold the name
                    if j - 1 > p {
                        assert(name_before(idx[p].key, idx[j - 1].key));
                        assert(!name_before(idx[p].key, e.key));
                    }
                }
            } else {
                assert(out[i] == idx[i - 1] && out[j] == idx[j - 1]);
            }
        }
    }
}

/// After filing `e`, its name yields its value and every other name yields
/// what it yielded before.
pub proof fn lemma_upsert_find(idx: Seq<EntryView>, e: EntryView, key: Seq<char>)
    requires
        sorted(idx),
    ensures
        find(upsert(idx, e), key) == if key == e.key {
            Some(e.value)
        } else {
            find(idx, key)
        },
{
    lemma_rank(idx, e.key);
    lemma_upsert_sorted(idx, e);
    let p = rank(idx, e.key);
    let out = upsert(idx, e);
    lemma_position(out, key);
    lemma_position(idx, key);
    let replaces = p < idx.len() && idx[p].key == e.key;
    if key == e.key {
        assert(out[p] == e);
    } else {
        match position(idx, key) {
            Some(q) => {
                if replaces {
                    assert(out[q] == idx[q]);
                } else if q < p {
                    assert(out[q] == idx[q]);
                } else {
                    assert(out[q + 1] == idx[q]);
                }
            },
            None => {
                match position(out, key) {
                    Some(r) => {
                        if replaces {
                            assert(out[r].key == idx[r].key);
                        } else if r < p {
                            assert(out[r] == idx[r]);
                        } else {
                            assert(out[r] == idx[r - 1]);
                        }
                    },
                    None => {},
                }
            },
        }
    }
}

/// The index of a list is sorted, and under every name it holds the value of
/// the last entry of the list with that name.
pub proof fn lemma_index_of(src: Seq<EntryView>, key: Seq<char>)
    ensures
        sorted(index_of(src)),
        find(index_of(src), key) == last_value(src, key),
    decreases src.len(),
{
    if src.len() > 0 {
        lemma_index_of(src.drop_last(), key);
        lemma_upsert_sorted(index_of(src.drop_last()), src.last());
        lemma_upsert_find(index_of(src.drop_last()), src.last(), key);
    }
}

/// No name stands twice.
pub open spec fn names_once(idx: Seq<EntryView>) -> bool {
    forall|i: int, j: int| 0 <= i < j < idx.len() ==> idx[i].key != idx[j].key
}

/// Where names ascend, each stands once.
pub proof fn lemma_sorted_names_once(idx: Seq<EntryView>)
    requires
        sorted(idx),
    ensures
        names_once(idx),
{
    assert forall|i: int, j: int| 0 <= i < j < idx.len() implies idx[i].key != idx[j].key by {
        lemma_name_before_irreflexive(idx[i].key);
    }
}

fn rank_of(idx: &Vec<Entry>, key: &str) -> (p: usize)
    ensures
        p == rank(idx.deep_view(), key@),
        p <= idx.len(),
{
    let mut p: usize = idx.len();
    assert(idx.deep_view().take(p as int) =~= idx.deep_view());
    while p > 0
        invariant
            p <= idx.len(),
            rank(idx.deep_view(), key@) == rank(idx.deep_view().take(p as int), key@),
        decreases p,
    {
        let ghost front = idx.deep_view().take(p as int);
        assert(front.last() == idx@[p - 1]@);
        if name_lt(idx[p - 1].key.as_str(), key) {
            return p;
        }
        assert(front.drop_last() =~= idx.deep_view().take(p - 1));
        p = p - 1;
    }
    p
}

fn lookup(idx: &Vec<Entry>, key: &str) -> (r: Option<usize>)
    ensures
        match r {
            Some(p) => position(idx.deep_view(), key@) == Some(p as int) && p < idx.len(),
            None => position(idx.deep_view(), key@) is None,
        },
{
    let p = rank_of(idx, key);
    if p < idx.len() && same_text(idx[p].key.as_str(), key) {
        assert(idx.deep_view()[p as int] == idx@[p as int]@);
        Some(p)
    } else {
        None
    }
}

fn file_entry(idx: &mut Vec<Entry>, e: Entry)
    ensures
        final(idx).deep_view() == upsert(old(idx).deep_view(), e@),
{
    let p = rank_of(idx, e.key.as_str());
    if p < idx.len() && idx[p].key == e.key {
        idx.set(p, e);
        assert(idx.deep_view() =~= old(idx).deep_view().update(p as int, e@));
    } else {
        idx.insert(p, e);
        assert(idx.deep_view() =~= old(idx).deep_view().insert(p as int, e@));
    }
}

/// Entries kept by name. The names ascend, so every name stands once; this
/// holds of every index, however it was made.
pub struct KeyedIndex {
    entries: Vec<Entry>,
}

impl View for KeyedIndex {
    type V = Seq<EntryView>;

    closed spec fn view(&self) -> Seq<EntryView> {
        self.entries.deep_view()
    }
}

impl KeyedIndex {
    #[verifier::type_invariant]
    spec fn names_ascend(&self) -> bool {
        sorted(self.entries.deep_view())
    }

    /// An index without entries.
    pub fn new() -> (r: Self)
        ensures
            r@ == Seq::<EntryView>::empty(),
    {
        let entries: Vec<Entry> = Vec::new();
        assert(entries.deep_view() =~= Seq::<EntryView>::empty());
        KeyedIndex { entries }
    }

    /// The index of `src`: its entries filed one after the other.
    pub fn from_entries(src: &Vec<Entry>) -> (r: Self)
        ensures
            r@ == index_of(src.deep_view()),
    {
        let mut entries: Vec<Entry> = Vec::new();
        let mut i: usize = 0;
        assert(src.deep_view().take(0) =~= Seq::<EntryView>::empty());
        assert(entries.deep_view() =~= Seq::<EntryView>::empty());
        while i < src.len()
            invariant
                i <= src.len(),
                entries.deep_view() == index_of(src.deep_view().take(i as int)),
            decreases src.len() - i,
        {
            let ghost next = src.deep_view().take(i + 1);
            assert(next.drop_last() =~= src.deep_view().take(i as int));
            assert(next.last() == src@[i as int]@);
            file_entry(&mut entries, src[i].clone());
            i = i + 1;
        }
        assert(src.deep_view().take(i as int) =~= src.deep_view());
        proof {
            lemma_index_of(src.deep_view(), Seq::empty());
        }
        KeyedIndex { entries }
    }

    /// Files `e`: in the place of the entry with its name, or else where its
    /// name belongs. Afterwards its name yields its value, and every other
    /// name yields what it yielded before.
    pub fn insert(&mut self, e: Entry)
        ensures
            final(self)@ == upsert(old(self)@, e@),
            forall|key: Seq<char>|
                #[trigger] find(final(self)@, key) == if key == e@.key {
                    Some(e@.value)
                } else {
                    find(old(self)@, key)
                },
    {
        proof {
            use_type_invariant(&*self);
            lemma_upsert_sorted(self.entries.deep_view(), e@);
            assert forall|key: Seq<char>|
                #[trigger] find(upsert(self.entries.deep_view(), e@), key) == if key == e@.key {
                    Some(e@.value)
                } else {
                    find(self.entries.deep_view(), key)
                } by {
                lemma_upsert_find(self.entries.deep_view(), e@, key);
            }
        }
        let mut entries: Vec<Entry> = Vec::new();
        core::mem::swap(&mut self.entries, &mut entries);
        file_entry(&mut entries, e);
        core::mem::swap(&mut self.entries, &mut entries);
    }

    /// The entries, in the order of their names.
    pub fn entries(&self) -> (r: &Vec<Entry>)
        ensures
            r.deep_view() == self@,
            sorted(self@),
            names_once(self@),
    {
        proof {
            use_type_invariant(self);
            lemma_sorted_names_once(self.entries.deep_view());
        }
        &self.entries
    }

    /// How many names the index holds.
    pub fn len(&self) -> (r: usize)
        ensures
            r == self@.len(),
    {
        self.entries.len()
    }

    /// Where the entry named `key` stands, if there is one.
    pub fn position(&self, key: &str) -> (r: Option<usize>)
        ensures
            match r {
                Some(p) => p < self@.len() && self@[p as int].key == key@ && position(self@, key@)
                    == Some(p as int),
                None => position(self@, key@) is None && forall|i: int|
                    0 <= i < self@.len() ==> (#[trigger] self@[i]).key != key@,
            },
    {
        proof {
            use_type_invariant(self);
            lemma_position(self.entries.deep_view(), key@);
        }
        let r = lookup(&self.entries, key);
        assert(match r {
            Some(p) => position(self.entries.deep_view(), key@) == Some(p as int),
            None => position(self.entries.deep_view(), key@) is None,
        });
        r
    }

    /// The value filed under `key`, if any.
    pub fn get(&self, key: &str) -> (r: Option<&String>)
        ensures
            match r {
                Some(value) => find(self@, key@) == Some(value@),
                None => find(self@, key@) is None,
            },
    {
        match lookup(&self.entries, key) {
            Some(p) => {
                assert(self.entries.deep_view()[p as int] == self.entries@[p as int]@);
                Some(&self.entries[p].value)
            },
            None => None,
        }
    }
}

} // verus!
