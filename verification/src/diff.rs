//! The difference between two versions of a contract package.
//!
//! Both versions' entry points are indexed by name, and so are their named
//! keys. The older index is walked first and yields what was removed or
//! modified, then the newer index yields what was added. Names come in the
//! order of the index, so the same two versions always give the same list.

use crate::index::{find, index_of, last_value, lemma_index_of, lemma_position, position, sorted,
    Entry, EntryView, KeyedIndex};
use crate::schema::{entry_point_entries, entry_point_entry, named_key_entries, named_key_entry,
    ContractEntryPointDiff, ContractEntryPointDiffView, ContractNamedKeysDiff,
    ContractNamedKeysDiffView, ContractVersionDiff, ContractVersionDiffMeta,
    ContractVersionDiffMetaView, ContractVersionDiffView, ContractVersionSchema,
    ContractVersionSchemaView, EntryPoint, EntryPointView, NamedKeyView};
use crate::text::{decimal, name_before, push_decimal, same_text};
use vstd::prelude::*;
use vstd::string::*;

verus! {

/// Why two versions cannot be compared.
#[derive(Debug, PartialEq, Eq)]
pub enum ValidationError {
    /// The two versions belong to different packages.
    PackageMismatch,
    /// The version given as the older one has the higher number.
    WrongOrder { contract_version: u32, contract_hash: String },
    /// Both versions have the same number.
    SameVersion { contract_version: u32, contract_hash: String },
}

pub enum ValidationErrorView {
    PackageMismatch,
    WrongOrder { contract_version: u32, contract_hash: Seq<char> },
    SameVersion { contract_version: u32, contract_hash: Seq<char> },
}

impl View for ValidationError {
    type V = ValidationErrorView;

    open spec fn view(&self) -> ValidationErrorView {
        match self {
            ValidationError::PackageMismatch => ValidationErrorView::PackageMismatch,
            ValidationError::WrongOrder { contract_version, contract_hash } => {
                ValidationErrorView::WrongOrder {
                    contract_version: *contract_version,
                    contract_hash: contract_hash@,
                }
            },
            ValidationError::SameVersion { contract_version, contract_hash } => {
                ValidationErrorView::SameVersion {
                    contract_version: *contract_version,
                    contract_hash: contract_hash@,
                }
            },
        }
    }
}

impl Clone for ValidationError {
    fn clone(&self) -> (r: Self)
        ensures
            r@ == self@,
    {
        match self {
            ValidationError::PackageMismatch => ValidationError::PackageMismatch,
            ValidationError::WrongOrder { contract_version, contract_hash } => {
                ValidationError::WrongOrder {
                    contract_version: *contract_version,
                    contract_hash: contract_hash.clone(),
                }
            },
            ValidationError::SameVersion { contract_version, contract_hash } => {
                ValidationError::SameVersion {
                    contract_version: *contract_version,
                    contract_hash: contract_hash.clone(),
                }
            },
        }
    }
}

/// The sentence that reports a validation error.
pub open spec fn validation_message(e: ValidationErrorView) -> Seq<char> {
    match e {
        ValidationErrorView::PackageMismatch => "Contracts do not belong to same package"@,
        ValidationErrorView::WrongOrder { contract_version, contract_hash } => "Contract "@
            + decimal(contract_version as nat) + " is older than contract "@ + contract_hash,
        ValidationErrorView::SameVersion { contract_version, contract_hash } => "Contract "@
            + decimal(contract_version as nat) + " is same as contract "@ + contract_hash,
    }
}

impl ValidationError {
    /// The error as a sentence.
    pub fn message(&self) -> (r: String)
        ensures
            r@ == validation_message(self@),
    {
        match self {
            ValidationError::PackageMismatch => String::from_str(
                "Contracts do not belong to same package",
            ),
            ValidationError::WrongOrder { contract_version, contract_hash } => {
                let mut s = String::from_str("Contract ");
                push_decimal(&mut s, *contract_version);
                s.append(" is older than contract ");
                s.append(contract_hash.as_str());
                s
            },
            ValidationError::SameVersion { contract_version, contract_hash } => {
                let mut s = String::from_str("Contract ");
                push_decimal(&mut s, *contract_version);
                s.append(" is same as contract ");
                s.append(contract_hash.as_str());
                s
            },
        }
    }
}

/// What the entry `e` of the older index contributes: `Removed` where the newer
/// index has no entry of that name, `Modified` where it has one with another
/// value, nothing where it has the same.
pub open spec fn older_delta(e: EntryView, newer: Seq<EntryView>) -> Seq<ContractNamedKeysDiffView> {
    match find(newer, e.key) {
        None => seq![ContractNamedKeysDiffView::Removed { key: e.key, value: e.value }],
        Some(v) => if v != e.value {
            seq![ContractNamedKeysDiffView::Modified { key: e.key, from: e.value, to: v }]
        } else {
            Seq::empty()
        },
    }
}

/// What the entry `e` of the newer index contributes: `Added` where the older
/// index has no entry of that name.
pub open spec fn newer_delta(e: EntryView, older: Seq<EntryView>) -> Seq<ContractNamedKeysDiffView> {
    match find(older, e.key) {
        None => seq![ContractNamedKeysDiffView::Added { key: e.key, value: e.value }],
        Some(_v) => Seq::empty(),
    }
}

/// The contributions of the first `n` entries of the older index, in order.
pub open spec fn older_pass(older: Seq<EntryView>, newer: Seq<EntryView>, n: int) -> Seq<
    ContractNamedKeysDiffView,
>
    decreases n,
{
    if n <= 0 {
        Seq::empty()
    } else {
        older_pass(older, newer, n - 1) + older_delta(older[n - 1], newer)
    }
}

/// The contributions of the first `n` entries of the newer index, in order.
pub open spec fn newer_pass(newer: Seq<EntryView>, older: Seq<EntryView>, n: int) -> Seq<
    ContractNamedKeysDiffView,
>
    decreases n,
{
    if n <= 0 {
        Seq::empty()
    } else {
        newer_pass(newer, older, n - 1) + newer_delta(newer[n - 1], older)
    }
}

/// The differences between two lists of entries: what the older index yields,
/// then what the newer index yields.
pub open spec fn deltas(older: Seq<EntryView>, newer: Seq<EntryView>) -> Seq<
    ContractNamedKeysDiffView,
> {
    let o = index_of(older);
    let n = index_of(newer);
    older_pass(o, n, o.len() as int) + newer_pass(n, o, n.len() as int)
}

/// The difference of two entry points, from the difference of their entries.
pub open spec fn entry_point_delta(d: ContractNamedKeysDiffView) -> ContractEntryPointDiffView {
    match d {
        ContractNamedKeysDiffView::Added { key, value } => ContractEntryPointDiffView::Added(
            EntryPointView { name: key, signature: value },
        ),
        ContractNamedKeysDiffView::Removed { key, value } => ContractEntryPointDiffView::Removed(
            EntryPointView { name: key, signature: value },
        ),
        ContractNamedKeysDiffView::Modified { key, from, to } => ContractEntryPointDiffView::Modified {
            from: EntryPointView { name: key, signature: from },
            to: EntryPointView { name: key, signature: to },
        },
    }
}

/// What a difference remembers of the version `v`.
pub open spec fn meta_of(v: ContractVersionSchemaView) -> ContractVersionDiffMetaView {
    ContractVersionDiffMetaView {
        contract_hash: v.contract_hash,
        timestamp: v.age,
        contract_version: v.contract_version,
        is_disabled: v.disabled,
        wasm_hash: v.contract_wasm_hash,
    }
}

/// The reason for which `v1` cannot be compared with `v2` as its successor, if
/// there is one. The package is looked at first, then the order.
pub open spec fn validation_error(
    v1: ContractVersionSchemaView,
    v2: ContractVersionSchemaView,
) -> Option<ValidationErrorView> {
    if v1.contract_package_hash != v2.contract_package_hash {
        Some(ValidationErrorView::PackageMismatch)
    } else if v1.contract_version > v2.contract_version {
        Some(
            ValidationErrorView::WrongOrder {
                contract_version: v1.contract_version,
                contract_hash: v2.contract_hash,
            },
        )
    } else if v1.contract_version == v2.contract_version {
        Some(
            ValidationErrorView::SameVersion {
                contract_version: v1.contract_version,
                contract_hash: v2.contract_hash,
            },
        )
    } else {
        None
    }
}

/// The difference from `v1` to `v2`, taken as comparable.
pub open spec fn diff_of(
    v1: ContractVersionSchemaView,
    v2: ContractVersionSchemaView,
) -> ContractVersionDiffView {
    ContractVersionDiffView {
        v1: meta_of(v1),
        v2: meta_of(v2),
        contract_package_hash: v1.contract_package_hash,
        entry_points: deltas(
            v1.entry_points.map_values(|e: EntryPointView| entry_point_entry(e)),
            v2.entry_points.map_values(|e: EntryPointView| entry_point_entry(e)),
        ).map_values(|d: ContractNamedKeysDiffView| entry_point_delta(d)),
        named_keys: deltas(
            v1.named_keys.map_values(|k: NamedKeyView| named_key_entry(k)),
            v2.named_keys.map_values(|k: NamedKeyView| named_key_entry(k)),
        ),
    }
}

/// The difference from the older version `v1` to the newer version `v2`, or
/// the reason for which there is none.
pub open spec fn version_diff(
    v1: ContractVersionSchemaView,
    v2: ContractVersionSchemaView,
) -> Result<ContractVersionDiffView, ValidationErrorView> {
    match validation_error(v1, v2) {
        Some(e) => Err(e),
        None => Ok(diff_of(v1, v2)),
    }
}

fn walk_older(older: &KeyedIndex, newer: &KeyedIndex, out: &mut Vec<ContractNamedKeysDiff>)
    ensures
        final(out).deep_view() == old(out).deep_view() + older_pass(
            older@,
            newer@,
            older@.len() as int,
        ),
{
    let entries = older.entries();
    let mut i: usize = 0;
    assert(out.deep_view() + Seq::<ContractNamedKeysDiffView>::empty() =~= out.deep_view());
    while i < entries.len()
        invariant
            i <= entries.len(),
            entries.deep_view() == older@,
            out.deep_view() == old(out).deep_view() + older_pass(older@, newer@, i as int),
        decreases entries.len() - i,
    {
        let e = &entries[i];
        let ghost before = out.deep_view();
        let ghost step = older_delta(e@, newer@);
        assert(entries.deep_view()[i as int] == e@);
        match newer.get(e.key.as_str()) {
            None => {
                out.push(
                    ContractNamedKeysDiff::Removed { key: e.key.clone(), value: e.value.clone() },
                );
            },
            Some(value) => {
                if !same_text(value.as_str(), e.value.as_str()) {
                    out.push(
                        ContractNamedKeysDiff::Modified {
                            key: e.key.clone(),
                            from: e.value.clone(),
                            to: value.clone(),
                        },
                    );
                }
            },
        }
        assert(out.deep_view() =~= before + step);
        assert(old(out).deep_view() + (older_pass(older@, newer@, i as int) + step) =~= before
            + step);
        i = i + 1;
    }
}

fn walk_newer(newer: &KeyedIndex, older: &KeyedIndex, out: &mut Vec<ContractNamedKeysDiff>)
    ensures
        final(out).deep_view() == old(out).deep_view() + newer_pass(
            newer@,
            older@,
            newer@.len() as int,
        ),
{
    let entries = newer.entries();
    let mut i: usize = 0;
    assert(out.deep_view() + Seq::<ContractNamedKeysDiffView>::empty() =~= out.deep_view());
    while i < entries.len()
        invariant
            i <= entries.len(),
            entries.deep_view() == newer@,
            out.deep_view() == old(out).deep_view() + newer_pass(newer@, older@, i as int),
        decreases entries.len() - i,
    {
        let e = &entries[i];
        let ghost before = out.deep_view();
        let ghost step = newer_delta(e@, older@);
        assert(entries.deep_view()[i as int] == e@);
        if older.get(e.key.as_str()).is_none() {
            out.push(ContractNamedKeysDiff::Added { key: e.key.clone(), value: e.value.clone() });
        }
        assert(out.deep_view() =~= before + step);
        assert(old(out).deep_view() + (newer_pass(newer@, older@, i as int) + step) =~= before
            + step);
        i = i + 1;
    }
}

/// The differences between two lists of entries.
pub fn entry_deltas(older: &Vec<Entry>, newer: &Vec<Entry>) -> (r: Vec<ContractNamedKeysDiff>)
    ensures
        r.deep_view() == deltas(older.deep_view(), newer.deep_view()),
{
    let o = KeyedIndex::from_entries(older);
    let n = KeyedIndex::from_entries(newer);
    let mut out: Vec<ContractNamedKeysDiff> = Vec::new();
    walk_older(&o, &n, &mut out);
    walk_newer(&n, &o, &mut out);
    assert(out.deep_view() =~= deltas(older.deep_view(), newer.deep_view()));
    out
}

fn to_entry_point_diff(d: &ContractNamedKeysDiff) -> (r: ContractEntryPointDiff)
    ensures
        r@ == entry_point_delta(d@),
{
    match d {
        ContractNamedKeysDiff::Added { key, value } => ContractEntryPointDiff::Added(
            EntryPoint { name: key.clone(), signature: value.clone() },
        ),
        ContractNamedKeysDiff::Removed { key, value } => ContractEntryPointDiff::Removed(
            EntryPoint { name: key.clone(), signature: value.clone() },
        ),
        ContractNamedKeysDiff::Modified { key, from, to } => ContractEntryPointDiff::Modified {
            from: EntryPoint { name: key.clone(), signature: from.clone() },
            to: EntryPoint { name: key.clone(), signature: to.clone() },
        },
    }
}

fn to_entry_point_diffs(ds: &Vec<ContractNamedKeysDiff>) -> (r: Vec<ContractEntryPointDiff>)
    ensures
        r.deep_view() == ds.deep_view().map_values(
            |d: ContractNamedKeysDiffView| entry_point_delta(d),
        ),
{
    let mut r: Vec<ContractEntryPointDiff> = Vec::new();
    let mut i: usize = 0;
    while i < ds.len()
        invariant
            i <= ds.len(),
            r.len() == i,
            forall|j: int| 0 <= j < i ==> r@[j]@ == entry_point_delta(#[trigger] ds@[j]@),
        decreases ds.len() - i,
    {
        r.push(to_entry_point_diff(&ds[i]));
        i = i + 1;
    }
    assert(r.deep_view() =~= ds.deep_view().map_values(
        |d: ContractNamedKeysDiffView| entry_point_delta(d),
    ));
    r
}

fn meta(v: &ContractVersionSchema) -> (r: ContractVersionDiffMeta)
    ensures
        r@ == meta_of(v@),
{
    ContractVersionDiffMeta {
        contract_hash: v.contract_hash.clone(),
        timestamp: v.age.clone(),
        contract_version: v.contract_version,
        is_disabled: v.disabled,
        wasm_hash: v.contract_wasm_hash.clone(),
    }
}

/// Computes what changed from the older version `v1` to the newer version `v2`.
///
/// The two must belong to one package, and `v1` must have the lower version
/// number: the arguments are never swapped, and a version is not compared with
/// itself.
pub fn get_contract_version_diff(v1: ContractVersionSchema, v2: ContractVersionSchema) -> (r: Result<
    ContractVersionDiff,
    ValidationError,
>)
    ensures
        match r {
            Ok(d) => version_diff(v1@, v2@) == Ok::<ContractVersionDiffView, ValidationErrorView>(d@),
            Err(e) => version_diff(v1@, v2@) == Err::<ContractVersionDiffView, ValidationErrorView>(
                e@,
            ),
        },
{
    if !same_text(v1.contract_package_hash.as_str(), v2.contract_package_hash.as_str()) {
        return Err(ValidationError::PackageMismatch);
    }
    if v1.contract_version > v2.contract_version {
        return Err(
            ValidationError::WrongOrder {
                contract_version: v1.contract_version,
                contract_hash: v2.contract_hash.clone(),
            },
        );
    }
    if v1.contract_version == v2.contract_version {
        return Err(
            ValidationError::SameVersion {
                contract_version: v1.contract_version,
                contract_hash: v2.contract_hash.clone(),
            },
        );
    }
    let entry_point_diffs = to_entry_point_diffs(
        &entry_deltas(&entry_point_entries(&v1.entry_points), &entry_point_entries(&v2.entry_points)),
    );
    let named_keys_diff = entry_deltas(
        &named_key_entries(&v1.named_keys),
        &named_key_entries(&v2.named_keys),
    );
    Ok(
        ContractVersionDiff {
            v1: meta(&v1),
            v2: meta(&v2),
            contract_package_hash: v1.contract_package_hash.clone(),
            entry_points: entry_point_diffs,
            named_keys: named_keys_diff,
        },
    )
}

/// What a list of differences says of one name: the sentence that a
/// difference `d` states about the two lists it was computed from.
pub open spec fn delta_holds(
    d: ContractNamedKeysDiffView,
    older: Seq<EntryView>,
    newer: Seq<EntryView>,
) -> bool {
    match d {
        ContractNamedKeysDiffView::Removed { key, value } => last_value(older, key) == Some(value)
            && last_value(newer, key) is None,
        ContractNamedKeysDiffView::Modified { key, from, to } => last_value(older, key) == Some(
            from,
        ) && last_value(newer, key) == Some(to) && from != to,
        ContractNamedKeysDiffView::Added { key, value } => last_value(older, key) is None
            && last_value(newer, key) == Some(value),
    }
}

proof fn lemma_older_pass_contains(
    older: Seq<EntryView>,
    newer: Seq<EntryView>,
    n: int,
    d: ContractNamedKeysDiffView,
)
    requires
        0 <= n <= older.len(),
    ensures
        older_pass(older, newer, n).contains(d) <==> exists|i: int|
            0 <= i < n && #[trigger] older_delta(older[i], newer).contains(d),
    decreases n,
{
    if n > 0 {
        lemma_older_pass_contains(older, newer, n - 1, d);
        let front = older_pass(older, newer, n - 1);
        let step = older_delta(older[n - 1], newer);
        lemma_concat_contains(front, step, d);
        if front.contains(d) {
            let i = choose|i: int|
                0 <= i < n - 1 && #[trigger] older_delta(older[i], newer).contains(d);
            assert(0 <= i < n && older_delta(older[i], newer).contains(d));
        }
        if exists|i: int| 0 <= i < n && #[trigger] older_delta(older[i], newer).contains(d) {
            let i = choose|i: int| 0 <= i < n && #[trigger] older_delta(older[i], newer).contains(d);
            if i < n - 1 {
                assert(0 <= i < n - 1 && older_delta(older[i], newer).contains(d));
            }
        }
    }
}

proof fn lemma_newer_pass_contains(
    newer: Seq<EntryView>,
    older: Seq<EntryView>,
    n: int,
    d: ContractNamedKeysDiffView,
)
    requires
        0 <= n <= newer.len(),
    ensures
        newer_pass(newer, older, n).contains(d) <==> exists|i: int|
            0 <= i < n && #[trigger] newer_delta(newer[i], older).contains(d),
    decreases n,
{
    if n > 0 {
        lemma_newer_pass_contains(newer, older, n - 1, d);
        let front = newer_pass(newer, older, n - 1);
        let step = newer_delta(newer[n - 1], older);
        lemma_concat_contains(front, step, d);
        if front.contains(d) {
            let i = choose|i: int|
                0 <= i < n - 1 && #[trigger] newer_delta(newer[i], older).contains(d);
            assert(0 <= i < n && newer_delta(newer[i], older).contains(d));
        }
        if exists|i: int| 0 <= i < n && #[trigger] newer_delta(newer[i], older).contains(d) {
            let i = choose|i: int| 0 <= i < n && #[trigger] newer_delta(newer[i], older).contains(d);
            if i < n - 1 {
                assert(0 <= i < n - 1 && newer_delta(newer[i], older).contains(d));
            }
        }
    }
}

proof fn lemma_concat_contains<T>(a: Seq<T>, b: Seq<T>, x: T)
    ensures
        (a + b).contains(x) <==> a.contains(x) || b.contains(x),
{
    if a.contains(x) {
        let i = choose|i: int| 0 <= i < a.len() && a[i] == x;
        assert((a + b)[i] == x);
    }
    if b.contains(x) {
        let i = choose|i: int| 0 <= i < b.len() && b[i] == x;
        assert((a + b)[a.len() + i] == x);
    }
    if (a + b).contains(x) {
        let i = choose|i: int| 0 <= i < (a + b).len() && (a + b)[i] == x;
        if i < a.len() {
            assert(a[i] == x);
        } else {
            assert(b[i - a.len()] == x);
        }
    }
}

/// A difference is listed exactly when it is true of the two lists: `Removed`
/// for a name that only the older list has, `Added` for one that only the
/// newer list has, `Modified` for one that both have with different values.
/// Where a list names something twice, its last entry counts.
pub proof fn lemma_deltas_meaning(
    older: Seq<EntryView>,
    newer: Seq<EntryView>,
    d: ContractNamedKeysDiffView,
)
    ensures
        deltas(older, newer).contains(d) <==> delta_holds(d, older, newer),
{
    let o = index_of(older);
    let n = index_of(newer);
    let key = match d {
        ContractNamedKeysDiffView::Removed { key, .. } => key,
        ContractNamedKeysDiffView::Modified { key, .. } => key,
        ContractNamedKeysDiffView::Added { key, .. } => key,
    };
    lemma_index_of(older, key);
    lemma_index_of(newer, key);
    lemma_position(o, key);
    lemma_position(n, key);
    lemma_older_pass_contains(o, n, o.len() as int, d);
    lemma_newer_pass_contains(n, o, n.len() as int, d);
    lemma_concat_contains(
        older_pass(o, n, o.len() as int),
        newer_pass(n, o, n.len() as int),
        d,
    );
    if deltas(older, newer).contains(d) {
        if older_pass(o, n, o.len() as int).contains(d) {
            let i = choose|i: int|
                0 <= i < o.len() && #[trigger] older_delta(o[i], n).contains(d);
            assert(o[i].key == key);
        } else {
            let i = choose|i: int|
                0 <= i < n.len() && #[trigger] newer_delta(n[i], o).contains(d);
            assert(n[i].key == key);
        }
    }
    if delta_holds(d, older, newer) {
        match d {
            ContractNamedKeysDiffView::Added { key, value } => {
                let i = position(n, key)->0;
                assert(newer_delta(n[i], o)[0] == d);
                assert(newer_delta(n[i], o).contains(d));
            },
            _ => {
                let i = position(o, key)->0;
                assert(older_delta(o[i], n)[0] == d);
                assert(older_delta(o[i], n).contains(d));
            },
        }
    }
}

/// Differences found in the older version come first: nothing is listed as
/// `Removed` or `Modified` after something was listed as `Added`.
pub proof fn lemma_deltas_order(older: Seq<EntryView>, newer: Seq<EntryView>, i: int, j: int)
    requires
        0 <= i < j < deltas(older, newer).len(),
        deltas(older, newer)[i] is Added,
    ensures
        deltas(older, newer)[j] is Added,
{
    let o = index_of(older);
    let n = index_of(newer);
    lemma_older_pass_kinds(o, n, o.len() as int);
    lemma_newer_pass_kinds(n, o, n.len() as int);
}

proof fn lemma_older_pass_kinds(older: Seq<EntryView>, newer: Seq<EntryView>, n: int)
    requires
        0 <= n <= older.len(),
    ensures
        forall|i: int|
            0 <= i < older_pass(older, newer, n).len() ==> !(#[trigger] older_pass(
                older,
                newer,
                n,
            )[i] is Added),
    decreases n,
{
    if n > 0 {
        lemma_older_pass_kinds(older, newer, n - 1);
    }
}

proof fn lemma_newer_pass_kinds(newer: Seq<EntryView>, older: Seq<EntryView>, n: int)
    requires
        0 <= n <= newer.len(),
    ensures
        forall|i: int|
            0 <= i < newer_pass(newer, older, n).len() ==> #[trigger] newer_pass(
                newer,
                older,
                n,
            )[i] is Added,
    decreases n,
{
    if n > 0 {
        lemma_newer_pass_kinds(newer, older, n - 1);
    }
}

/// Two lists that say the same of every name have no differences.
pub proof fn lemma_no_change_no_difference(older: Seq<EntryView>, newer: Seq<EntryView>)
    requires
        forall|key: Seq<char>| last_value(older, key) == last_value(newer, key),
    ensures
        deltas(older, newer) == Seq::<ContractNamedKeysDiffView>::empty(),
{
    let ds = deltas(older, newer);
    if ds.len() > 0 {
        let d = ds[0];
        assert(ds.contains(d));
        lemma_deltas_meaning(older, newer, d);
    }
    assert(ds =~= Seq::<ContractNamedKeysDiffView>::empty());
}

/// The name that a difference is about.
pub open spec fn delta_key(d: ContractNamedKeysDiffView) -> Seq<char> {
    match d {
        ContractNamedKeysDiffView::Removed { key, .. } => key,
        ContractNamedKeysDiffView::Modified { key, .. } => key,
        ContractNamedKeysDiffView::Added { key, .. } => key,
    }
}

proof fn lemma_older_pass_ascends(older: Seq<EntryView>, newer: Seq<EntryView>, n: int)
    requires
        sorted(older),
        0 <= n <= older.len(),
    ensures
        forall|p: int|
            0 <= p < older_pass(older, newer, n).len() ==> exists|i: int|
                0 <= i < n && delta_key(#[trigger] older_pass(older, newer, n)[p]) == older[i].key,
        forall|p: int, q: int|
            0 <= p < q < older_pass(older, newer, n).len() ==> name_before(
                delta_key(#[trigger] older_pass(older, newer, n)[p]),
                delta_key(#[trigger] older_pass(older, newer, n)[q]),
            ),
    decreases n,
{
    if n > 0 {
        lemma_older_pass_ascends(older, newer, n - 1);
        let front = older_pass(older, newer, n - 1);
        let all = older_pass(older, newer, n);
        assert forall|p: int| 0 <= p < all.len() implies exists|i: int|
            0 <= i < n && delta_key(#[trigger] all[p]) == older[i].key by {
            if p < front.len() {
                assert(all[p] == front[p]);
                let i = choose|i: int| 0 <= i < n - 1 && delta_key(front[p]) == older[i].key;
                assert(0 <= i < n && delta_key(all[p]) == older[i].key);
            } else {
                assert(delta_key(all[p]) == older[n - 1].key);
            }
        }
        assert forall|p: int, q: int| 0 <= p < q < all.len() implies name_before(
            delta_key(#[trigger] all[p]),
            delta_key(#[trigger] all[q]),
        ) by {
            if q < front.len() {
                assert(all[p] == front[p] && all[q] == front[q]);
            } else {
                assert(all[p] == front[p]);
                assert(delta_key(all[q]) == older[n - 1].key);
                let i = choose|i: int| 0 <= i < n - 1 && delta_key(front[p]) == older[i].key;
                assert(name_before(older[i].key, older[n - 1].key));
            }
        }
    }
}

proof fn lemma_newer_pass_ascends(newer: Seq<EntryView>, older: Seq<EntryView>, n: int)
    requires
        sorted(newer),
        0 <= n <= newer.len(),
    ensures
        forall|p: int|
            0 <= p < newer_pass(newer, older, n).len() ==> exists|i: int|
                0 <= i < n && delta_key(#[trigger] newer_pass(newer, older, n)[p]) == newer[i].key,
        forall|p: int, q: int|
            0 <= p < q < newer_pass(newer, older, n).len() ==> name_before(
                delta_key(#[trigger] newer_pass(newer, older, n)[p]),
                delta_key(#[trigger] newer_pass(newer, older, n)[q]),
            ),
    decreases n,
{
    if n > 0 {
        lemma_newer_pass_ascends(newer, older, n - 1);
        let front = newer_pass(newer, older, n - 1);
        let all = newer_pass(newer, older, n);
        assert forall|p: int| 0 <= p < all.len() implies exists|i: int|
            0 <= i < n && delta_key(#[trigger] all[p]) == newer[i].key by {
            if p < front.len() {
                assert(all[p] == front[p]);
                let i = choose|i: int| 0 <= i < n - 1 && delta_key(front[p]) == newer[i].key;
                assert(0 <= i < n && delta_key(all[p]) == newer[i].key);
            } else {
                assert(delta_key(all[p]) == newer[n - 1].key);
            }
        }
        assert forall|p: int, q: int| 0 <= p < q < all.len() implies name_before(
            delta_key(#[trigger] all[p]),
            delta_key(#[trigger] all[q]),
        ) by {
            if q < front.len() {
                assert(all[p] == front[p] && all[q] == front[q]);
            } else {
                assert(all[p] == front[p]);
                assert(delta_key(all[q]) == newer[n - 1].key);
                let i = choose|i: int| 0 <= i < n - 1 && delta_key(front[p]) == newer[i].key;
                assert(name_before(newer[i].key, newer[n - 1].key));
            }
        }
    }
}

/// Within what was removed or modified, and within what was added, names come
/// in ascending order; so no name is listed twice in either part.
pub proof fn lemma_deltas_ascend(older: Seq<EntryView>, newer: Seq<EntryView>, i: int, j: int)
    requires
        0 <= i < j < deltas(older, newer).len(),
        deltas(older, newer)[i] is Added <==> deltas(older, newer)[j] is Added,
    ensures
        name_before(delta_key(deltas(older, newer)[i]), delta_key(deltas(older, newer)[j])),
{
    let o = index_of(older);
    let n = index_of(newer);
    lemma_index_of(older, Seq::empty());
    lemma_index_of(newer, Seq::empty());
    lemma_older_pass_kinds(o, n, o.len() as int);
    lemma_newer_pass_kinds(n, o, n.len() as int);
    lemma_older_pass_ascends(o, n, o.len() as int);
    lemma_newer_pass_ascends(n, o, n.len() as int);
    let first = older_pass(o, n, o.len() as int);
    let second = newer_pass(n, o, n.len() as int);
    if j < first.len() {
        assert(deltas(older, newer)[i] == first[i]);
        assert(deltas(older, newer)[j] == first[j]);
    } else if i >= first.len() {
        assert(deltas(older, newer)[i] == second[i - first.len()]);
        assert(deltas(older, newer)[j] == second[j - first.len()]);
    } else {
        assert(deltas(older, newer)[i] == first[i]);
        assert(deltas(older, newer)[j] == second[j - first.len()]);
    }
}

/// The difference is a function of what the two versions hold: versions that
/// hold the same give the same result, be it a difference or an error.
pub proof fn lemma_diff_deterministic(
    a1: ContractVersionSchema,
    a2: ContractVersionSchema,
    b1: ContractVersionSchema,
    b2: ContractVersionSchema,
)
    requires
        a1@ == b1@,
        a2@ == b2@,
    ensures
        version_diff(a1@, a2@) == version_diff(b1@, b2@),
{
}

/// Two versions are compared in one direction only: a version is not compared
/// with itself, and where `v1` to `v2` has a difference, `v2` to `v1` has none.
pub proof fn lemma_diff_needs_ascending_versions(
    v1: ContractVersionSchemaView,
    v2: ContractVersionSchemaView,
)
    ensures
        version_diff(v1, v1) is Err,
        v1.contract_version >= v2.contract_version ==> version_diff(v1, v2) is Err,
        version_diff(v1, v2) is Ok ==> version_diff(v2, v1) is Err,
        version_diff(v1, v2) is Ok <==> v1.contract_package_hash == v2.contract_package_hash
            && v1.contract_version < v2.contract_version,
{
}

} // verus!
