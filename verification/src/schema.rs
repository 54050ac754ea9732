//! The records this crate works on: one deployed version of a contract
//! package, and the difference between two of them.

use crate::index::{Entry, EntryView};
use vstd::prelude::*;

verus! {

/// A callable function that a contract version exposes. `signature` stands for
/// everything but the name (arguments, return type, access): two entry points
/// are the same when name and signature are.
#[derive(Debug, PartialEq, Eq)]
pub struct EntryPoint {
    pub name: String,
    pub signature: String,
}

pub struct EntryPointView {
    pub name: Seq<char>,
    pub signature: Seq<char>,
}

impl View for EntryPoint {
    type V = EntryPointView;

    open spec fn view(&self) -> EntryPointView {
        EntryPointView { name: self.name@, signature: self.signature@ }
    }
}

impl DeepView for EntryPoint {
    type V = EntryPointView;

    open spec fn deep_view(&self) -> EntryPointView {
        self@
    }
}

impl Clone for EntryPoint {
    fn clone(&self) -> (r: Self)
        ensures
            r@ == self@,
    {
        EntryPoint { name: self.name.clone(), signature: self.signature.clone() }
    }
}

/// A named reference in a contract's storage. `value` is the reference in its
/// text form.
#[derive(Debug, PartialEq, Eq)]
pub struct NamedKey {
    pub name: String,
    pub value: String,
}

pub struct NamedKeyView {
    pub name: Seq<char>,
    pub value: Seq<char>,
}

impl View for NamedKey {
    type V = NamedKeyView;

    open spec fn view(&self) -> NamedKeyView {
        NamedKeyView { name: self.name@, value: self.value@ }
    }
}

impl DeepView for NamedKey {
    type V = NamedKeyView;

    open spec fn deep_view(&self) -> NamedKeyView {
        self@
    }
}

impl Clone for NamedKey {
    fn clone(&self) -> (r: Self)
        ensures
            r@ == self@,
    {
        NamedKey { name: self.name.clone(), value: self.value.clone() }
    }
}

/// One deployed version of a contract package.
#[derive(Debug, PartialEq, Eq)]
pub struct ContractVersionSchema {
    pub contract_package_hash: String,
    pub contract_hash: String,
    pub contract_wasm_hash: String,
    pub contract_version: u32,
    pub protocol_major_version: u32,
    pub entry_points: Vec<EntryPoint>,
    pub named_keys: Vec<NamedKey>,
    pub disabled: bool,
    pub age: String,
}

pub struct ContractVersionSchemaView {
    pub contract_package_hash: Seq<char>,
    pub contract_hash: Seq<char>,
    pub contract_wasm_hash: Seq<char>,
    pub contract_version: u32,
    pub protocol_major_version: u32,
    pub entry_points: Seq<EntryPointView>,
    pub named_keys: Seq<NamedKeyView>,
    pub disabled: bool,
    pub age: Seq<char>,
}

impl View for ContractVersionSchema {
    type V = ContractVersionSchemaView;

    open spec fn view(&self) -> ContractVersionSchemaView {
        ContractVersionSchemaView {
            contract_package_hash: self.contract_package_hash@,
            contract_hash: self.contract_hash@,
            contract_wasm_hash: self.contract_wasm_hash@,
            contract_version: self.contract_version,
            protocol_major_version: self.protocol_major_version,
            entry_points: self.entry_points.deep_view(),
            named_keys: self.named_keys.deep_view(),
            disabled: self.disabled,
            age: self.age@,
        }
    }
}

impl DeepView for ContractVersionSchema {
    type V = ContractVersionSchemaView;

    open spec fn deep_view(&self) -> ContractVersionSchemaView {
        self@
    }
}

impl Clone for ContractVersionSchema {
    fn clone(&self) -> (r: Self)
        ensures
            r@ == self@,
    {
        let entry_points = self.entry_points.clone();
        let named_keys = self.named_keys.clone();
        assert(entry_points.deep_view() =~= self.entry_points.deep_view());
        assert(named_keys.deep_view() =~= self.named_keys.deep_view());
        ContractVersionSchema {
            contract_package_hash: self.contract_package_hash.clone(),
            contract_hash: self.contract_hash.clone(),
            contract_wasm_hash: self.contract_wasm_hash.clone(),
            contract_version: self.contract_version,
            protocol_major_version: self.protocol_major_version,
            entry_points,
            named_keys,
            disabled: self.disabled,
            age: self.age.clone(),
        }
    }
}

/// What a difference remembers of one of its two sides.
#[derive(Debug, PartialEq, Eq)]
pub struct ContractVersionDiffMeta {
    pub contract_hash: String,
    pub timestamp: String,
    pub contract_version: u32,
    pub is_disabled: bool,
    pub wasm_hash: String,
}

pub struct ContractVersionDiffMetaView {
    pub contract_hash: Seq<char>,
    pub timestamp: Seq<char>,
    pub contract_version: u32,
    pub is_disabled: bool,
    pub wasm_hash: Seq<char>,
}

impl View for ContractVersionDiffMeta {
    type V = ContractVersionDiffMetaView;

    open spec fn view(&self) -> ContractVersionDiffMetaView {
        ContractVersionDiffMetaView {
            contract_hash: self.contract_hash@,
            timestamp: self.timestamp@,
            contract_version: self.contract_version,
            is_disabled: self.is_disabled,
            wasm_hash: self.wasm_hash@,
        }
    }
}

impl DeepView for ContractVersionDiffMeta {
    type V = ContractVersionDiffMetaView;

    open spec fn deep_view(&self) -> ContractVersionDiffMetaView {
        self@
    }
}

impl Clone for ContractVersionDiffMeta {
    fn clone(&self) -> (r: Self)
        ensures
            r@ == self@,
    {
        ContractVersionDiffMeta {
            contract_hash: self.contract_hash.clone(),
            timestamp: self.timestamp.clone(),
            contract_version: self.contract_version,
            is_disabled: self.is_disabled,
            wasm_hash: self.wasm_hash.clone(),
        }
    }
}

/// How one entry point differs between the older and the newer version.
#[derive(Debug, PartialEq, Eq)]
pub enum ContractEntryPointDiff {
    Added(EntryPoint),
    Removed(EntryPoint),
    Modified { from: EntryPoint, to: EntryPoint },
}

pub enum ContractEntryPointDiffView {
    Added(EntryPointView),
    Removed(EntryPointView),
    Modified { from: EntryPointView, to: EntryPointView },
}

impl View for ContractEntryPointDiff {
    type V = ContractEntryPointDiffView;

    open spec fn view(&self) -> ContractEntryPointDiffView {
        match self {
            ContractEntryPointDiff::Added(e) => ContractEntryPointDiffView::Added(e@),
            ContractEntryPointDiff::Removed(e) => ContractEntryPointDiffView::Removed(e@),
            ContractEntryPointDiff::Modified { from, to } => ContractEntryPointDiffView::Modified {
                from: from@,
                to: to@,
            },
        }
    }
}

impl DeepView for ContractEntryPointDiff {
    type V = ContractEntryPointDiffView;

    open spec fn deep_view(&self) -> ContractEntryPointDiffView {
        self@
    }
}

impl Clone for ContractEntryPointDiff {
    fn clone(&self) -> (r: Self)
        ensures
            r@ == self@,
    {
        match self {
            ContractEntryPointDiff::Added(e) => ContractEntryPointDiff::Added(e.clone()),
            ContractEntryPointDiff::Removed(e) => ContractEntryPointDiff::Removed(e.clone()),
            ContractEntryPointDiff::Modified { from, to } => ContractEntryPointDiff::Modified {
                from: from.clone(),
                to: to.clone(),
            },
        }
    }
}

/// How one named key differs between the older and the newer version.
#[derive(Debug, PartialEq, Eq)]
pub enum ContractNamedKeysDiff {
    Added { key: String, value: String },
    Removed { key: String, value: String },
    Modified { key: String, from: String, to: String },
}

pub enum ContractNamedKeysDiffView {
    Added { key: Seq<char>, value: Seq<char> },
    Removed { key: Seq<char>, value: Seq<char> },
    Modified { key: Seq<char>, from: Seq<char>, to: Seq<char> },
}

impl View for ContractNamedKeysDiff {
    type V = ContractNamedKeysDiffView;

    open spec fn view(&self) -> ContractNamedKeysDiffView {
        match self {
            ContractNamedKeysDiff::Added { key, value } => ContractNamedKeysDiffView::Added {
                key: key@,
                value: value@,
            },
            ContractNamedKeysDiff::Removed { key, value } => ContractNamedKeysDiffView::Removed {
                key: key@,
                value: value@,
            },
            ContractNamedKeysDiff::Modified { key, from, to } => ContractNamedKeysDiffView::Modified {
                key: key@,
                from: from@,
                to: to@,
            },
        }
    }
}

impl DeepView for ContractNamedKeysDiff {
    type V = ContractNamedKeysDiffView;

    open spec fn deep_view(&self) -> ContractNamedKeysDiffView {
        self@
    }
}

impl Clone for ContractNamedKeysDiff {
    fn clone(&self) -> (r: Self)
        ensures
            r@ == self@,
    {
        match self {
            ContractNamedKeysDiff::Added { key, value } => ContractNamedKeysDiff::Added {
                key: key.clone(),
                value: value.clone(),
            },
            ContractNamedKeysDiff::Removed { key, value } => ContractNamedKeysDiff::Removed {
                key: key.clone(),
                value: value.clone(),
            },
            ContractNamedKeysDiff::Modified { key, from, to } => ContractNamedKeysDiff::Modified {
                key: key.clone(),
                from: from.clone(),
                to: to.clone(),
            },
        }
    }
}

/// What changed from an older version of a package to a newer one.
#[derive(Debug, PartialEq, Eq)]
pub struct ContractVersionDiff {
    pub v1: ContractVersionDiffMeta,
    pub v2: ContractVersionDiffMeta,
    pub contract_package_hash: String,
    pub entry_points: Vec<ContractEntryPointDiff>,
    pub named_keys: Vec<ContractNamedKeysDiff>,
}

pub struct ContractVersionDiffView {
    pub v1: ContractVersionDiffMetaView,
    pub v2: ContractVersionDiffMetaView,
    pub contract_package_hash: Seq<char>,
    pub entry_points: Seq<ContractEntryPointDiffView>,
    pub named_keys: Seq<ContractNamedKeysDiffView>,
}

impl View for ContractVersionDiff {
    type V = ContractVersionDiffView;

    open spec fn view(&self) -> ContractVersionDiffView {
        ContractVersionDiffView {
            v1: self.v1@,
            v2: self.v2@,
            contract_package_hash: self.contract_package_hash@,
            entry_points: self.entry_points.deep_view(),
            named_keys: self.named_keys.deep_view(),
        }
    }
}

impl DeepView for ContractVersionDiff {
    type V = ContractVersionDiffView;

    open spec fn deep_view(&self) -> ContractVersionDiffView {
        self@
    }
}

impl Clone for ContractVersionDiff {
    fn clone(&self) -> (r: Self)
        ensures
            r@ == self@,
    {
        let entry_points = self.entry_points.clone();
        let named_keys = self.named_keys.clone();
        assert(entry_points.deep_view() =~= self.entry_points.deep_view());
        assert(named_keys.deep_view() =~= self.named_keys.deep_view());
        ContractVersionDiff {
            v1: self.v1.clone(),
            v2: self.v2.clone(),
            contract_package_hash: self.contract_package_hash.clone(),
            entry_points,
            named_keys,
        }
    }
}

/// The entry that stands for an entry point in a keyed index.
pub open spec fn entry_point_entry(e: EntryPointView) -> EntryView {
    EntryView { key: e.name, value: e.signature }
}

/// The entry that stands for a named key in a keyed index.
pub open spec fn named_key_entry(k: NamedKeyView) -> EntryView {
    EntryView { key: k.name, value: k.value }
}

/// The entry points of a version as index entries, in the order given.
pub fn entry_point_entries(entry_points: &Vec<EntryPoint>) -> (r: Vec<Entry>)
    ensures
        r.deep_view() == entry_points.deep_view().map_values(|e: EntryPointView| entry_point_entry(e)),
{
    let mut r: Vec<Entry> = Vec::new();
    let mut i: usize = 0;
    while i < entry_points.len()
        invariant
            i <= entry_points.len(),
            r.len() == i,
            forall|j: int| 0 <= j < i ==> r@[j]@ == entry_point_entry(#[trigger] entry_points@[j]@),
        decreases entry_points.len() - i,
    {
        r.push(Entry { key: entry_points[i].name.clone(), value: entry_points[i].signature.clone() });
        i = i + 1;
    }
    assert(r.deep_view() =~= entry_points.deep_view().map_values(
        |e: EntryPointView| entry_point_entry(e),
    ));
    r
}

/// The named keys of a version as index entries, in the order given.
pub fn named_key_entries(named_keys: &Vec<NamedKey>) -> (r: Vec<Entry>)
    ensures
        r.deep_view() == named_keys.deep_view().map_values(|k: NamedKeyView| named_key_entry(k)),
{
    let mut r: Vec<Entry> = Vec::new();
    let mut i: usize = 0;
    while i < named_keys.len()
        invariant
            i <= named_keys.len(),
            r.len() == i,
            forall|j: int| 0 <= j < i ==> r@[j]@ == named_key_entry(#[trigger] named_keys@[j]@),
        decreases named_keys.len() - i,
    {
        r.push(Entry { key: named_keys[i].name.clone(), value: named_keys[i].value.clone() });
        i = i + 1;
    }
    assert(r.deep_view() =~= named_keys.deep_view().map_values(
        |k: NamedKeyView| named_key_entry(k),
    ));
    r
}

} // verus!
