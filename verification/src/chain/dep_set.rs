use crate::types::{CellDep, DepType, OutPoint};
use ckb_util::LinkedHashSet;
use vstd::prelude::*;

verus! {

#[verifier::external_type_specification]
#[verifier::external_body]
#[verifier::reject_recursive_types(H)]
pub struct ExBuildHasherDefault<H>(core::hash::BuildHasherDefault<H>);

#[verifier::external_type_specification]
#[verifier::external_body]
#[verifier::reject_recursive_types(T)]
#[verifier::reject_recursive_types(S)]
pub struct ExLinkedHashSet<T, S>(LinkedHashSet<T, S>);

/// A dependency as the plain value that stands for it in a set: the
/// transaction id, the index, and one byte for the way it is read.
pub type DepKey = ([u8; 32], u32, u8);

/// The items of a set, in the order in which it hands them out.
pub uninterp spec fn dep_set_items(set: LinkedHashSet<DepKey>) -> Seq<DepKey>;

/// The plain value that stands for `dep`.
pub open spec fn dep_key(dep: CellDep) -> DepKey {
    (
        dep.out_point.tx_hash,
        dep.out_point.index,
        match dep.dep_type {
            DepType::Code => 0u8,
            DepType::DepGroup => 1u8,
        },
    )
}

/// The dependency that `key` stands for.
pub open spec fn dep_of_key(key: DepKey) -> CellDep {
    CellDep {
        out_point: OutPoint { tx_hash: key.0, index: key.1 },
        dep_type: if key.2 == 0 {
            DepType::Code
        } else {
            DepType::DepGroup
        },
    }
}

/// Calls `LinkedHashSet::new`, which makes an empty set.
#[verifier::external_body]
pub(crate) fn dep_set_new() -> (set: LinkedHashSet<DepKey>)
    ensures
        dep_set_items(set) == Seq::<DepKey>::empty(),
{
    LinkedHashSet::new()
}

/// Calls `LinkedHashSet::contains`, which says whether the value is an item
/// of the set.
#[verifier::external_body]
pub(crate) fn dep_set_contains(set: &LinkedHashSet<DepKey>, key: &DepKey) -> (found: bool)
    ensures
        found == dep_set_items(*set).contains(*key),
{
    set.contains(key)
}

/// Calls `LinkedHashSet::insert` with a value that is no item of the set:
/// the value becomes the last item, and the call returns `true`.
#[verifier::external_body]
pub(crate) fn dep_set_insert(set: &mut LinkedHashSet<DepKey>, key: DepKey) -> (added: bool)
    requires
        !dep_set_items(*old(set)).contains(key),
    ensures
        added,
        dep_set_items(*final(set)) == dep_set_items(*old(set)).push(key),
{
    set.insert(key)
}

/// Walks the set with `LinkedHashSet::into_iter`, which hands the items out
/// in the order of the set.
#[verifier::external_body]
pub(crate) fn dep_set_into_vec(set: LinkedHashSet<DepKey>) -> (items: Vec<DepKey>)
    ensures
        items@ == dep_set_items(set),
{
    set.into_iter().collect()
}

/// The plain value that stands for `dep`.
pub fn key_of_dep(dep: &CellDep) -> (key: DepKey)
    ensures
        key == dep_key(*dep),
        dep_of_key(key) == *dep,
{
    let byte: u8 = match dep.dep_type {
        DepType::Code => 0,
        DepType::DepGroup => 1,
    };
    (dep.out_point.tx_hash, dep.out_point.index, byte)
}

/// The dependency that `key` stands for.
pub fn dep_from_key(key: &DepKey) -> (dep: CellDep)
    ensures
        dep == dep_of_key(*key),
{
    let dep_type = if key.2 == 0 {
        DepType::Code
    } else {
        DepType::DepGroup
    };
    CellDep { out_point: OutPoint::new(key.0, key.1), dep_type }
}

} // verus!
