//! What the queries read off the note commitment trees that the state returns.

use vstd::prelude::*;

use zebra_chain::orchard::tree::NoteCommitmentTree as OrchardTree;
use zebra_chain::sapling::tree::NoteCommitmentTree as SaplingTree;

use crate::requests::TreeState;

verus! {

/// `zebra_chain::sapling::tree::NoteCommitmentTree`, the Sapling note commitments of a chain.
#[verifier::external_type_specification]
#[verifier::external_body]
pub struct ExSaplingTree(SaplingTree);

/// `zebra_chain::orchard::tree::NoteCommitmentTree`, the Orchard note commitments of a chain.
#[verifier::external_type_specification]
#[verifier::external_body]
pub struct ExOrchardTree(OrchardTree);

/// The number of note commitments in a Sapling tree.
pub uninterp spec fn sapling_tree_size(tree: SaplingTree) -> u64;

/// The bytes of the root of a Sapling tree.
pub uninterp spec fn sapling_tree_root(tree: SaplingTree) -> Seq<u8>;

/// The number of note commitments in an Orchard tree.
pub uninterp spec fn orchard_tree_size(tree: OrchardTree) -> u64;

/// The bytes of the root of an Orchard tree.
pub uninterp spec fn orchard_tree_root(tree: OrchardTree) -> Seq<u8>;

/// Calls `zebra_chain::sapling::tree::NoteCommitmentTree::count`.
///
/// Claims that the count depends on the tree alone.
#[verifier::external_body]
fn sapling_count(tree: &SaplingTree) -> (size: u64)
    ensures
        size == sapling_tree_size(*tree),
{
    tree.count()
}

/// Calls `zebra_chain::sapling::tree::NoteCommitmentTree::root`.
///
/// Claims that the root depends on the tree alone.
#[verifier::external_body]
fn sapling_root(tree: &SaplingTree) -> (root: [u8; 32])
    ensures
        root@ == sapling_tree_root(*tree),
{
    tree.root().into()
}

/// Calls `zebra_chain::orchard::tree::NoteCommitmentTree::count`.
///
/// Claims that the count depends on the tree alone.
#[verifier::external_body]
fn orchard_count(tree: &OrchardTree) -> (size: u64)
    ensures
        size == orchard_tree_size(*tree),
{
    tree.count()
}

/// Calls `zebra_chain::orchard::tree::NoteCommitmentTree::root`.
///
/// Claims that the root depends on the tree alone.
#[verifier::external_body]
fn orchard_root(tree: &OrchardTree) -> (root: [u8; 32])
    ensures
        root@ == orchard_tree_root(*tree),
{
    tree.root().into()
}

/// Reads the size and the root of a Sapling tree.
pub fn sapling_tree_state(tree: &SaplingTree) -> (state: TreeState)
    ensures
        state.size == sapling_tree_size(*tree),
        state.root@ == sapling_tree_root(*tree),
{
    TreeState { size: sapling_count(tree), root: sapling_root(tree) }
}

/// Reads the size and the root of an Orchard tree.
pub fn orchard_tree_state(tree: &OrchardTree) -> (state: TreeState)
    ensures
        state.size == orchard_tree_size(*tree),
        state.root@ == orchard_tree_root(*tree),
{
    TreeState { size: orchard_count(tree), root: orchard_root(tree) }
}

} // verus!
