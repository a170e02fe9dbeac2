//! Extending a chain of checkpoints, the block references a wallet keeps of
//! the best chain it knows.
use bdk_chain::{BlockId, CheckPoint};
use bitcoin::BlockHash;
use vstd::prelude::*;

verus! {

#[verifier::external_type_specification]
#[verifier::external_body]
pub struct ExBlockHash(BlockHash);

#[verifier::external_type_specification]
pub struct ExBlockId(BlockId);

#[verifier::external_type_specification]
#[verifier::external_body]
pub struct ExCheckPoint(CheckPoint);

/// Whether the chain ending at `tip` holds a block at `height`.
pub uninterp spec fn holds_height(tip: CheckPoint, height: u32) -> bool;

/// The chain that inserting `block` into the chain ending at `tip` gives.
pub uninterp spec fn inserted(tip: CheckPoint, block: BlockId) -> CheckPoint;

/// Relies on bdk_chain's `CheckPoint::get`, which finds the checkpoint at a
/// height.
#[verifier::external_body]
fn checkpoint_holds(tip: &CheckPoint, height: u32) -> (r: bool)
    ensures
        r == holds_height(*tip, height),
{
    tip.get(height).is_some()
}

/// Relies on bdk_chain's `CheckPoint::insert`. It walks down from the tip to
/// the block's height and panics only where it would have to pass the lowest
/// checkpoint or replace it; a chain that starts at height zero and a block
/// above it rule both out.
#[verifier::external_body]
fn checkpoint_insert(tip: CheckPoint, block: BlockId) -> (r: CheckPoint)
    requires
        holds_height(tip, 0),
        block.height > 0,
    ensures
        r == inserted(tip, block),
{
    tip.insert(block)
}

/// Inserts `block` into the chain ending at `tip` and returns the new tip;
/// `None` where the chain does not start at height zero or the block is at
/// height zero, the cases in which the insertion is refused.
pub fn insert_checkpoint(tip: CheckPoint, block: BlockId) -> (r: Option<CheckPoint>)
    ensures
        r is Some <==> holds_height(tip, 0) && block.height > 0,
        r matches Some(c) ==> c == inserted(tip, block),
{
    if block.height == 0 || !checkpoint_holds(&tip, 0) {
        return None;
    }
    Some(checkpoint_insert(tip, block))
}

} // verus!
