use bdk_chain::{BlockId, CheckPoint};
use bitcoin::BlockHash;
use multi_keychain_wallet::chain::insert_checkpoint;

fn block(height: u32, byte: u8) -> BlockId {
    BlockId {
        height,
        hash: <BlockHash as bitcoin::hashes::Hash>::from_byte_array([byte; 32]),
    }
}

#[test]
fn checkpoints_are_inserted_in_height_order() {
    let genesis = CheckPoint::new(BlockId {
        height: 0,
        hash: <BlockHash as bitcoin::hashes::Hash>::all_zeros(),
    });
    let tip = insert_checkpoint(genesis, block(1_000, 1)).unwrap();
    let tip = insert_checkpoint(tip, block(42, 2)).unwrap();
    let tip = insert_checkpoint(tip, block(2_000, 3)).unwrap();
    assert_eq!(tip.height(), 2_000);
    let heights: Vec<u32> = tip.iter().map(|cp| cp.height()).collect();
    assert_eq!(heights, vec![2_000, 1_000, 42, 0]);
}

#[test]
fn conflicting_block_replaces_the_tail() {
    let genesis = CheckPoint::new(block(0, 0));
    let tip = insert_checkpoint(genesis, block(10, 1)).unwrap();
    let tip = insert_checkpoint(tip, block(20, 1)).unwrap();
    let tip = insert_checkpoint(tip, block(10, 9)).unwrap();
    assert_eq!(tip.block_id(), block(10, 9));
    assert_eq!(tip.iter().count(), 2);
}

#[test]
fn insertion_is_refused_at_height_zero_or_without_genesis() {
    let genesis = CheckPoint::new(block(0, 0));
    assert!(insert_checkpoint(genesis, block(0, 7)).is_none());
    let rootless = CheckPoint::new(block(5, 5));
    assert!(insert_checkpoint(rootless, block(9, 1)).is_none());
}
