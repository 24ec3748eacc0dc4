use ledger_core::block_alloc::{AllocFailure, ResourceBudget};

#[test]
fn oversized_item_is_skipped_and_full_bin_rejects() {
    let mut bin = ResourceBudget::new(100);
    assert_eq!(bin.try_consume(150), Err(AllocFailure::OverflowsBin { item_size: 150 }));
    assert_eq!(bin.consumed, 0);
    assert_eq!(bin.try_consume(50), Ok(()));
    assert_eq!(bin.consumed, 50);
    assert_eq!(bin.try_consume(60), Err(AllocFailure::Rejected { remaining: 50 }));
    assert_eq!(bin.consumed, 50);
}
