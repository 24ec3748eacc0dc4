use ledger_core::address::Address;
use ledger_core::block_alloc::{
    AllocFailure, Bin, BinKind, BlockAllocator, BlockResources, NormalTxsBins, ResourceBudget,
};
use ledger_core::shell::{RequestPrepareProposal, Shell, ShellMode};
use ledger_core::state::{LastBlock, State, TokenRates};
use ledger_core::time::{DateTimeUtc, Timestamp};
use ledger_core::token::{Amount, DenominatedAmount};
use ledger_core::tx::{CandidateTransaction, Fee, Tx, TxType, WrapperTx};

fn nam() -> Address {
    Address::Established(String::from("nam"))
}

fn payer(name: &str) -> Address {
    Address::Implicit(String::from(name))
}

fn proposer() -> Address {
    Address::Established(String::from("proposer"))
}

fn hash(tag: u8) -> ledger_core::hash::Hash {
    ledger_core::hash::Hash([tag; 32])
}

fn shell(max_bytes: u64, max_gas: u64) -> Shell {
    let mut state = State::new(max_bytes, max_gas);
    state.last_block = Some(LastBlock { height: 1 });
    state.minimum_gas_price = TokenRates { entries: vec![(nam(), Amount::from(1))] };
    state.write_balance(nam(), payer("a"), Amount::from(1_000_000));
    state.write_balance(nam(), payer("b"), Amount::from(1_000_000));
    Shell { mode: ShellMode::Validator { local_config: None }, state }
}

fn wrapper(tag: u8, size: usize, from: &str, rate: u64, gas_limit: u64) -> CandidateTransaction {
    let fee =
        Fee { amount_per_gas_unit: DenominatedAmount::native(Amount::from(rate)), token: nam() };
    let tx = Tx::from_type(
        TxType::Wrapper(WrapperTx::new(fee, payer(from), gas_limit)),
        hash(tag),
        hash(tag.wrapping_add(100)),
    );
    CandidateTransaction::new(vec![tag; size], Some(tx))
}

fn protocol(tag: u8, size: usize) -> CandidateTransaction {
    CandidateTransaction::new(
        vec![tag; size],
        Some(Tx::from_type(TxType::Protocol, hash(tag), hash(tag))),
    )
}

fn raw(tag: u8, size: usize) -> CandidateTransaction {
    CandidateTransaction::new(
        vec![tag; size],
        Some(Tx::from_type(TxType::Raw, hash(tag), hash(tag))),
    )
}

fn request(txs: Vec<CandidateTransaction>) -> RequestPrepareProposal {
    RequestPrepareProposal { txs, time: None, proposer_address: proposer(), height: 2 }
}

#[test]
fn wrapper_is_proposed_and_raw_tx_is_dropped() {
    // wrapper A: fee 1, gas 100, valid, balance enough; raw tx B
    let shell = shell(10_000, 1_000);
    let a = wrapper(1, 40, "a", 1, 100);
    let b = raw(2, 40);
    let proposal = shell.prepare_proposal(request(vec![a.clone(), b.clone()])).txs;
    assert_eq!(proposal, vec![a.bytes.clone()]);
    let proposal = shell.prepare_proposal(request(vec![b, a.clone()])).txs;
    assert_eq!(proposal, vec![a.bytes]);
}

#[test]
fn nothing_is_proposed_before_the_first_block() {
    let mut shell = shell(10_000, 1_000);
    shell.state.last_block = None;
    let txs = vec![wrapper(1, 40, "a", 1, 100), protocol(2, 10), raw(3, 5)];
    assert!(shell.prepare_proposal(request(txs.clone())).txs.is_empty());
    shell.state.last_block = Some(LastBlock { height: 0 });
    assert_eq!(shell.prepare_proposal(request(txs)).txs.len(), 2);
}

#[test]
fn nothing_is_proposed_without_a_gas_limit() {
    let mut shell = shell(10_000, 1_000);
    shell.state.max_block_gas = None;
    let txs = vec![wrapper(1, 40, "a", 1, 100), protocol(2, 10)];
    assert!(shell.prepare_proposal(request(txs)).txs.is_empty());
}

#[test]
fn only_validators_propose() {
    let mut shell = shell(10_000, 1_000);
    let txs = vec![wrapper(1, 40, "a", 1, 100), protocol(2, 10)];
    shell.mode = ShellMode::Full;
    assert!(shell.prepare_proposal(request(txs.clone())).txs.is_empty());
    shell.mode = ShellMode::Seed;
    assert!(shell.prepare_proposal(request(txs)).txs.is_empty());
}

#[test]
fn protocol_txs_come_first_then_normal_txs_then_what_is_left() {
    // the block holds 200 bytes: protocol txs may take 100 at first
    let shell = shell(200, 1_000);
    let p1 = protocol(1, 60);
    let n1 = wrapper(2, 30, "a", 1, 100);
    let p2 = protocol(3, 50);
    let n2 = wrapper(4, 30, "b", 1, 100);
    let p3 = protocol(5, 40);
    let proposal = shell
        .prepare_proposal(request(vec![p1.clone(), n1.clone(), p2.clone(), n2.clone(), p3.clone()]))
        .txs;
    // p1 fits the first bin, p2 ends the first scan; the normal txs get the
    // 140 bytes that are left and use 60; p2 then fits in the 80 that remain
    // and p3 ends the scan
    assert_eq!(proposal, vec![p1.bytes, n1.bytes, n2.bytes, p2.bytes]);
    let total: usize = proposal.iter().map(|tx| tx.len()).sum();
    assert!(total <= 200);
}

#[test]
fn oversized_protocol_tx_is_skipped_and_a_full_bin_ends_the_scan() {
    // a bin of 100 bytes, offered 150, 50 and 60
    let shell = shell(200, 1_000);
    let alloc = shell.get_protocol_txs_allocator();
    assert_eq!(alloc.protocol_txs().budget, ResourceBudget { capacity: 100, consumed: 0 });
    let mut txs = vec![protocol(1, 150), raw(9, 10), protocol(2, 50), protocol(3, 60), protocol(4, 1)];
    let (alloc, taken) = shell.build_protocol_txs(alloc, &mut txs);
    assert_eq!(taken, vec![vec![2u8; 50]]);
    assert_eq!(alloc.protocol_txs().budget, ResourceBudget { capacity: 100, consumed: 50 });
    // the others stay, in their order
    let left: Vec<u8> = txs.iter().map(|tx| tx.bytes[0]).collect();
    assert_eq!(left, vec![1, 9, 3, 4]);
}

#[test]
fn normal_txs_stop_at_the_first_that_finds_no_room() {
    let shell = shell(200, 250);
    let txs = vec![
        wrapper(1, 20, "a", 1, 100),
        // larger than the whole gas bin: passed over
        wrapper(2, 20, "a", 1, 300),
        wrapper(3, 20, "a", 1, 100),
        // no gas left for it: ends the scan
        wrapper(4, 20, "a", 1, 100),
        wrapper(5, 20, "a", 1, 10),
    ];
    let proposal = shell.prepare_proposal(request(txs)).txs;
    assert_eq!(proposal, vec![vec![1u8; 20], vec![3u8; 20]]);
}

#[test]
fn normal_txs_need_bytes_and_gas_at_once() {
    let mut bins = NormalTxsBins {
        space: Bin::new(BinKind::NormalTxSpace, 100),
        gas: Bin::new(BinKind::Gas, 50),
    };
    assert_eq!(bins.try_consume(60, 30), Ok(()));
    // the gas bin refuses: the bytes are given back
    assert_eq!(bins.try_consume(30, 30), Err(AllocFailure::Rejected { remaining: 20 }));
    assert_eq!(bins.space.budget.consumed, 60);
    assert_eq!(bins.gas.budget.consumed, 30);
    assert_eq!(bins.try_consume(30, 60), Err(AllocFailure::OverflowsBin { item_size: 60 }));
    assert_eq!(bins.space.budget.consumed, 60);
    // the space bin refuses: the gas bin is not asked
    assert_eq!(bins.try_consume(50, 60), Err(AllocFailure::Rejected { remaining: 40 }));
    assert_eq!(bins.try_consume(101, 1), Err(AllocFailure::OverflowsBin { item_size: 101 }));
    assert_eq!(bins.try_consume(40, 20), Ok(()));
    assert_eq!(bins.space.resource_left(), 0);
    assert_eq!(bins.gas.resource_left(), 0);
    assert_eq!(bins.try_consume(0, 0), Ok(()));
}

#[test]
fn allocator_moves_through_its_phases() {
    let mut alloc = BlockAllocator::init(1_001, 77);
    assert_eq!(alloc.block().budget.capacity, 1_001);
    assert_eq!(alloc.protocol_txs().budget.capacity, 500);
    assert_eq!(alloc.normal_txs().space.budget.capacity, 0);
    assert_eq!(alloc.normal_txs().gas.budget.capacity, 77);
    assert_eq!(alloc.uninitialized_space_in_bytes(), 501);
    assert_eq!(alloc.try_alloc(&[0u8; 200]), Ok(()));
    assert_eq!(alloc.try_alloc(&[0u8; 501]), Err(AllocFailure::OverflowsBin { item_size: 501 }));
    assert_eq!(alloc.try_alloc(&[0u8; 301]), Err(AllocFailure::Rejected { remaining: 300 }));
    assert_eq!(alloc.normal_txs().space.budget, ResourceBudget { capacity: 0, consumed: 0 });

    let mut alloc = alloc.next_state();
    assert_eq!(alloc.protocol_txs().budget, ResourceBudget { capacity: 200, consumed: 200 });
    assert_eq!(alloc.normal_txs().space.budget, ResourceBudget { capacity: 801, consumed: 0 });
    assert_eq!(alloc.try_alloc(BlockResources::new(&[0u8; 300], 70)), Ok(()));
    assert_eq!(
        alloc.try_alloc(BlockResources::new(&[0u8; 300], 8)),
        Err(AllocFailure::Rejected { remaining: 7 })
    );
    assert_eq!(alloc.normal_txs().space.budget.consumed, 300);
    assert_eq!(alloc.protocol_txs().budget, ResourceBudget { capacity: 200, consumed: 200 });

    let mut alloc = alloc.next_state();
    assert_eq!(alloc.normal_txs().space.budget, ResourceBudget { capacity: 300, consumed: 300 });
    assert_eq!(alloc.protocol_txs().budget, ResourceBudget { capacity: 501, consumed: 0 });
    assert_eq!(alloc.uninitialized_space_in_bytes(), 200);
    assert_eq!(alloc.try_alloc(&[0u8; 501]), Ok(()));
    assert_eq!(alloc.try_alloc(&[0u8; 1]), Err(AllocFailure::Rejected { remaining: 0 }));
    assert_eq!(alloc.normal_txs().gas.budget.consumed, 70);
}

#[test]
fn budget_is_never_exceeded() {
    let mut budget = ResourceBudget::new(10);
    for amount in [3u64, 11, 4, 4, 0, 3, 1, u64::MAX] {
        let before = budget;
        match budget.try_consume(amount) {
            Ok(()) => assert_eq!(budget.consumed, before.consumed + amount),
            Err(_) => assert_eq!(budget, before),
        }
        assert!(budget.consumed <= budget.capacity);
    }
    assert_eq!(budget.consumed, 10);
    budget.release(4);
    assert_eq!(budget.resource_left(), 4);
    budget.shrink_to_fit();
    assert_eq!(budget, ResourceBudget { capacity: 6, consumed: 6 });
}

#[test]
fn a_payer_pays_for_as_many_wrappers_as_the_balance_covers() {
    let mut shell = shell(10_000, 1_000);
    shell.state.write_balance(nam(), payer("a"), Amount::from(250));
    let txs = vec![
        wrapper(1, 20, "a", 1, 100),
        wrapper(2, 20, "a", 1, 100),
        // 50 are left
        wrapper(3, 20, "a", 1, 100),
        wrapper(4, 20, "a", 1, 50),
    ];
    let proposal = shell.prepare_proposal(request(txs)).txs;
    assert_eq!(proposal, vec![vec![1u8; 20], vec![2u8; 20], vec![4u8; 20]]);
    // the committed state is as it was
    assert_eq!(shell.state.balances.len(), 3);
}

#[test]
fn block_time_that_cannot_be_read_expires_nothing() {
    let shell = shell(10_000, 1_000);
    let mut tx = wrapper(1, 20, "a", 1, 100);
    tx.decoded.as_mut().unwrap().expiration = Some(DateTimeUtc { seconds: 10, nanos: 0 });
    let ask = |time| RequestPrepareProposal {
        txs: vec![tx.clone()],
        time,
        proposer_address: proposer(),
        height: 2,
    };
    assert_eq!(shell.prepare_proposal(ask(None)).txs.len(), 1);
    assert_eq!(shell.prepare_proposal(ask(Some(Timestamp { seconds: 10, nanos: 0 }))).txs.len(), 1);
    assert_eq!(shell.prepare_proposal(ask(Some(Timestamp { seconds: 10, nanos: 1 }))).txs.len(), 0);
    assert_eq!(shell.prepare_proposal(ask(Some(Timestamp { seconds: 9, nanos: 7 }))).txs.len(), 1);
    assert_eq!(shell.prepare_proposal(ask(Some(Timestamp { seconds: 99, nanos: -1 }))).txs.len(), 1);
}
