use ledger_core::address::Address;
use ledger_core::admission::{
    check_expiration, prepare_proposal_fee_check, read_minimum_gas_price,
    replay_protection_checks, validate_wrapper_bytes, AdmissionError, FeeError, ReplayError,
};
use ledger_core::gas::{GasError, TxGasMeter};
use ledger_core::shell::ValidatorLocalConfig;
use ledger_core::state::{LastBlock, State, TokenRates};
use ledger_core::time::{DateTimeUtc, Timestamp};
use ledger_core::token::{Amount, DenominatedAmount};
use ledger_core::tx::{CandidateTransaction, Fee, Tx, TxType, WrapperTx};
use ledger_core::uint::Uint;

fn nam() -> Address {
    Address::Established(String::from("nam"))
}

fn payer() -> Address {
    Address::Implicit(String::from("payer"))
}

fn proposer() -> Address {
    Address::Established(String::from("proposer"))
}

fn hash(tag: u8) -> ledger_core::hash::Hash {
    ledger_core::hash::Hash([tag; 32])
}

fn state_with_balance(balance: u64) -> State {
    let mut state = State::new(10_000, 1_000);
    state.last_block = Some(LastBlock { height: 7 });
    state.minimum_gas_price = TokenRates { entries: vec![(nam(), Amount::from(1))] };
    state.write_balance(nam(), payer(), Amount::from(balance));
    state
}

fn wrapper(rate: u64, gas_limit: u64) -> WrapperTx {
    WrapperTx::new(
        Fee { amount_per_gas_unit: DenominatedAmount::native(Amount::from(rate)), token: nam() },
        payer(),
        gas_limit,
    )
}

fn candidate(tag: u8, rate: u64, gas_limit: u64) -> CandidateTransaction {
    let tx = Tx::from_type(TxType::Wrapper(wrapper(rate, gas_limit)), hash(tag), hash(tag + 100));
    CandidateTransaction::new(vec![tag; 10], Some(tx))
}

#[test]
fn admitted_wrapper_pays_its_fee_and_records_its_hash() {
    let state = state_with_balance(500);
    let mut temp = state.with_temp_write_log();
    let tx = candidate(1, 2, 100);
    assert_eq!(validate_wrapper_bytes(&tx, None, &proposer(), None, &mut temp), Ok(100));
    assert_eq!(temp.read_balance(&nam(), &payer()), Amount::from(300));
    assert_eq!(temp.read_balance(&nam(), &proposer()), Amount::from(200));
    assert!(temp.has_replay_protection_entry(&hash(1)));
    assert!(!temp.has_replay_protection_entry(&hash(101)));
    // nothing reaches the committed state
    assert_eq!(state.balances.len(), 1);
    assert!(state.replay_protection.is_empty());
}

#[test]
fn second_wrapper_of_the_same_payer_sees_the_balance_less_the_fee() {
    // B = 300, F = 200: the first is paid, and 200 > 300 - 200
    let state = state_with_balance(300);
    let mut temp = state.with_temp_write_log();
    assert_eq!(
        validate_wrapper_bytes(&candidate(1, 2, 100), None, &proposer(), None, &mut temp),
        Ok(100)
    );
    temp.commit_tx();
    assert_eq!(temp.read_balance(&nam(), &payer()), Amount::from(100));
    assert_eq!(
        validate_wrapper_bytes(&candidate(2, 2, 100), None, &proposer(), None, &mut temp),
        Err(AdmissionError::Fee(FeeError::InsufficientBalance))
    );
    temp.drop_tx();
    assert_eq!(temp.read_balance(&nam(), &payer()), Amount::from(100));
    assert_eq!(temp.read_balance(&nam(), &proposer()), Amount::from(200));
    assert!(!temp.has_replay_protection_entry(&hash(2)));
    // B = 400: both are paid
    let state = state_with_balance(400);
    let mut temp = state.with_temp_write_log();
    assert!(validate_wrapper_bytes(&candidate(1, 2, 100), None, &proposer(), None, &mut temp)
        .is_ok());
    temp.commit_tx();
    assert!(validate_wrapper_bytes(&candidate(2, 2, 100), None, &proposer(), None, &mut temp)
        .is_ok());
    assert_eq!(temp.read_balance(&nam(), &payer()), Amount::zero());
    assert_eq!(temp.read_balance(&nam(), &proposer()), Amount::from(400));
}

#[test]
fn dropped_writes_leave_no_mark_and_committed_ones_stay() {
    let state = state_with_balance(500);
    let mut temp = state.with_temp_write_log();
    temp.write_balance(nam(), payer(), Amount::from(1));
    temp.write_tx_hash(hash(9));
    assert_eq!(temp.read_balance(&nam(), &payer()), Amount::from(1));
    temp.drop_tx();
    assert_eq!(temp.read_balance(&nam(), &payer()), Amount::from(500));
    assert!(!temp.has_replay_protection_entry(&hash(9)));
    temp.write_balance(nam(), payer(), Amount::from(2));
    temp.write_tx_hash(hash(9));
    temp.commit_tx();
    temp.write_balance(nam(), payer(), Amount::from(3));
    temp.drop_tx();
    assert_eq!(temp.read_balance(&nam(), &payer()), Amount::from(2));
    assert!(temp.has_replay_protection_entry(&hash(9)));
    assert_eq!(temp.read_balance(&nam(), &proposer()), Amount::zero());
}

#[test]
fn every_cause_of_a_drop_is_named() {
    let state = state_with_balance(500);
    let check = |tx: &CandidateTransaction, time: Option<DateTimeUtc>| {
        let mut temp = state.with_temp_write_log();
        validate_wrapper_bytes(tx, time, &proposer(), None, &mut temp)
    };
    let undecodable = CandidateTransaction::new(vec![1, 2, 3], None);
    assert_eq!(check(&undecodable, None), Err(AdmissionError::Undecodable));

    let mut expired = candidate(1, 2, 100);
    expired.decoded.as_mut().unwrap().expiration = Some(DateTimeUtc { seconds: 10, nanos: 0 });
    assert_eq!(
        check(&expired, Some(DateTimeUtc { seconds: 10, nanos: 1 })),
        Err(AdmissionError::Expired)
    );
    // expired comes before everything else
    expired.decoded.as_mut().unwrap().valid = false;
    assert_eq!(
        check(&expired, Some(DateTimeUtc { seconds: 11, nanos: 0 })),
        Err(AdmissionError::Expired)
    );

    let mut invalid = candidate(1, 2, 100);
    invalid.decoded.as_mut().unwrap().valid = false;
    assert_eq!(check(&invalid, None), Err(AdmissionError::Invalid));

    let raw = CandidateTransaction::new(
        vec![1; 4],
        Some(Tx::from_type(TxType::Raw, hash(1), hash(1))),
    );
    assert_eq!(check(&raw, None), Err(AdmissionError::NotWrapper));
    let protocol = CandidateTransaction::new(
        vec![1; 4],
        Some(Tx::from_type(TxType::Protocol, hash(1), hash(1))),
    );
    assert_eq!(check(&protocol, None), Err(AdmissionError::NotWrapper));

    // ten bytes need a gas limit of ten
    assert_eq!(check(&candidate(1, 2, 9), None), Err(AdmissionError::GasLimitExceeded));
    assert_eq!(check(&candidate(1, 2, 10), None), Ok(10));

    assert_eq!(
        check(&candidate(1, 0, 100), None),
        Err(AdmissionError::Fee(FeeError::FeeTooLow))
    );
    assert_eq!(
        check(&candidate(1, 6, 100), None),
        Err(AdmissionError::Fee(FeeError::InsufficientBalance))
    );
    assert_eq!(check(&candidate(1, 5, 100), None), Ok(100));

    let mut other_token = candidate(1, 2, 100);
    if let TxType::Wrapper(w) = &mut other_token.decoded.as_mut().unwrap().tx_type {
        w.fee.token = Address::Established(String::from("btc"));
    }
    assert_eq!(check(&other_token, None), Err(AdmissionError::Fee(FeeError::TokenNotAccepted)));

    let mut overflowing = candidate(1, 2, 100);
    if let TxType::Wrapper(w) = &mut overflowing.decoded.as_mut().unwrap().tx_type {
        w.fee.amount_per_gas_unit = DenominatedAmount::native(Amount::max());
    }
    assert_eq!(check(&overflowing, None), Err(AdmissionError::Fee(FeeError::FeeOverflow)));
}

#[test]
fn replayed_hashes_are_refused_whatever_the_fee() {
    let mut state = state_with_balance(500);
    state.write_tx_hash(hash(1));
    state.write_tx_hash(hash(102));
    let mut temp = state.with_temp_write_log();
    // the wrapper's own hash is known: fee and gas are in order all the same
    assert_eq!(
        validate_wrapper_bytes(&candidate(1, 2, 100), None, &proposer(), None, &mut temp),
        Err(AdmissionError::Replay(ReplayError::WrapperHash))
    );
    temp.drop_tx();
    // the inner hash is known
    assert_eq!(
        validate_wrapper_bytes(&candidate(2, 2, 100), None, &proposer(), None, &mut temp),
        Err(AdmissionError::Replay(ReplayError::InnerHash))
    );
    temp.drop_tx();
    assert!(!temp.has_replay_protection_entry(&hash(2)));
    // the same wrapper twice in one proposal
    assert!(validate_wrapper_bytes(&candidate(3, 2, 100), None, &proposer(), None, &mut temp)
        .is_ok());
    temp.commit_tx();
    assert_eq!(
        validate_wrapper_bytes(&candidate(3, 2, 100), None, &proposer(), None, &mut temp),
        Err(AdmissionError::Replay(ReplayError::WrapperHash))
    );
    let tx = candidate(5, 2, 100).decoded.unwrap();
    let mut fresh = state.with_temp_write_log();
    assert_eq!(replay_protection_checks(&tx, &mut fresh), Ok(()));
    assert!(fresh.has_replay_protection_entry(&hash(5)));
    assert!(!fresh.has_replay_protection_entry(&hash(105)));
}

#[test]
fn expiration_is_checked_to_the_nanosecond() {
    let block_time = Some(DateTimeUtc { seconds: 1_000, nanos: 500 });
    // the block's own time is not too late
    assert!(!check_expiration(&Some(DateTimeUtc { seconds: 1_000, nanos: 500 }), &block_time));
    // one nanosecond earlier is
    assert!(check_expiration(&Some(DateTimeUtc { seconds: 1_000, nanos: 499 }), &block_time));
    assert!(check_expiration(
        &Some(DateTimeUtc { seconds: 999, nanos: 999_999_999 }),
        &Some(DateTimeUtc { seconds: 1_000, nanos: 0 })
    ));
    assert!(!check_expiration(&Some(DateTimeUtc { seconds: 1_000, nanos: 501 }), &block_time));
    assert!(!check_expiration(&Some(DateTimeUtc { seconds: 1_001, nanos: 0 }), &block_time));
    // no expiration, or no block time
    assert!(!check_expiration(&None, &block_time));
    assert!(!check_expiration(&Some(DateTimeUtc { seconds: 0, nanos: 0 }), &None));

    let state = state_with_balance(500);
    let mut at_boundary = candidate(1, 2, 100);
    at_boundary.decoded.as_mut().unwrap().expiration = block_time;
    let mut temp = state.with_temp_write_log();
    assert_eq!(
        validate_wrapper_bytes(&at_boundary, block_time, &proposer(), None, &mut temp),
        Ok(100)
    );
    let mut just_late = candidate(2, 2, 100);
    just_late.decoded.as_mut().unwrap().expiration =
        Some(DateTimeUtc { seconds: 1_000, nanos: 499 });
    let mut temp = state.with_temp_write_log();
    assert_eq!(
        validate_wrapper_bytes(&just_late, block_time, &proposer(), None, &mut temp),
        Err(AdmissionError::Expired)
    );
}

#[test]
fn timestamps_with_bad_nanoseconds_give_no_time() {
    assert_eq!(
        DateTimeUtc::try_from_timestamp(Timestamp { seconds: 5, nanos: 7 }),
        Some(DateTimeUtc { seconds: 5, nanos: 7 })
    );
    assert_eq!(
        DateTimeUtc::try_from_timestamp(Timestamp { seconds: -5, nanos: 999_999_999 }),
        Some(DateTimeUtc { seconds: -5, nanos: 999_999_999 })
    );
    assert_eq!(DateTimeUtc::try_from_timestamp(Timestamp { seconds: 5, nanos: -1 }), None);
    assert_eq!(
        DateTimeUtc::try_from_timestamp(Timestamp { seconds: 5, nanos: 1_000_000_000 }),
        None
    );
    assert!(DateTimeUtc { seconds: -1, nanos: 0 }.is_after(&DateTimeUtc { seconds: -2, nanos: 5 }));
}

#[test]
fn local_rates_count_for_the_tokens_they_list() {
    let state = state_with_balance(500);
    let btc = Address::Established(String::from("btc"));
    let local = ValidatorLocalConfig {
        accepted_gas_tokens: TokenRates {
            entries: vec![(nam(), Amount::from(100)), (nam(), Amount::from(3))],
        },
    };
    assert_eq!(read_minimum_gas_price(&nam(), None, &state), Some(Amount::from(1)));
    assert_eq!(read_minimum_gas_price(&nam(), Some(&local), &state), Some(Amount::from(100)));
    assert_eq!(read_minimum_gas_price(&btc, Some(&local), &state), None);
    assert_eq!(read_minimum_gas_price(&btc, None, &state), None);
    let only_btc = ValidatorLocalConfig {
        accepted_gas_tokens: TokenRates { entries: vec![(btc.clone(), Amount::from(9))] },
    };
    assert_eq!(read_minimum_gas_price(&btc, Some(&only_btc), &state), Some(Amount::from(9)));
    // a token that only the committed state lists keeps its rate
    assert_eq!(read_minimum_gas_price(&nam(), Some(&only_btc), &state), Some(Amount::from(1)));

    let mut temp = state.with_temp_write_log();
    assert_eq!(
        prepare_proposal_fee_check(&wrapper(99, 1), &proposer(), Some(&local), &mut temp),
        Err(FeeError::FeeTooLow)
    );
    assert_eq!(
        prepare_proposal_fee_check(&wrapper(100, 5), &proposer(), Some(&local), &mut temp),
        Ok(())
    );
    assert_eq!(temp.read_balance(&nam(), &payer()), Amount::zero());
    assert_eq!(temp.read_balance(&nam(), &proposer()), Amount::from(500));
}

#[test]
fn a_proposer_who_pays_its_own_fee_keeps_its_balance() {
    let mut state = State::new(10_000, 1_000);
    state.minimum_gas_price = TokenRates { entries: vec![(nam(), Amount::from(1))] };
    state.write_balance(nam(), payer(), Amount::from(50));
    let mut temp = state.with_temp_write_log();
    assert_eq!(prepare_proposal_fee_check(&wrapper(5, 10), &payer(), None, &mut temp), Ok(()));
    assert_eq!(temp.read_balance(&nam(), &payer()), Amount::from(50));
}

#[test]
fn a_fee_that_the_proposer_cannot_hold_is_refused() {
    let mut state = state_with_balance(500);
    state.write_balance(nam(), proposer(), Amount::max());
    let mut temp = state.with_temp_write_log();
    assert_eq!(
        prepare_proposal_fee_check(&wrapper(1, 1), &proposer(), None, &mut temp),
        Err(FeeError::BalanceOverflow)
    );
    state.write_balance(nam(), proposer(), Amount { raw: Uint([u64::MAX - 1, u64::MAX, u64::MAX, u64::MAX]) });
    let mut temp = state.with_temp_write_log();
    assert_eq!(prepare_proposal_fee_check(&wrapper(1, 1), &proposer(), None, &mut temp), Ok(()));
    assert_eq!(temp.read_balance(&nam(), &proposer()), Amount::max());
}

#[test]
fn gas_meter_charges_one_unit_for_each_byte() {
    let mut meter = TxGasMeter::new(10);
    assert_eq!(meter.add_wrapper_gas(&[0u8; 4]), Ok(()));
    assert_eq!(meter.transaction_gas, 4);
    assert_eq!(meter.add_wrapper_gas(&[0u8; 6]), Ok(()));
    assert_eq!(meter.transaction_gas, 10);
    assert_eq!(meter.add_wrapper_gas(&[0u8; 1]), Err(GasError::TransactionGasExceeded));
    assert_eq!(meter.transaction_gas, 11);
    let mut meter = TxGasMeter { tx_gas_limit: u64::MAX, transaction_gas: u64::MAX - 1 };
    assert_eq!(meter.consume(2), Err(GasError::GasOverflow));
    assert_eq!(meter.transaction_gas, u64::MAX - 1);
    assert_eq!(meter.consume(1), Ok(()));
    assert_eq!(TxGasMeter::new(0).add_wrapper_gas(&[]), Ok(()));
}
