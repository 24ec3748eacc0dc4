//! The checks that a transaction from the mempool must pass before it may
//! enter a proposal.

use crate::address::{Address, AddressView};
use crate::gas::TxGasMeter;
use crate::shell::ValidatorLocalConfig;
use crate::state::{rate_in, Ledger, State, TempWlState};
use crate::time::DateTimeUtc;
use crate::token::Amount;
use crate::tx::{CandidateTransaction, Tx, TxType, WrapperTx};
use crate::uint::modulus;
use vstd::prelude::*;

verus! {

/// Which of a wrapper's two hashes was found among the applied ones.
#[derive(Debug, Clone, Copy, PartialEq, Eq, Structural)]
pub enum ReplayError {
    /// The hash of the wrapper's own header.
    WrapperHash,
    /// The hash of the header of the inner transaction.
    InnerHash,
}

/// Why a fee was not taken.
#[derive(Debug, Clone, Copy, PartialEq, Eq, Structural)]
pub enum FeeError {
    /// The token is not accepted for fees.
    TokenNotAccepted,
    /// The price offered for a unit of gas is below the minimum.
    FeeTooLow,
    /// The fee for the whole gas limit does not fit.
    FeeOverflow,
    /// The payer holds less than the fee.
    InsufficientBalance,
    /// The proposer's balance would not fit.
    BalanceOverflow,
}

/// Why a candidate was dropped.
#[derive(Debug, Clone, Copy, PartialEq, Eq, Structural)]
pub enum AdmissionError {
    /// The bytes are not a transaction.
    Undecodable,
    /// The block is later than the transaction's expiration.
    Expired,
    /// The structure or the signatures are not in order.
    Invalid,
    /// Only wrappers are proposed as normal transactions.
    NotWrapper,
    /// The gas limit does not cover the wrapper's own size.
    GasLimitExceeded,
    /// The transaction was applied or proposed before.
    Replay(ReplayError),
    /// The fee cannot be paid.
    Fee(FeeError),
}

/// What does not change while the normal transactions of one proposal are
/// looked at.
pub struct AdmissionEnv {
    /// The time of the block, where it is known.
    pub block_time: Option<DateTimeUtc>,
    /// The validator that proposes the block.
    pub proposer: AddressView,
    /// The rates of the proposer's own configuration, where it has one.
    pub local_rates: Option<Seq<(Address, Amount)>>,
    /// The rates of the committed state.
    pub global_rates: Seq<(Address, Amount)>,
}

/// The environment that these arguments make.
pub open spec fn env_of(
    block_time: Option<DateTimeUtc>,
    proposer: &Address,
    local_config: Option<&ValidatorLocalConfig>,
    state: &State,
) -> AdmissionEnv {
    AdmissionEnv {
        block_time,
        proposer: proposer@,
        local_rates: local_rates_of(local_config),
        global_rates: state.minimum_gas_price.entries@,
    }
}

/// The rates of a configuration, where there is one.
pub open spec fn local_rates_of(local_config: Option<&ValidatorLocalConfig>) -> Option<
    Seq<(Address, Amount)>,
> {
    match local_config {
        Some(config) => Some(config.accepted_gas_tokens.entries@),
        None => None,
    }
}

/// The least price of a unit of gas in `token`: the proposer's own rate
/// where its configuration lists the token, else the rate of the committed
/// state, else none.
pub open spec fn minimum_gas_price(
    local_rates: Option<Seq<(Address, Amount)>>,
    global_rates: Seq<(Address, Amount)>,
    token: AddressView,
) -> Option<Amount> {
    if local_rates is Some && rate_in(local_rates.unwrap(), token) is Some {
        rate_in(local_rates.unwrap(), token)
    } else {
        rate_in(global_rates, token)
    }
}

/// Whether a transaction with this expiration is too late for a block of
/// this time. Without an expiration, or without a block time, it is not.
pub open spec fn is_expired(expiration: Option<DateTimeUtc>, block_time: Option<DateTimeUtc>)
    -> bool {
    block_time is Some && expiration is Some && block_time.unwrap().later_than(
        expiration.unwrap(),
    )
}

/// The fee of a wrapper for its whole gas limit.
pub open spec fn total_fee(wrapper: WrapperTx) -> nat {
    wrapper.fee.amount_per_gas_unit.amount.value() * (wrapper.gas_limit as nat)
}

/// What the replay check answers, and the ledger it leaves: the wrapper's
/// hash is recorded as soon as it was not found.
pub open spec fn replay_check(ledger: Ledger, tx: Tx) -> Result<Ledger, ReplayError> {
    if ledger.hashes.contains(tx.header_hash@) {
        Err(ReplayError::WrapperHash)
    } else if ledger.with_hash(tx.header_hash@).hashes.contains(tx.raw_header_hash@) {
        Err(ReplayError::InnerHash)
    } else {
        Ok(ledger.with_hash(tx.header_hash@))
    }
}

/// What the fee check answers where `price` is the least price of a unit
/// of gas in the wrapper's token, and the ledger it leaves: the fee has
/// moved from the payer to the proposer.
pub open spec fn fee_check(
    ledger: Ledger,
    wrapper: WrapperTx,
    proposer: AddressView,
    price: Option<Amount>,
) -> Result<Ledger, FeeError> {
    let token = wrapper.fee.token@;
    let payer = wrapper.fee_payer@;
    let fee = total_fee(wrapper);
    if price is None {
        Err(FeeError::TokenNotAccepted)
    } else if wrapper.fee.amount_per_gas_unit.amount.value() < price.unwrap().value() {
        Err(FeeError::FeeTooLow)
    } else if fee >= modulus() {
        Err(FeeError::FeeOverflow)
    } else if ledger.balance(token, payer) < fee {
        Err(FeeError::InsufficientBalance)
    } else {
        let debited = ledger.with_balance(token, payer, (ledger.balance(token, payer) - fee) as nat);
        if debited.balance(token, proposer) + fee >= modulus() {
            Err(FeeError::BalanceOverflow)
        } else {
            Ok(debited.with_balance(token, proposer, debited.balance(token, proposer) + fee))
        }
    }
}

/// An admitted candidate: the gas it may use, and the ledger after it.
pub struct Admitted {
    pub gas_limit: u64,
    pub ledger: Ledger,
}

/// What the admission checks answer for a candidate, on the ledger that the
/// candidates before it have left.
pub open spec fn admission(ledger: Ledger, candidate: CandidateTransaction, env: AdmissionEnv)
    -> Result<Admitted, AdmissionError> {
    if candidate.decoded is None {
        Err(AdmissionError::Undecodable)
    } else {
        let tx = candidate.decoded.unwrap();
        if is_expired(tx.expiration, env.block_time) {
            Err(AdmissionError::Expired)
        } else if !tx.valid {
            Err(AdmissionError::Invalid)
        } else {
            match tx.tx_type {
                TxType::Wrapper(wrapper) => {
                    if candidate.bytes@.len() > wrapper.gas_limit {
                        Err(AdmissionError::GasLimitExceeded)
                    } else {
                        match replay_check(ledger, tx) {
                            Err(e) => Err(AdmissionError::Replay(e)),
                            Ok(recorded) => match fee_check(
                                recorded,
                                wrapper,
                                env.proposer,
                                minimum_gas_price(
                                    env.local_rates,
                                    env.global_rates,
                                    wrapper.fee.token@,
                                ),
                            ) {
                                Err(e) => Err(AdmissionError::Fee(e)),
                                Ok(paid) => Ok(
                                    Admitted { gas_limit: wrapper.gas_limit, ledger: paid },
                                ),
                            },
                        }
                    }
                },
                _ => Err(AdmissionError::NotWrapper),
            }
        }
    }
}

/// Whether the transaction is too late for a block of this time.
pub fn check_expiration(expiration: &Option<DateTimeUtc>, block_time: &Option<DateTimeUtc>) -> (r:
    bool)
    ensures
        r == is_expired(*expiration, *block_time),
{
    match (block_time, expiration) {
        (Some(time), Some(exp)) => time.is_after(exp),
        _ => false,
    }
}

/// Check the wrapper's two hashes against the applied and the proposed
/// transactions, and record the wrapper's own hash as a pending write.
pub fn replay_protection_checks(tx: &Tx, temp_state: &mut TempWlState<'_>) -> (r: Result<
    (),
    ReplayError,
>)
    ensures
        final(temp_state).state == old(temp_state).state,
        final(temp_state).committed() == old(temp_state).committed(),
        match replay_check(old(temp_state).visible(), *tx) {
            Ok(ledger) => r is Ok && final(temp_state).visible() == ledger,
            Err(e) => r == Err::<(), ReplayError>(e),
        },
{
    if temp_state.has_replay_protection_entry(&tx.header_hash) {
        return Err(ReplayError::WrapperHash);
    }
    temp_state.write_tx_hash(tx.header_hash);
    if temp_state.has_replay_protection_entry(&tx.raw_header_hash) {
        return Err(ReplayError::InnerHash);
    }
    Ok(())
}

/// The least price of a unit of gas in `token`.
pub fn read_minimum_gas_price(
    token: &Address,
    proposer_local_config: Option<&ValidatorLocalConfig>,
    state: &State,
) -> (r: Option<Amount>)
    ensures
        r == minimum_gas_price(
            local_rates_of(proposer_local_config),
            state.minimum_gas_price.entries@,
            token@,
        ),
{
    match proposer_local_config {
        Some(config) => match config.accepted_gas_tokens.get(token) {
            Some(rate) => Some(rate),
            None => state.minimum_gas_price.get(token),
        },
        None => state.minimum_gas_price.get(token),
    }
}

/// Check that the wrapper's fee is acceptable and can be paid, and move it
/// from the payer to the proposer as pending writes.
pub fn prepare_proposal_fee_check(
    wrapper: &WrapperTx,
    proposer: &Address,
    proposer_local_config: Option<&ValidatorLocalConfig>,
    temp_state: &mut TempWlState<'_>,
) -> (r: Result<(), FeeError>)
    ensures
        final(temp_state).state == old(temp_state).state,
        final(temp_state).committed() == old(temp_state).committed(),
        match fee_check(
            old(temp_state).visible(),
            *wrapper,
            proposer@,
            minimum_gas_price(
                local_rates_of(proposer_local_config),
                old(temp_state).state.minimum_gas_price.entries@,
                wrapper.fee.token@,
            ),
        ) {
            Ok(ledger) => r is Ok && final(temp_state).visible() == ledger,
            Err(e) => r == Err::<(), FeeError>(e),
        },
{
    let minimum = match read_minimum_gas_price(
        &wrapper.fee.token,
        proposer_local_config,
        temp_state.state,
    ) {
        Some(rate) => rate,
        None => {
            return Err(FeeError::TokenNotAccepted);
        },
    };
    if wrapper.fee.amount_per_gas_unit.amount.lt(&minimum) {
        return Err(FeeError::FeeTooLow);
    }
    let fee = match wrapper.fee.amount_per_gas_unit.amount.checked_mul(
        Amount::from_u64(wrapper.gas_limit),
    ) {
        Some(fee) => fee,
        None => {
            return Err(FeeError::FeeOverflow);
        },
    };
    let balance = temp_state.read_balance(&wrapper.fee.token, &wrapper.fee_payer);
    let left = match balance.checked_sub(fee) {
        Some(left) => left,
        None => {
            return Err(FeeError::InsufficientBalance);
        },
    };
    temp_state.write_balance(wrapper.fee.token.duplicate(), wrapper.fee_payer.duplicate(), left);
    let held = temp_state.read_balance(&wrapper.fee.token, proposer);
    match held.checked_add(fee) {
        Some(total) => {
            temp_state.write_balance(wrapper.fee.token.duplicate(), proposer.duplicate(), total);
            Ok(())
        },
        None => Err(FeeError::BalanceOverflow),
    }
}

/// Run the admission checks on one candidate. On success the gas limit of
/// the wrapper is returned and its writes are pending; on failure the
/// pending writes are to be dropped.
pub fn validate_wrapper_bytes(
    tx: &CandidateTransaction,
    block_time: Option<DateTimeUtc>,
    block_proposer: &Address,
    proposer_local_config: Option<&ValidatorLocalConfig>,
    temp_state: &mut TempWlState<'_>,
) -> (r: Result<u64, AdmissionError>)
    ensures
        final(temp_state).state == old(temp_state).state,
        final(temp_state).committed() == old(temp_state).committed(),
        match admission(
            old(temp_state).visible(),
            *tx,
            env_of(block_time, block_proposer, proposer_local_config, old(temp_state).state),
        ) {
            Ok(admitted) => r == Ok::<u64, AdmissionError>(admitted.gas_limit)
                && final(temp_state).visible() == admitted.ledger,
            Err(e) => r == Err::<u64, AdmissionError>(e),
        },
{
    let ghost env = env_of(block_time, block_proposer, proposer_local_config, temp_state.state);
    let decoded = match &tx.decoded {
        Some(decoded) => decoded,
        None => {
            return Err(AdmissionError::Undecodable);
        },
    };
    if check_expiration(&decoded.expiration, &block_time) {
        return Err(AdmissionError::Expired);
    }
    if !decoded.valid {
        return Err(AdmissionError::Invalid);
    }
    match &decoded.tx_type {
        TxType::Wrapper(wrapper) => {
            let mut tx_gas_meter = TxGasMeter::new(wrapper.gas_limit);
            match tx_gas_meter.add_wrapper_gas(tx.bytes.as_slice()) {
                Ok(()) => {},
                Err(_) => {
                    return Err(AdmissionError::GasLimitExceeded);
                },
            }
            match replay_protection_checks(decoded, temp_state) {
                Ok(()) => {},
                Err(e) => {
                    return Err(AdmissionError::Replay(e));
                },
            }
            match prepare_proposal_fee_check(
                wrapper,
                block_proposer,
                proposer_local_config,
                temp_state,
            ) {
                Ok(()) => Ok(wrapper.gas_limit),
                Err(e) => Err(AdmissionError::Fee(e)),
            }
        },
        _ => Err(AdmissionError::NotWrapper),
    }
}

/// A transaction whose expiration is the block's own time is not too late;
/// one whose expiration is a nanosecond earlier is.
pub proof fn expiration_boundary(expiration: DateTimeUtc, block_time: DateTimeUtc)
    requires
        expiration.wf(),
        block_time.wf(),
    ensures
        expiration == block_time ==> !is_expired(Some(expiration), Some(block_time)),
        expiration.instant() + 1 == block_time.instant() ==> is_expired(
            Some(expiration),
            Some(block_time),
        ),
        expiration.instant() >= block_time.instant() <==> !is_expired(
            Some(expiration),
            Some(block_time),
        ),
{
}

/// A candidate that is too late for the block is dropped as expired,
/// whatever else holds of it.
pub proof fn expired_is_dropped(ledger: Ledger, candidate: CandidateTransaction, env: AdmissionEnv)
    requires
        candidate.decoded is Some,
        is_expired(candidate.decoded.unwrap().expiration, env.block_time),
    ensures
        admission(ledger, candidate, env) == Err::<Admitted, AdmissionError>(
            AdmissionError::Expired,
        ),
{
}

/// A wrapper whose hash is recorded already is never admitted, whatever fee
/// it offers and whatever gas it declares.
pub proof fn replayed_wrapper_is_dropped(
    ledger: Ledger,
    candidate: CandidateTransaction,
    env: AdmissionEnv,
)
    requires
        candidate.decoded is Some,
        ledger.hashes.contains(candidate.decoded.unwrap().header_hash@),
    ensures
        admission(ledger, candidate, env) is Err,
{
}

/// An admitted wrapper leaves its hash recorded, and every hash that was
/// recorded before stays so.
pub proof fn admission_records_hash(
    ledger: Ledger,
    candidate: CandidateTransaction,
    env: AdmissionEnv,
)
    requires
        admission(ledger, candidate, env) is Ok,
    ensures
        candidate.decoded is Some,
        !ledger.hashes.contains(candidate.decoded.unwrap().header_hash@),
        admission(ledger, candidate, env).unwrap().ledger.hashes == ledger.hashes.insert(
            candidate.decoded.unwrap().header_hash@,
        ),
{
}

/// Once a wrapper was admitted, the same wrapper is refused on the ledger
/// that it left.
pub proof fn admitted_twice_is_dropped(
    ledger: Ledger,
    candidate: CandidateTransaction,
    env: AdmissionEnv,
)
    requires
        admission(ledger, candidate, env) is Ok,
    ensures
        admission(admission(ledger, candidate, env).unwrap().ledger, candidate, env) is Err,
{
    admission_records_hash(ledger, candidate, env);
}

/// A payer who holds at least the fee is left with the balance less the
/// fee, and the proposer with as much more, where the token is accepted at
/// the price offered and the payer is not the proposer.
pub proof fn fee_is_debited(
    ledger: Ledger,
    wrapper: WrapperTx,
    proposer: AddressView,
    price: Option<Amount>,
)
    requires
        wrapper.fee_payer@ != proposer,
        fee_check(ledger, wrapper, proposer, price) is Ok,
    ensures
        total_fee(wrapper) <= ledger.balance(wrapper.fee.token@, wrapper.fee_payer@),
        fee_check(ledger, wrapper, proposer, price).unwrap().balance(
            wrapper.fee.token@,
            wrapper.fee_payer@,
        ) == ledger.balance(wrapper.fee.token@, wrapper.fee_payer@) - total_fee(wrapper),
        fee_check(ledger, wrapper, proposer, price).unwrap().balance(wrapper.fee.token@, proposer)
            == ledger.balance(wrapper.fee.token@, proposer) + total_fee(wrapper),
        fee_check(ledger, wrapper, proposer, price).unwrap().hashes == ledger.hashes,
{
}

/// The fee check succeeds exactly where the token has a minimum price that
/// the offer meets, the payer holds the fee, and the proposer's balance has
/// room for it.
pub proof fn fee_is_owed(
    ledger: Ledger,
    wrapper: WrapperTx,
    proposer: AddressView,
    price: Option<Amount>,
)
    requires
        wrapper.fee_payer@ != proposer,
    ensures
        fee_check(ledger, wrapper, proposer, price) is Ok <==> {
            &&& price is Some
            &&& price.unwrap().value() <= wrapper.fee.amount_per_gas_unit.amount.value()
            &&& total_fee(wrapper) <= ledger.balance(wrapper.fee.token@, wrapper.fee_payer@)
            &&& ledger.balance(wrapper.fee.token@, proposer) + total_fee(wrapper) < modulus()
        },
{
    let fee = total_fee(wrapper);
    let held = ledger.balance(wrapper.fee.token@, wrapper.fee_payer@);
    if fee <= held {
        let debited = ledger.with_balance(
            wrapper.fee.token@,
            wrapper.fee_payer@,
            (held - fee) as nat,
        );
        assert(debited.balance(wrapper.fee.token@, proposer) == ledger.balance(
            wrapper.fee.token@,
            proposer,
        ));
    }
}

/// A second wrapper of the same payer and fee, checked on the ledger that
/// the first one left, is refused for want of balance exactly where the fee
/// is more than what the first one left.
pub proof fn second_fee_needs_balance(
    ledger: Ledger,
    wrapper: WrapperTx,
    proposer: AddressView,
    price: Option<Amount>,
)
    requires
        wrapper.fee_payer@ != proposer,
        fee_check(ledger, wrapper, proposer, price) is Ok,
    ensures
        total_fee(wrapper) > ledger.balance(wrapper.fee.token@, wrapper.fee_payer@) - total_fee(
            wrapper,
        ) <==> fee_check(
            fee_check(ledger, wrapper, proposer, price).unwrap(),
            wrapper,
            proposer,
            price,
        ) == Err::<Ledger, FeeError>(FeeError::InsufficientBalance),
{
    fee_is_debited(ledger, wrapper, proposer, price);
}

/// An admitted wrapper has paid: its payer, where that is not the proposer,
/// held at least the fee and is left with the balance less the fee, and the
/// proposer has as much more.
pub proof fn admitted_has_paid(
    ledger: Ledger,
    candidate: CandidateTransaction,
    env: AdmissionEnv,
)
    requires
        admission(ledger, candidate, env) is Ok,
    ensures
        candidate.decoded is Some,
        candidate.decoded.unwrap().tx_type is Wrapper,
        ({
            let wrapper = candidate.decoded.unwrap().tx_type->Wrapper_0;
            let after = admission(ledger, candidate, env).unwrap().ledger;
            let token = wrapper.fee.token@;
            &&& admission(ledger, candidate, env).unwrap().gas_limit == wrapper.gas_limit
            &&& candidate.bytes@.len() <= wrapper.gas_limit
            &&& wrapper.fee_payer@ != env.proposer ==> {
                &&& total_fee(wrapper) <= ledger.balance(token, wrapper.fee_payer@)
                &&& after.balance(token, wrapper.fee_payer@) == ledger.balance(
                    token,
                    wrapper.fee_payer@,
                ) - total_fee(wrapper)
                &&& after.balance(token, env.proposer) == ledger.balance(token, env.proposer)
                    + total_fee(wrapper)
            }
            &&& wrapper.fee_payer@ == env.proposer ==> after.balance(token, env.proposer)
                == ledger.balance(token, env.proposer)
        }),
{
}

} // verus!
