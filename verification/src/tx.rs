//! Transactions as proposal construction sees them: the bytes that came
//! from the mempool, and what their decoding and validation gave.

use crate::address::Address;
use crate::time::DateTimeUtc;
use crate::token::DenominatedAmount;
use vstd::prelude::*;

verus! {

/// The bytes of a transaction.
pub type TxBytes = Vec<u8>;

/// The fee that a wrapper offers.
#[derive(Debug, Clone)]
pub struct Fee {
    /// What is paid for each unit of gas.
    pub amount_per_gas_unit: DenominatedAmount,
    /// The token it is paid in.
    pub token: Address,
}

/// The fee-bearing envelope of an inner transaction.
#[derive(Debug, Clone)]
pub struct WrapperTx {
    /// The fee offered.
    pub fee: Fee,
    /// The account that pays it.
    pub fee_payer: Address,
    /// The most gas the transaction may use.
    pub gas_limit: u64,
}

impl WrapperTx {
    /// A wrapper with the given fee, payer and gas limit.
    pub fn new(fee: Fee, fee_payer: Address, gas_limit: u64) -> (r: Self)
        ensures
            r.fee == fee,
            r.fee_payer == fee_payer,
            r.gas_limit == gas_limit,
    {
        WrapperTx { fee, fee_payer, gas_limit }
    }
}

/// The kind of a transaction.
#[derive(Debug, Clone)]
pub enum TxType {
    /// A bare transaction, without a fee.
    Raw,
    /// A fee-bearing wrapper.
    Wrapper(WrapperTx),
    /// A transaction that a validator wrote for the protocol's own use.
    Protocol,
}

/// A decoded transaction.
#[derive(Debug, Clone)]
pub struct Tx {
    /// Its kind.
    pub tx_type: TxType,
    /// The time after which it may no longer be applied.
    pub expiration: Option<DateTimeUtc>,
    /// Whether its structure and signatures were found in order.
    pub valid: bool,
    /// The hash of its header.
    pub header_hash: crate::hash::Hash,
    /// The hash of the header of the inner transaction.
    pub raw_header_hash: crate::hash::Hash,
}

impl Tx {
    /// A transaction of the given kind that is valid, never expires, and
    /// has the given hashes.
    pub fn from_type(tx_type: TxType, header_hash: crate::hash::Hash, raw_header_hash: crate::hash::Hash) -> (r: Self)
        ensures
            r.tx_type == tx_type,
            r.expiration is None,
            r.valid,
            r.header_hash == header_hash,
            r.raw_header_hash == raw_header_hash,
    {
        Tx { tx_type, expiration: None, valid: true, header_hash, raw_header_hash }
    }

    /// Whether this is a protocol transaction that may be proposed.
    pub open spec fn is_proposable_protocol_tx(&self) -> bool {
        self.tx_type is Protocol && self.valid
    }
}

/// A transaction offered for a proposal: its bytes, and what decoding them
/// gave (`None` where they could not be decoded).
#[derive(Debug, Clone)]
pub struct CandidateTransaction {
    pub bytes: TxBytes,
    pub decoded: Option<Tx>,
}

impl CandidateTransaction {
    /// A candidate from its bytes and its decoding.
    pub fn new(bytes: TxBytes, decoded: Option<Tx>) -> (r: Self)
        ensures
            r.bytes == bytes,
            r.decoded == decoded,
    {
        CandidateTransaction { bytes, decoded }
    }

    /// Whether this is a protocol transaction that may be proposed.
    pub open spec fn is_protocol(&self) -> bool {
        self.decoded is Some && self.decoded.unwrap().is_proposable_protocol_tx()
    }

    /// Whether this is a protocol transaction that may be proposed.
    pub fn is_protocol_tx(&self) -> (r: bool)
        ensures
            r == self.is_protocol(),
    {
        match &self.decoded {
            Some(tx) => match tx.tx_type {
                TxType::Protocol => tx.valid,
                _ => false,
            },
            None => false,
        }
    }
}

} // verus!
