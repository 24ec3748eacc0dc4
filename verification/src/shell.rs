//! The node, as far as proposal construction needs it.

use crate::address::Address;
use crate::state::{State, TokenRates};
use crate::time::Timestamp;
use crate::tx::{CandidateTransaction, TxBytes};
use vstd::prelude::*;

verus! {

/// What a validator decides for itself about the blocks it proposes.
#[derive(Debug, Clone)]
pub struct ValidatorLocalConfig {
    /// The tokens that this validator takes for fees, each with the least
    /// price of a unit of gas.
    pub accepted_gas_tokens: TokenRates,
}

/// The role of the node.
#[derive(Debug, Clone)]
pub enum ShellMode {
    /// The node takes part in consensus.
    Validator { local_config: Option<ValidatorLocalConfig> },
    /// The node follows the chain.
    Full,
    /// The node only hands out peers.
    Seed,
}

/// The node.
#[derive(Debug, Clone)]
pub struct Shell {
    /// Its role.
    pub mode: ShellMode,
    /// Its committed state.
    pub state: State,
}

/// The consensus engine's request for a proposal.
#[derive(Debug, Clone)]
pub struct RequestPrepareProposal {
    /// The transactions of the mempool, in its order.
    pub txs: Vec<CandidateTransaction>,
    /// The time of the block to propose, where it is known.
    pub time: Option<Timestamp>,
    /// The validator that proposes the block.
    pub proposer_address: Address,
    /// The height of the block to propose.
    pub height: i64,
}

/// The proposal: the bytes of the chosen transactions, in order.
#[derive(Debug, Clone)]
pub struct PrepareProposal {
    /// The bytes of the transactions proposed.
    pub txs: Vec<TxBytes>,
}

/// The byte strings that a list of transactions holds.
pub open spec fn bytes_of(txs: Seq<TxBytes>) -> Seq<Seq<u8>> {
    Seq::new(txs.len(), |i: int| txs[i]@)
}

/// The sum of the lengths of the byte strings.
pub open spec fn total_len(txs: Seq<Seq<u8>>) -> nat
    decreases txs.len(),
{
    if txs.len() == 0 {
        0
    } else {
        total_len(txs.drop_last()) + txs.last().len()
    }
}

impl Shell {
    /// The local configuration of a validator node.
    pub open spec fn local_config(&self) -> Option<ValidatorLocalConfig> {
        match self.mode {
            ShellMode::Validator { local_config } => local_config,
            _ => None,
        }
    }
}

} // verus!
