//! Construction of a block proposal: a first batch of protocol
//! transactions, then the normal transactions, then the protocol
//! transactions that are left.

use crate::address::Address;
use crate::admission::{admission, env_of, validate_wrapper_bytes, AdmissionEnv};
use crate::block_alloc::{
    AllocFailure, Bin, BinKind, BlockAllocator, BlockResources, BuildingNormalTxBatch,
    BuildingProtocolTxBatch, NormalTxsBins, ResourceBudget, WithNormalTxs, WithoutNormalTxs,
};
use crate::shell::{
    bytes_of, total_len, PrepareProposal, RequestPrepareProposal, Shell, ShellMode, ValidatorLocalConfig,
};
use crate::state::Ledger;
use crate::time::{DateTimeUtc, Timestamp};
use crate::tx::{CandidateTransaction, TxBytes};
use vstd::prelude::*;

verus! {

/// The outcome of offering protocol transactions to a bin.
pub struct ProtocolBatch {
    /// The bytes of the transactions taken, in order.
    pub taken: Seq<Seq<u8>>,
    /// The candidates that were not taken, in order.
    pub rest: Seq<CandidateTransaction>,
    /// The bin's budget afterwards.
    pub budget: ResourceBudget,
}

/// Offer the protocol transactions among `txs` to `budget`, in order. One
/// that fits is taken. One that is larger than the bin is passed over. The
/// first one that the bin has no room left for ends the scan. Whatever is
/// not taken stays in the list.
pub open spec fn protocol_batch(budget: ResourceBudget, txs: Seq<CandidateTransaction>)
    -> ProtocolBatch
    decreases txs.len(),
{
    if txs.len() == 0 {
        ProtocolBatch { taken: Seq::empty(), rest: Seq::empty(), budget }
    } else {
        let first = txs[0];
        let size = first.bytes@.len() as u64;
        if !first.is_protocol() {
            let then = protocol_batch(budget, txs.drop_first());
            ProtocolBatch { taken: then.taken, rest: seq![first] + then.rest, budget: then.budget }
        } else {
            match budget.outcome(size) {
                Ok(()) => {
                    let then = protocol_batch(budget.after(size), txs.drop_first());
                    ProtocolBatch {
                        taken: seq![first.bytes@] + then.taken,
                        rest: then.rest,
                        budget: then.budget,
                    }
                },
                Err(AllocFailure::OverflowsBin { .. }) => {
                    let then = protocol_batch(budget, txs.drop_first());
                    ProtocolBatch {
                        taken: then.taken,
                        rest: seq![first] + then.rest,
                        budget: then.budget,
                    }
                },
                Err(AllocFailure::Rejected { .. }) => ProtocolBatch {
                    taken: Seq::empty(),
                    rest: txs,
                    budget,
                },
            }
        }
    }
}

/// The outcome of offering normal transactions to the allocator.
pub struct NormalBatch {
    /// The bytes of the transactions taken, in order.
    pub taken: Seq<Seq<u8>>,
    /// The two bins afterwards.
    pub bins: NormalTxsBins,
}

/// Run the candidates through the admission checks and the allocator, in
/// order. A candidate that fails a check is dropped, and its writes with
/// it. One that passes leaves its writes, and is then offered to the bins:
/// taken if bytes and gas both fit, passed over if it is larger than a bin,
/// and the end of the scan if a bin has no room left for it.
pub open spec fn normal_batch(
    ledger: Ledger,
    bins: NormalTxsBins,
    txs: Seq<CandidateTransaction>,
    env: AdmissionEnv,
) -> NormalBatch
    decreases txs.len(),
{
    if txs.len() == 0 {
        NormalBatch { taken: Seq::empty(), bins }
    } else {
        let first = txs[0];
        let size = first.bytes@.len() as u64;
        match admission(ledger, first, env) {
            Err(_) => normal_batch(ledger, bins, txs.drop_first(), env),
            Ok(admitted) => match bins.outcome(size, admitted.gas_limit) {
                Ok(()) => {
                    let then = normal_batch(
                        admitted.ledger,
                        bins.after(size, admitted.gas_limit),
                        txs.drop_first(),
                        env,
                    );
                    NormalBatch { taken: seq![first.bytes@] + then.taken, bins: then.bins }
                },
                Err(AllocFailure::OverflowsBin { .. }) => normal_batch(
                    admitted.ledger,
                    bins,
                    txs.drop_first(),
                    env,
                ),
                Err(AllocFailure::Rejected { .. }) => NormalBatch { taken: Seq::empty(), bins },
            },
        }
    }
}

/// The time of the block, where the request gives one that can be read.
pub open spec fn block_time_of(time: Option<Timestamp>) -> Option<DateTimeUtc> {
    match time {
        Some(ts) => DateTimeUtc::from_timestamp(ts),
        None => None,
    }
}

/// The bins of the normal transactions once a first protocol batch has
/// used `protocol_bytes` of a block of `max_bytes`.
pub open spec fn normal_bins(max_bytes: u64, max_gas: u64, protocol_bytes: u64) -> NormalTxsBins {
    NormalTxsBins {
        space: Bin {
            kind: BinKind::NormalTxSpace,
            budget: ResourceBudget { capacity: (max_bytes - protocol_bytes) as u64, consumed: 0 },
        },
        gas: Bin { kind: BinKind::Gas, budget: ResourceBudget { capacity: max_gas, consumed: 0 } },
    }
}

/// The proposal that a node makes on a request.
///
/// A node that is no validator proposes nothing, and so does any node
/// before the first block or without a limit on the gas of a block in its
/// state. Otherwise protocol transactions may take up to
/// half of the block's bytes; the normal transactions get the bytes that
/// those left, and the block's gas; and the protocol transactions that were
/// not taken at first get what is left after that.
pub open spec fn proposal(shell: &Shell, req: &RequestPrepareProposal) -> Seq<Seq<u8>> {
    if !(shell.mode is Validator) || shell.state.last_block is None
        || shell.state.max_block_gas is None {
        Seq::empty()
    } else {
        let max_bytes = shell.state.max_proposal_bytes;
        let first = protocol_batch(
            ResourceBudget { capacity: max_bytes / 2, consumed: 0 },
            req.txs@,
        );
        let env = AdmissionEnv {
            block_time: block_time_of(req.time),
            proposer: req.proposer_address@,
            local_rates: match shell.local_config() {
                Some(config) => Some(config.accepted_gas_tokens.entries@),
                None => None,
            },
            global_rates: shell.state.minimum_gas_price.entries@,
        };
        let normal = normal_batch(
            shell.state.ledger(),
            normal_bins(max_bytes, shell.state.max_block_gas.unwrap(), first.budget.consumed),
            first.rest,
            env,
        );
        let last = protocol_batch(
            ResourceBudget {
                capacity: (max_bytes - first.budget.consumed
                    - normal.bins.space.budget.consumed) as u64,
                consumed: 0,
            },
            first.rest,
        );
        first.taken + normal.taken + last.taken
    }
}

impl Shell {
    /// Get the first state of the block allocator. This is for protocol
    /// transactions.
    pub fn get_protocol_txs_allocator(&self) -> (r: BlockAllocator<
        BuildingProtocolTxBatch<WithNormalTxs>,
    >)
        requires
            self.state.max_block_gas is Some,
        ensures
            r.block_bin().budget == (ResourceBudget {
                capacity: self.state.max_proposal_bytes,
                consumed: 0,
            }),
            r.protocol_bin().budget == (ResourceBudget {
                capacity: self.state.max_proposal_bytes / 2,
                consumed: 0,
            }),
            r.normal_bins().space == (Bin {
                kind: BinKind::NormalTxSpace,
                budget: ResourceBudget { capacity: 0, consumed: 0 },
            }),
            r.normal_bins().gas == (Bin {
                kind: BinKind::Gas,
                budget: ResourceBudget {
                    capacity: self.state.max_block_gas.unwrap(),
                    consumed: 0,
                },
            }),
    {
        BlockAllocator::init(self.state.max_proposal_bytes, self.state.max_block_gas.unwrap())
    }

    /// Builds a batch of protocol transactions. The ones taken leave
    /// `txs`; the others stay in it, in their order. Before the first block
    /// nothing is taken.
    pub fn build_protocol_txs<M>(
        &self,
        alloc: BlockAllocator<BuildingProtocolTxBatch<M>>,
        txs: &mut Vec<CandidateTransaction>,
    ) -> (r: (BlockAllocator<BuildingProtocolTxBatch<M>>, Vec<TxBytes>))
        ensures
            r.0.block_bin() == alloc.block_bin(),
            r.0.normal_bins() == alloc.normal_bins(),
            r.0.protocol_bin().kind == alloc.protocol_bin().kind,
            self.state.last_block is None ==> r.0 == alloc && r.1@.len() == 0 && final(txs)@
                == old(txs)@,
            self.state.last_block is Some ==> {
                let batch = protocol_batch(alloc.protocol_bin().budget, old(txs)@);
                &&& bytes_of(r.1@) == batch.taken
                &&& final(txs)@ == batch.rest
                &&& r.0.protocol_bin().budget == batch.budget
            },
    {
        let ghost initial = alloc;
        let mut alloc = alloc;
        let mut taken: Vec<TxBytes> = Vec::new();
        if self.state.last_block.is_none() {
            return (alloc, taken);
        }
        let ghost start = alloc.protocol_bin().budget;
        let ghost all = txs@;
        let mut i: usize = 0;
        assert(txs@.subrange(0, txs@.len() as int) =~= txs@);
        assert(bytes_of(taken@) =~= Seq::<Seq<u8>>::empty());
        assert(txs@.subrange(0, 0) =~= Seq::<CandidateTransaction>::empty());
        loop
            invariant_except_break
                i <= txs@.len(),
                protocol_batch(start, all) == (ProtocolBatch {
                    taken: bytes_of(taken@) + protocol_batch(
                        alloc.protocol_bin().budget,
                        txs@.subrange(i as int, txs@.len() as int),
                    ).taken,
                    rest: txs@.subrange(0, i as int) + protocol_batch(
                        alloc.protocol_bin().budget,
                        txs@.subrange(i as int, txs@.len() as int),
                    ).rest,
                    budget: protocol_batch(
                        alloc.protocol_bin().budget,
                        txs@.subrange(i as int, txs@.len() as int),
                    ).budget,
                }),
            invariant
                alloc.block_bin() == initial.block_bin(),
                alloc.normal_bins() == initial.normal_bins(),
                alloc.protocol_bin().kind == initial.protocol_bin().kind,
            ensures
                protocol_batch(start, all) == (ProtocolBatch {
                    taken: bytes_of(taken@),
                    rest: txs@,
                    budget: alloc.protocol_bin().budget,
                }),
            decreases txs@.len() - i,
        {
            let ghost suffix = txs@.subrange(i as int, txs@.len() as int);
            let ghost prefix = txs@.subrange(0, i as int);
            let ghost before = taken@;
            if i >= txs.len() {
                assert(suffix =~= Seq::<CandidateTransaction>::empty());
                assert(prefix =~= txs@);
                assert(bytes_of(taken@) + Seq::<Seq<u8>>::empty() =~= bytes_of(taken@));
                assert(txs@ + Seq::<CandidateTransaction>::empty() =~= txs@);
                break ;
            }
            assert(suffix[0] == txs@[i as int]);
            assert(suffix.drop_first() =~= txs@.subrange(i + 1, txs@.len() as int));
            if !txs[i].is_protocol_tx() {
                assert(txs@.subrange(0, i + 1) =~= prefix + seq![txs@[i as int]]);
                let ghost then = protocol_batch(alloc.protocol_bin().budget, suffix.drop_first());
                assert(prefix + (seq![txs@[i as int]] + then.rest) =~= txs@.subrange(0, i + 1)
                    + then.rest);
                i = i + 1;
                continue ;
            }
            match alloc.try_alloc(txs[i].bytes.as_slice()) {
                Ok(()) => {
                    let ghost then = protocol_batch(alloc.protocol_bin().budget, suffix.drop_first());
                    let candidate = txs.remove(i);
                    assert(txs@.subrange(i as int, txs@.len() as int) =~= suffix.drop_first());
                    assert(txs@.subrange(0, i as int) =~= prefix);
                    taken.push(candidate.bytes);
                    assert(bytes_of(taken@) =~= bytes_of(before) + seq![candidate.bytes@]);
                    assert(bytes_of(before) + (seq![candidate.bytes@] + then.taken) =~= bytes_of(
                        taken@,
                    ) + then.taken);
                },
                Err(AllocFailure::OverflowsBin { .. }) => {
                    assert(txs@.subrange(0, i + 1) =~= prefix + seq![txs@[i as int]]);
                    let ghost then = protocol_batch(alloc.protocol_bin().budget, suffix.drop_first());
                    assert(prefix + (seq![txs@[i as int]] + then.rest) =~= txs@.subrange(0, i + 1)
                        + then.rest);
                    i = i + 1;
                },
                Err(AllocFailure::Rejected { .. }) => {
                    assert(prefix + suffix =~= txs@);
                    assert(bytes_of(taken@) + Seq::<Seq<u8>>::empty() =~= bytes_of(taken@));
                    break ;
                },
            }
        }
        (alloc, taken)
    }

    /// Allocate an initial set of protocol txs and advance to the next
    /// allocation state.
    pub fn build_protocol_tx_with_normal_txs(
        &self,
        alloc: BlockAllocator<BuildingProtocolTxBatch<WithNormalTxs>>,
        txs: &mut Vec<CandidateTransaction>,
    ) -> (r: (BlockAllocator<BuildingNormalTxBatch>, Vec<TxBytes>))
        ensures
            r.0.block_bin() == alloc.block_bin(),
            r.0.normal_bins().gas == alloc.normal_bins().gas,
            r.0.normal_bins().space.kind == BinKind::NormalTxSpace,
            r.0.normal_bins().space.budget.consumed == 0,
            r.0.protocol_bin().budget.capacity == r.0.protocol_bin().budget.consumed,
            r.0.normal_bins().space.budget.capacity == alloc.block_bin().budget.capacity
                - r.0.protocol_bin().budget.consumed,
            self.state.last_block is None ==> r.1@.len() == 0 && final(txs)@ == old(txs)@
                && r.0.protocol_bin().budget.consumed == alloc.protocol_bin().budget.consumed,
            self.state.last_block is Some ==> {
                let batch = protocol_batch(alloc.protocol_bin().budget, old(txs)@);
                &&& bytes_of(r.1@) == batch.taken
                &&& final(txs)@ == batch.rest
                &&& r.0.protocol_bin().budget.consumed == batch.budget.consumed
            },
    {
        let (alloc, taken) = self.build_protocol_txs(alloc, txs);
        (alloc.next_state(), taken)
    }

    /// Allocate protocol txs into any remaining space. After this, no more
    /// allocation will take place.
    pub fn build_protocol_tx_without_normal_txs(
        &self,
        alloc: BlockAllocator<BuildingProtocolTxBatch<WithoutNormalTxs>>,
        txs: &mut Vec<CandidateTransaction>,
    ) -> (r: Vec<TxBytes>)
        ensures
            self.state.last_block is None ==> r@.len() == 0 && final(txs)@ == old(txs)@,
            self.state.last_block is Some ==> {
                let batch = protocol_batch(alloc.protocol_bin().budget, old(txs)@);
                &&& bytes_of(r@) == batch.taken
                &&& final(txs)@ == batch.rest
            },
    {
        let (_, taken) = self.build_protocol_txs(alloc, txs);
        taken
    }

    /// Builds a batch of normal transactions, retrieved from the mempool,
    /// and advances to the next allocation state.
    pub fn build_normal_txs(
        &self,
        alloc: BlockAllocator<BuildingNormalTxBatch>,
        txs: &[CandidateTransaction],
        block_time: Option<Timestamp>,
        block_proposer: &Address,
        proposer_local_config: Option<&ValidatorLocalConfig>,
    ) -> (r: (Vec<TxBytes>, BlockAllocator<BuildingProtocolTxBatch<WithoutNormalTxs>>))
        ensures
            ({
                let batch = normal_batch(
                    self.state.ledger(),
                    alloc.normal_bins(),
                    txs@,
                    env_of(
                        block_time_of(block_time),
                        block_proposer,
                        proposer_local_config,
                        &self.state,
                    ),
                );
                &&& bytes_of(r.0@) == batch.taken
                &&& r.1.block_bin() == alloc.block_bin()
                &&& r.1.normal_bins().gas == batch.bins.gas
                &&& r.1.normal_bins().space.budget == (ResourceBudget {
                    capacity: batch.bins.space.budget.consumed,
                    consumed: batch.bins.space.budget.consumed,
                })
                &&& r.1.protocol_bin() == (Bin {
                    kind: BinKind::ProtocolTxSpace,
                    budget: ResourceBudget {
                        capacity: (alloc.block_bin().budget.capacity
                            - alloc.protocol_bin().budget.capacity
                            - batch.bins.space.budget.consumed) as u64,
                        consumed: 0,
                    },
                })
            }),
    {
        let ghost initial = alloc;
        let mut alloc = alloc;
        let block_time = match block_time {
            Some(ts) => DateTimeUtc::try_from_timestamp(ts),
            None => None,
        };
        let mut temp_state = self.state.with_temp_write_log();
        let mut taken: Vec<TxBytes> = Vec::new();
        let ghost env = env_of(block_time, block_proposer, proposer_local_config, &self.state);
        let ghost start = alloc.normal_bins();
        let mut i: usize = 0;
        assert(txs@.subrange(0, txs@.len() as int) =~= txs@);
        assert(bytes_of(taken@) =~= Seq::<Seq<u8>>::empty());
        loop
            invariant_except_break
                i <= txs@.len(),
                normal_batch(self.state.ledger(), start, txs@, env) == (NormalBatch {
                    taken: bytes_of(taken@) + normal_batch(
                        temp_state.visible(),
                        alloc.normal_bins(),
                        txs@.subrange(i as int, txs@.len() as int),
                        env,
                    ).taken,
                    bins: normal_batch(
                        temp_state.visible(),
                        alloc.normal_bins(),
                        txs@.subrange(i as int, txs@.len() as int),
                        env,
                    ).bins,
                }),
            invariant
                alloc.block_bin() == initial.block_bin(),
                alloc.protocol_bin() == initial.protocol_bin(),
                temp_state.state == &self.state,
                temp_state.visible() == temp_state.committed(),
                env == env_of(block_time, block_proposer, proposer_local_config, &self.state),
            ensures
                normal_batch(self.state.ledger(), start, txs@, env) == (NormalBatch {
                    taken: bytes_of(taken@),
                    bins: alloc.normal_bins(),
                }),
            decreases txs@.len() - i,
        {
            let ghost suffix = txs@.subrange(i as int, txs@.len() as int);
            let ghost before = taken@;
            if i >= txs.len() {
                assert(suffix =~= Seq::<CandidateTransaction>::empty());
                assert(bytes_of(taken@) + Seq::<Seq<u8>>::empty() =~= bytes_of(taken@));
                break ;
            }
            assert(suffix[0] == txs@[i as int]);
            assert(suffix.drop_first() =~= txs@.subrange(i + 1, txs@.len() as int));
            let candidate = &txs[i];
            match validate_wrapper_bytes(
                candidate,
                block_time,
                block_proposer,
                proposer_local_config,
                &mut temp_state,
            ) {
                Err(_) => {
                    temp_state.drop_tx();
                    i = i + 1;
                },
                Ok(gas) => {
                    temp_state.commit_tx();
                    match alloc.try_alloc(BlockResources::new(candidate.bytes.as_slice(), gas)) {
                        Ok(()) => {
                            let ghost then = normal_batch(
                                temp_state.visible(),
                                alloc.normal_bins(),
                                suffix.drop_first(),
                                env,
                            );
                            taken.push(vstd::slice::slice_to_vec(candidate.bytes.as_slice()));
                            assert(bytes_of(taken@) =~= bytes_of(before) + seq![candidate.bytes@]);
                            assert(bytes_of(before) + (seq![candidate.bytes@] + then.taken)
                                =~= bytes_of(taken@) + then.taken);
                            i = i + 1;
                        },
                        Err(AllocFailure::OverflowsBin { .. }) => {
                            i = i + 1;
                        },
                        Err(AllocFailure::Rejected { .. }) => {
                            assert(bytes_of(taken@) + Seq::<Seq<u8>>::empty() =~= bytes_of(taken@));
                            break ;
                        },
                    }
                },
            }
        }
        (taken, alloc.next_state())
    }

    /// Begin a new block: choose, from the transactions of the mempool,
    /// the ones to propose, in their order.
    pub fn prepare_proposal(&self, req: RequestPrepareProposal) -> (r: PrepareProposal)
        ensures
            bytes_of(r.txs@) == proposal(self, &req),
            !(self.mode is Validator) ==> r.txs@.len() == 0,
            self.state.last_block is None ==> r.txs@.len() == 0,
            self.state.max_block_gas is None ==> r.txs@.len() == 0,
    {
        let mut req = req;
        let ghost request = req;
        let mut txs: Vec<TxBytes> = Vec::new();
        match &self.mode {
            ShellMode::Validator { local_config } => {
                if self.state.last_block.is_none() || self.state.max_block_gas.is_none() {
                    assert(bytes_of(txs@) =~= Seq::<Seq<u8>>::empty());
                    return PrepareProposal { txs };
                }
                let alloc = self.get_protocol_txs_allocator();
                let (alloc, mut first) = self.build_protocol_tx_with_normal_txs(
                    alloc,
                    &mut req.txs,
                );
                let (mut normal_txs, alloc) = self.build_normal_txs(
                    alloc,
                    req.txs.as_slice(),
                    req.time,
                    &req.proposer_address,
                    local_config.as_ref(),
                );
                let mut remaining_txs = self.build_protocol_tx_without_normal_txs(
                    alloc,
                    &mut req.txs,
                );
                let ghost a = first@;
                let ghost b = normal_txs@;
                let ghost c = remaining_txs@;
                txs.append(&mut first);
                txs.append(&mut normal_txs);
                txs.append(&mut remaining_txs);
                assert(bytes_of(txs@) =~= bytes_of(a) + bytes_of(b) + bytes_of(c));
            },
            _ => {
                assert(bytes_of(txs@) =~= Seq::<Seq<u8>>::empty());
            },
        }
        PrepareProposal { txs }
    }
}

/// The lengths of a list with one more string in front add up.
pub proof fn total_len_front(first: Seq<u8>, rest: Seq<Seq<u8>>)
    ensures
        total_len(seq![first] + rest) == first.len() + total_len(rest),
    decreases rest.len(),
{
    let all = seq![first] + rest;
    if rest.len() == 0 {
        assert(all.drop_last() =~= Seq::<Seq<u8>>::empty());
        assert(all.last() == first);
        assert(total_len(all.drop_last()) == 0);
    } else {
        total_len_front(first, rest.drop_last());
        assert(all.drop_last() =~= seq![first] + rest.drop_last());
        assert(all.last() == rest.last());
    }
}

/// The lengths of two lists, one after the other, add up.
pub proof fn total_len_concat(a: Seq<Seq<u8>>, b: Seq<Seq<u8>>)
    ensures
        total_len(a + b) == total_len(a) + total_len(b),
    decreases b.len(),
{
    if b.len() == 0 {
        assert(a + b =~= a);
    } else {
        total_len_concat(a, b.drop_last());
        assert((a + b).drop_last() =~= a + b.drop_last());
    }
}

/// The bytes of the protocol transactions taken are exactly what the bin
/// was charged.
pub proof fn protocol_batch_fills(budget: ResourceBudget, txs: Seq<CandidateTransaction>)
    requires
        budget.wf(),
    ensures
        protocol_batch(budget, txs).budget.wf(),
        protocol_batch(budget, txs).budget.capacity == budget.capacity,
        protocol_batch(budget, txs).budget.consumed == budget.consumed + total_len(
            protocol_batch(budget, txs).taken,
        ),
    decreases txs.len(),
{
    if txs.len() > 0 {
        let size = txs[0].bytes@.len() as u64;
        vstd::std_specs::vec::axiom_spec_len(&txs[0].bytes);
        protocol_batch_fills(budget, txs.drop_first());
        protocol_batch_fills(budget.after(size), txs.drop_first());
        total_len_front(txs[0].bytes@, protocol_batch(budget.after(size), txs.drop_first()).taken);
    }
}

/// The bytes of the normal transactions taken are exactly what the space
/// bin was charged, and neither bin is over its capacity.
pub proof fn normal_batch_fills(
    ledger: Ledger,
    bins: NormalTxsBins,
    txs: Seq<CandidateTransaction>,
    env: AdmissionEnv,
)
    requires
        bins.wf(),
    ensures
        normal_batch(ledger, bins, txs, env).bins.wf(),
        normal_batch(ledger, bins, txs, env).bins.space.budget.capacity
            == bins.space.budget.capacity,
        normal_batch(ledger, bins, txs, env).bins.gas.budget.capacity == bins.gas.budget.capacity,
        normal_batch(ledger, bins, txs, env).bins.space.budget.consumed
            == bins.space.budget.consumed + total_len(
            normal_batch(ledger, bins, txs, env).taken,
        ),
    decreases txs.len(),
{
    if txs.len() > 0 {
        let size = txs[0].bytes@.len() as u64;
        vstd::std_specs::vec::axiom_spec_len(&txs[0].bytes);
        match admission(ledger, txs[0], env) {
            Err(_) => {
                normal_batch_fills(ledger, bins, txs.drop_first(), env);
            },
            Ok(admitted) => {
                normal_batch_fills(admitted.ledger, bins, txs.drop_first(), env);
                normal_batch_fills(
                    admitted.ledger,
                    bins.after(size, admitted.gas_limit),
                    txs.drop_first(),
                    env,
                );
                total_len_front(
                    txs[0].bytes@,
                    normal_batch(
                        admitted.ledger,
                        bins.after(size, admitted.gas_limit),
                        txs.drop_first(),
                        env,
                    ).taken,
                );
            },
        }
    }
}

/// A proposal never holds more bytes than a block may have.
pub proof fn proposal_fits_block(shell: &Shell, req: &RequestPrepareProposal)
    ensures
        total_len(proposal(shell, req)) <= shell.state.max_proposal_bytes,
{
    if shell.mode is Validator && shell.state.last_block is Some && shell.state.max_block_gas
        is Some {
        let max_bytes = shell.state.max_proposal_bytes;
        let budget = ResourceBudget { capacity: max_bytes / 2, consumed: 0 };
        let first = protocol_batch(budget, req.txs@);
        protocol_batch_fills(budget, req.txs@);
        let env = AdmissionEnv {
            block_time: block_time_of(req.time),
            proposer: req.proposer_address@,
            local_rates: match shell.local_config() {
                Some(config) => Some(config.accepted_gas_tokens.entries@),
                None => None,
            },
            global_rates: shell.state.minimum_gas_price.entries@,
        };
        let bins = normal_bins(
            max_bytes,
            shell.state.max_block_gas.unwrap(),
            first.budget.consumed,
        );
        let normal = normal_batch(shell.state.ledger(), bins, first.rest, env);
        normal_batch_fills(shell.state.ledger(), bins, first.rest, env);
        let left = ResourceBudget {
            capacity: (max_bytes - first.budget.consumed
                - normal.bins.space.budget.consumed) as u64,
            consumed: 0,
        };
        let last = protocol_batch(left, first.rest);
        protocol_batch_fills(left, first.rest);
        total_len_concat(first.taken, normal.taken);
        total_len_concat(first.taken + normal.taken, last.taken);
    }
}

/// Before the first block every proposal is empty, whatever the mempool
/// holds; a node that is no validator never proposes anything; and nothing
/// is proposed without a limit on the gas of a block.
pub proof fn nothing_proposed(shell: &Shell, req: &RequestPrepareProposal)
    requires
        shell.state.last_block is None || !(shell.mode is Validator)
            || shell.state.max_block_gas is None,
    ensures
        proposal(shell, req).len() == 0,
{
}

/// Candidates that all carry one wrapper hash: none of them is taken if the
/// hash is recorded already, and at most one of them otherwise.
pub proof fn same_wrapper_taken_once(
    ledger: Ledger,
    bins: NormalTxsBins,
    txs: Seq<CandidateTransaction>,
    env: AdmissionEnv,
    hash: Seq<u8>,
)
    requires
        forall|i: int|
            0 <= i < txs.len() && (#[trigger] txs[i]).decoded is Some
                ==> txs[i].decoded.unwrap().header_hash@ == hash,
    ensures
        normal_batch(ledger, bins, txs, env).taken.len() <= 1,
        ledger.hashes.contains(hash) ==> normal_batch(ledger, bins, txs, env).taken.len() == 0,
    decreases txs.len(),
{
    if txs.len() > 0 {
        let size = txs[0].bytes@.len() as u64;
        assert forall|i: int|
            0 <= i < txs.drop_first().len() && (#[trigger] txs.drop_first()[i]).decoded
                is Some implies txs.drop_first()[i].decoded.unwrap().header_hash@ == hash by {
            assert(txs.drop_first()[i] == txs[i + 1]);
        }
        match admission(ledger, txs[0], env) {
            Err(_) => {
                same_wrapper_taken_once(ledger, bins, txs.drop_first(), env, hash);
            },
            Ok(admitted) => {
                crate::admission::admission_records_hash(ledger, txs[0], env);
                same_wrapper_taken_once(admitted.ledger, bins, txs.drop_first(), env, hash);
                same_wrapper_taken_once(
                    admitted.ledger,
                    bins.after(size, admitted.gas_limit),
                    txs.drop_first(),
                    env,
                    hash,
                );
            },
        }
    }
}

/// Which of the candidates a scan of normal transactions takes: for each
/// candidate, in order, whether it is taken.
pub open spec fn normal_picks(
    ledger: Ledger,
    bins: NormalTxsBins,
    txs: Seq<CandidateTransaction>,
    env: AdmissionEnv,
) -> Seq<bool>
    decreases txs.len(),
{
    if txs.len() == 0 {
        Seq::empty()
    } else {
        let first = txs[0];
        let size = first.bytes@.len() as u64;
        match admission(ledger, first, env) {
            Err(_) => seq![false] + normal_picks(ledger, bins, txs.drop_first(), env),
            Ok(admitted) => match bins.outcome(size, admitted.gas_limit) {
                Ok(()) => seq![true] + normal_picks(
                    admitted.ledger,
                    bins.after(size, admitted.gas_limit),
                    txs.drop_first(),
                    env,
                ),
                Err(AllocFailure::OverflowsBin { .. }) => seq![false] + normal_picks(
                    admitted.ledger,
                    bins,
                    txs.drop_first(),
                    env,
                ),
                Err(AllocFailure::Rejected { .. }) => Seq::new(txs.len(), |i: int| false),
            },
        }
    }
}

/// The bytes of the candidates that are picked, in order.
pub open spec fn picked_bytes(txs: Seq<CandidateTransaction>, picks: Seq<bool>) -> Seq<Seq<u8>>
    decreases txs.len(),
{
    if txs.len() == 0 || picks.len() == 0 {
        Seq::empty()
    } else if picks[0] {
        seq![txs[0].bytes@] + picked_bytes(txs.drop_first(), picks.drop_first())
    } else {
        picked_bytes(txs.drop_first(), picks.drop_first())
    }
}

/// The gas limits of the wrappers that are picked, added up.
pub open spec fn picked_gas(txs: Seq<CandidateTransaction>, picks: Seq<bool>) -> nat
    decreases txs.len(),
{
    if txs.len() == 0 || picks.len() == 0 {
        0
    } else {
        let gas: nat = match txs[0].decoded {
            Some(tx) => match tx.tx_type {
                crate::tx::TxType::Wrapper(wrapper) => wrapper.gas_limit as nat,
                _ => 0,
            },
            None => 0,
        };
        if picks[0] {
            gas + picked_gas(txs.drop_first(), picks.drop_first())
        } else {
            picked_gas(txs.drop_first(), picks.drop_first())
        }
    }
}

/// Where nothing is picked, there are no bytes and there is no gas.
pub proof fn nothing_picked(txs: Seq<CandidateTransaction>, n: nat)
    ensures
        picked_bytes(txs, Seq::new(n, |i: int| false)).len() == 0,
        picked_gas(txs, Seq::new(n, |i: int| false)) == 0,
    decreases txs.len(),
{
    if txs.len() > 0 && n > 0 {
        let none = Seq::new(n, |i: int| false);
        assert(none.drop_first() =~= Seq::new((n - 1) as nat, |i: int| false));
        nothing_picked(txs.drop_first(), (n - 1) as nat);
    }
}

/// A scan says of every candidate whether it is taken; what it takes are
/// the bytes of the candidates picked, in their order; and the gas bin is
/// charged the gas limits of exactly those.
pub proof fn normal_batch_takes_the_picked(
    ledger: Ledger,
    bins: NormalTxsBins,
    txs: Seq<CandidateTransaction>,
    env: AdmissionEnv,
)
    requires
        bins.wf(),
    ensures
        normal_picks(ledger, bins, txs, env).len() == txs.len(),
        normal_batch(ledger, bins, txs, env).taken == picked_bytes(
            txs,
            normal_picks(ledger, bins, txs, env),
        ),
        normal_batch(ledger, bins, txs, env).bins.gas.budget.consumed
            == bins.gas.budget.consumed + picked_gas(txs, normal_picks(ledger, bins, txs, env)),
        normal_batch(ledger, bins, txs, env).bins.wf(),
    decreases txs.len(),
{
    if txs.len() > 0 {
        let size = txs[0].bytes@.len() as u64;
        let tail = txs.drop_first();
        let picks = normal_picks(ledger, bins, txs, env);
        match admission(ledger, txs[0], env) {
            Err(_) => {
                normal_batch_takes_the_picked(ledger, bins, tail, env);
                assert(picks.drop_first() =~= normal_picks(ledger, bins, tail, env));
            },
            Ok(admitted) => {
                match bins.outcome(size, admitted.gas_limit) {
                    Ok(()) => {
                        let after = bins.after(size, admitted.gas_limit);
                        normal_batch_takes_the_picked(admitted.ledger, after, tail, env);
                        assert(picks.drop_first() =~= normal_picks(
                            admitted.ledger,
                            after,
                            tail,
                            env,
                        ));
                    },
                    Err(AllocFailure::OverflowsBin { .. }) => {
                        normal_batch_takes_the_picked(admitted.ledger, bins, tail, env);
                        assert(picks.drop_first() =~= normal_picks(
                            admitted.ledger,
                            bins,
                            tail,
                            env,
                        ));
                    },
                    Err(AllocFailure::Rejected { .. }) => {
                        nothing_picked(txs, txs.len());
                        assert(picked_bytes(txs, picks) =~= Seq::<Seq<u8>>::empty());
                    },
                }
            },
        }
    }
}

/// A wrapper whose hash is recorded when the scan begins is never taken,
/// whatever fee it offers and wherever it stands among the candidates.
pub proof fn replayed_is_never_picked(
    ledger: Ledger,
    bins: NormalTxsBins,
    txs: Seq<CandidateTransaction>,
    env: AdmissionEnv,
    k: int,
)
    requires
        0 <= k < txs.len(),
        txs[k].decoded is Some,
        ledger.hashes.contains(txs[k].decoded.unwrap().header_hash@),
    ensures
        normal_picks(ledger, bins, txs, env).len() == txs.len(),
        !normal_picks(ledger, bins, txs, env)[k],
    decreases txs.len(),
{
    let size = txs[0].bytes@.len() as u64;
    let tail = txs.drop_first();
    picks_are_as_many(ledger, bins, txs, env);
    match admission(ledger, txs[0], env) {
        Err(_) => {
            if k > 0 {
                assert(tail[k - 1] == txs[k]);
                replayed_is_never_picked(ledger, bins, tail, env, k - 1);
            }
        },
        Ok(admitted) => {
            crate::admission::admission_records_hash(ledger, txs[0], env);
            if k > 0 {
                assert(tail[k - 1] == txs[k]);
                replayed_is_never_picked(admitted.ledger, bins, tail, env, k - 1);
                replayed_is_never_picked(
                    admitted.ledger,
                    bins.after(size, admitted.gas_limit),
                    tail,
                    env,
                    k - 1,
                );
            }
        },
    }
}

/// A scan says of every candidate whether it is taken.
pub proof fn picks_are_as_many(
    ledger: Ledger,
    bins: NormalTxsBins,
    txs: Seq<CandidateTransaction>,
    env: AdmissionEnv,
)
    ensures
        normal_picks(ledger, bins, txs, env).len() == txs.len(),
    decreases txs.len(),
{
    if txs.len() > 0 {
        let size = txs[0].bytes@.len() as u64;
        match admission(ledger, txs[0], env) {
            Err(_) => {
                picks_are_as_many(ledger, bins, txs.drop_first(), env);
            },
            Ok(admitted) => {
                picks_are_as_many(admitted.ledger, bins, txs.drop_first(), env);
                picks_are_as_many(
                    admitted.ledger,
                    bins.after(size, admitted.gas_limit),
                    txs.drop_first(),
                    env,
                );
            },
        }
    }
}

/// What a scan takes are decodable wrappers, and no two of them have the
/// same hash: of candidates that are the same wrapper, only the first can
/// be taken.
pub proof fn picked_wrappers_differ(
    ledger: Ledger,
    bins: NormalTxsBins,
    txs: Seq<CandidateTransaction>,
    env: AdmissionEnv,
    i: int,
    j: int,
)
    requires
        0 <= i < j < txs.len(),
        normal_picks(ledger, bins, txs, env)[i],
        normal_picks(ledger, bins, txs, env)[j],
    ensures
        txs[i].decoded is Some,
        txs[j].decoded is Some,
        txs[i].decoded.unwrap().header_hash@ != txs[j].decoded.unwrap().header_hash@,
        txs[i] != txs[j],
    decreases txs.len(),
{
    let size = txs[0].bytes@.len() as u64;
    let tail = txs.drop_first();
    picks_are_as_many(ledger, bins, txs, env);
    assert(tail[i - 1] == txs[i] || i == 0);
    assert(tail[j - 1] == txs[j]);
    match admission(ledger, txs[0], env) {
        Err(_) => {
            picks_are_as_many(ledger, bins, tail, env);
            picked_wrappers_differ(ledger, bins, tail, env, i - 1, j - 1);
        },
        Ok(admitted) => {
            crate::admission::admission_records_hash(ledger, txs[0], env);
            match bins.outcome(size, admitted.gas_limit) {
                Ok(()) => {
                    let after = bins.after(size, admitted.gas_limit);
                    picks_are_as_many(admitted.ledger, after, tail, env);
                    if i == 0 {
                        picked_is_admitted(admitted.ledger, after, tail, env, j - 1);
                        if txs[j].decoded.unwrap().header_hash@
                            == txs[0].decoded.unwrap().header_hash@ {
                            replayed_is_never_picked(admitted.ledger, after, tail, env, j - 1);
                        }
                    } else {
                        picked_wrappers_differ(admitted.ledger, after, tail, env, i - 1, j - 1);
                    }
                },
                Err(AllocFailure::OverflowsBin { .. }) => {
                    picks_are_as_many(admitted.ledger, bins, tail, env);
                    picked_wrappers_differ(admitted.ledger, bins, tail, env, i - 1, j - 1);
                },
                Err(AllocFailure::Rejected { .. }) => {},
            }
        },
    }
}

/// What a scan takes was decoded.
pub proof fn picked_is_admitted(
    ledger: Ledger,
    bins: NormalTxsBins,
    txs: Seq<CandidateTransaction>,
    env: AdmissionEnv,
    k: int,
)
    requires
        0 <= k < txs.len(),
        normal_picks(ledger, bins, txs, env)[k],
    ensures
        txs[k].decoded is Some,
        txs[k].decoded.unwrap().valid,
        txs[k].decoded.unwrap().tx_type is Wrapper,
        !crate::admission::is_expired(txs[k].decoded.unwrap().expiration, env.block_time),
        !ledger.hashes.contains(txs[k].decoded.unwrap().header_hash@),
    decreases txs.len(),
{
    let size = txs[0].bytes@.len() as u64;
    let tail = txs.drop_first();
    picks_are_as_many(ledger, bins, txs, env);
    if k > 0 {
        assert(tail[k - 1] == txs[k]);
    }
    match admission(ledger, txs[0], env) {
        Err(_) => {
            picks_are_as_many(ledger, bins, tail, env);
            picked_is_admitted(ledger, bins, tail, env, k - 1);
        },
        Ok(admitted) => {
            crate::admission::admission_records_hash(ledger, txs[0], env);
            match bins.outcome(size, admitted.gas_limit) {
                Ok(()) => {
                    if k > 0 {
                        let after = bins.after(size, admitted.gas_limit);
                        picks_are_as_many(admitted.ledger, after, tail, env);
                        picked_is_admitted(admitted.ledger, after, tail, env, k - 1);
                    }
                },
                Err(AllocFailure::OverflowsBin { .. }) => {
                    picks_are_as_many(admitted.ledger, bins, tail, env);
                    picked_is_admitted(admitted.ledger, bins, tail, env, k - 1);
                },
                Err(AllocFailure::Rejected { .. }) => {},
            }
        },
    }
}

/// The gas limits of the wrappers that a scan takes add up to no more than
/// the gas bin has room for, and their bytes to no more than the space bin
/// has room for.
pub proof fn picked_fit_the_bins(
    ledger: Ledger,
    bins: NormalTxsBins,
    txs: Seq<CandidateTransaction>,
    env: AdmissionEnv,
)
    requires
        bins.wf(),
    ensures
        bins.gas.budget.consumed + picked_gas(txs, normal_picks(ledger, bins, txs, env))
            <= bins.gas.budget.capacity,
        bins.space.budget.consumed + total_len(
            picked_bytes(txs, normal_picks(ledger, bins, txs, env)),
        ) <= bins.space.budget.capacity,
{
    normal_batch_takes_the_picked(ledger, bins, txs, env);
    normal_batch_fills(ledger, bins, txs, env);
}

} // verus!
