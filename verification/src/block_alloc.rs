//! Block space and gas allocation.
//!
//! A proposal is built in three phases. Each phase may only fill the bins
//! that belong to it, and the allocator's type says which phase it is in:
//! moving to the next phase consumes the allocator and yields one typed for
//! that phase.

use core::marker::PhantomData;
use vstd::prelude::*;

verus! {

/// Why a bin refused an item.
#[derive(Debug, Clone, Copy, PartialEq, Eq, Structural)]
pub enum AllocFailure {
    /// The bin has too little room left for the item. Nothing more of this
    /// class should be offered to the bin in this phase.
    Rejected { remaining: u64 },
    /// The item alone is larger than the whole bin. It is skipped; other
    /// items may still fit.
    OverflowsBin { item_size: u64 },
}

/// A consumable quantity tracked against a fixed limit.
#[derive(Debug, Clone, Copy, PartialEq, Eq, Structural)]
pub struct ResourceBudget {
    pub capacity: u64,
    pub consumed: u64,
}

impl ResourceBudget {
    /// Never more is consumed than the budget holds.
    pub open spec fn wf(&self) -> bool {
        self.consumed <= self.capacity
    }

    /// What is still free.
    pub open spec fn remaining(&self) -> int {
        self.capacity - self.consumed
    }

    /// What `try_consume` answers for `amount`.
    pub open spec fn outcome(&self, amount: u64) -> Result<(), AllocFailure> {
        if amount > self.capacity {
            Err(AllocFailure::OverflowsBin { item_size: amount })
        } else if amount <= self.remaining() {
            Ok(())
        } else {
            Err(AllocFailure::Rejected { remaining: self.remaining() as u64 })
        }
    }

    /// The budget after `amount` was offered to it: charged on success,
    /// untouched on failure.
    pub open spec fn after(&self, amount: u64) -> ResourceBudget {
        if self.outcome(amount) is Ok {
            ResourceBudget { capacity: self.capacity, consumed: (self.consumed + amount) as u64 }
        } else {
            *self
        }
    }

    /// The budget after every amount of `amounts` was offered in turn.
    pub open spec fn after_all(&self, amounts: Seq<u64>) -> ResourceBudget
        decreases amounts.len(),
    {
        if amounts.len() == 0 {
            *self
        } else {
            self.after_all(amounts.drop_last()).after(amounts.last())
        }
    }

    /// A fresh budget of the given capacity.
    pub fn new(capacity: u64) -> (r: Self)
        ensures
            r.capacity == capacity,
            r.consumed == 0,
            r.wf(),
    {
        ResourceBudget { capacity, consumed: 0 }
    }

    /// What is still free.
    pub fn resource_left(&self) -> (r: u64)
        requires
            self.wf(),
        ensures
            r == self.remaining(),
    {
        self.capacity - self.consumed
    }

    /// Charge `amount` to the budget, or say why not. A failed call changes
    /// nothing.
    pub fn try_consume(&mut self, amount: u64) -> (r: Result<(), AllocFailure>)
        requires
            old(self).wf(),
        ensures
            r == old(self).outcome(amount),
            *final(self) == old(self).after(amount),
            final(self).wf(),
            r is Err ==> *final(self) == *old(self),
    {
        if amount > self.capacity {
            return Err(AllocFailure::OverflowsBin { item_size: amount });
        }
        let left: u64 = self.capacity - self.consumed;
        if amount <= left {
            self.consumed = self.consumed + amount;
            Ok(())
        } else {
            Err(AllocFailure::Rejected { remaining: left })
        }
    }

    /// Give back `amount` that an earlier `try_consume` had charged.
    pub fn release(&mut self, amount: u64)
        requires
            old(self).wf(),
            amount <= old(self).consumed,
        ensures
            final(self).capacity == old(self).capacity,
            final(self).consumed == old(self).consumed - amount,
            final(self).wf(),
    {
        self.consumed = self.consumed - amount;
    }

    /// Cut the capacity down to what was consumed.
    pub fn shrink_to_fit(&mut self)
        requires
            old(self).wf(),
        ensures
            final(self).capacity == old(self).consumed,
            final(self).consumed == old(self).consumed,
            final(self).wf(),
    {
        self.capacity = self.consumed;
    }
}

/// However many amounts are offered to a well-formed budget, and in whatever
/// order, it stays well-formed and keeps its capacity.
pub proof fn budget_invariant(budget: ResourceBudget, amounts: Seq<u64>)
    requires
        budget.wf(),
    ensures
        budget.after_all(amounts).wf(),
        budget.after_all(amounts).capacity == budget.capacity,
        budget.after_all(amounts).consumed >= budget.consumed,
    decreases amounts.len(),
{
    if amounts.len() > 0 {
        budget_invariant(budget, amounts.drop_last());
    }
}

/// An amount that the budget refuses leaves it exactly as it was.
pub proof fn failed_consume_changes_nothing(budget: ResourceBudget, amount: u64)
    requires
        budget.wf(),
        budget.outcome(amount) is Err,
    ensures
        budget.after(amount) == budget,
{
}

/// What a bin holds.
#[derive(Debug, Clone, Copy, PartialEq, Eq, Structural)]
pub enum BinKind {
    /// The whole block, in bytes.
    BlockSpace,
    /// Bytes set aside for protocol transactions.
    ProtocolTxSpace,
    /// Bytes set aside for normal transactions.
    NormalTxSpace,
    /// Gas that the block's normal transactions may declare.
    Gas,
}

/// A named resource pool: one budget and the kind of resource it counts.
#[derive(Debug, Clone, Copy, PartialEq, Eq, Structural)]
pub struct Bin {
    pub kind: BinKind,
    pub budget: ResourceBudget,
}

impl Bin {
    /// The budget of the bin is not exceeded.
    pub open spec fn wf(&self) -> bool {
        self.budget.wf()
    }

    /// An empty bin of the given kind and capacity.
    pub fn new(kind: BinKind, capacity: u64) -> (r: Self)
        ensures
            r.kind == kind,
            r.budget == (ResourceBudget { capacity, consumed: 0 }),
            r.wf(),
    {
        Bin { kind, budget: ResourceBudget::new(capacity) }
    }

    /// What is still free in the bin.
    pub fn resource_left(&self) -> (r: u64)
        requires
            self.wf(),
        ensures
            r == self.budget.remaining(),
    {
        self.budget.resource_left()
    }

    /// Put `amount` into the bin, or say why not. A failed call changes
    /// nothing, and no call changes the bin's kind or capacity.
    pub fn try_consume(&mut self, amount: u64) -> (r: Result<(), AllocFailure>)
        requires
            old(self).wf(),
        ensures
            r == old(self).budget.outcome(amount),
            final(self).budget == old(self).budget.after(amount),
            final(self).kind == old(self).kind,
            final(self).wf(),
            r is Err ==> *final(self) == *old(self),
    {
        self.budget.try_consume(amount)
    }
}

/// The two bins that a normal transaction must fit at once.
#[derive(Debug, Clone, Copy, PartialEq, Eq, Structural)]
pub struct NormalTxsBins {
    pub space: Bin,
    pub gas: Bin,
}

impl NormalTxsBins {
    /// Neither budget is exceeded.
    pub open spec fn wf(&self) -> bool {
        self.space.wf() && self.gas.wf()
    }

    /// What offering an item of `size` bytes and `gas` gas answers: the
    /// space bin is asked first, the gas bin only if the bytes fit.
    pub open spec fn outcome(&self, size: u64, gas: u64) -> Result<(), AllocFailure> {
        if self.space.budget.outcome(size) is Err {
            self.space.budget.outcome(size)
        } else {
            self.gas.budget.outcome(gas)
        }
    }

    /// The bins after the item was offered: both charged, or neither.
    pub open spec fn after(&self, size: u64, gas: u64) -> NormalTxsBins {
        if self.outcome(size, gas) is Ok {
            NormalTxsBins {
                space: Bin { kind: self.space.kind, budget: self.space.budget.after(size) },
                gas: Bin { kind: self.gas.kind, budget: self.gas.budget.after(gas) },
            }
        } else {
            *self
        }
    }

    /// Charge both bins, or neither. Where the gas bin refuses after the
    /// space bin accepted, the bytes are given back.
    pub fn try_consume(&mut self, size: u64, gas: u64) -> (r: Result<(), AllocFailure>)
        requires
            old(self).wf(),
        ensures
            r == old(self).outcome(size, gas),
            *final(self) == old(self).after(size, gas),
            final(self).wf(),
            r is Err ==> *final(self) == *old(self),
    {
        match self.space.try_consume(size) {
            Err(e) => Err(e),
            Ok(()) => match self.gas.try_consume(gas) {
                Ok(()) => Ok(()),
                Err(e) => {
                    self.space.budget.release(size);
                    Err(e)
                },
            },
        }
    }
}

/// Phase marker: normal transactions are still to come.
#[derive(Debug, Clone, Copy)]
pub struct WithNormalTxs;

/// Phase marker: normal transactions have been dealt with.
#[derive(Debug, Clone, Copy)]
pub struct WithoutNormalTxs;

/// Phase marker: a batch of protocol transactions is being built.
#[derive(Debug)]
pub struct BuildingProtocolTxBatch<Mode> {
    pub _mode: PhantomData<Mode>,
}

/// Phase marker: the batch of normal transactions is being built.
#[derive(Debug, Clone, Copy)]
pub struct BuildingNormalTxBatch;

/// What a normal transaction asks of the block: its bytes and its gas limit.
#[derive(Debug, Clone, Copy)]
pub struct BlockResources<'tx> {
    pub tx: &'tx [u8],
    pub gas: u64,
}

impl<'tx> BlockResources<'tx> {
    /// The resources that a transaction of these bytes and this gas limit
    /// asks for.
    pub fn new(tx: &'tx [u8], gas: u64) -> (r: Self)
        ensures
            r.tx@ == tx@,
            r.gas == gas,
    {
        BlockResources { tx, gas }
    }
}

/// The allocator of block space and gas. `State` is the phase it is in.
///
/// An allocator can only be made by [`BlockAllocator::init`], in the first
/// phase, and only `next_state` leads from one phase to the next: no phase
/// can be skipped or entered again. Every bin is within its budget, and the
/// two byte bins together are never given more than the block holds.
pub struct BlockAllocator<State> {
    _state: PhantomData<State>,
    /// The block as a whole.
    block: Bin,
    /// The protocol transactions of the phase at hand.
    protocol_txs: Bin,
    /// The normal transactions.
    normal_txs: NormalTxsBins,
}

impl<State> BlockAllocator<State> {
    #[verifier::type_invariant]
    spec fn within_the_block(&self) -> bool {
        &&& self.block.wf()
        &&& self.protocol_txs.wf()
        &&& self.normal_txs.wf()
        &&& self.protocol_txs.budget.capacity + self.normal_txs.space.budget.capacity
            <= self.block.budget.capacity
    }

    /// The bin of the block as a whole.
    pub closed spec fn block_bin(&self) -> Bin {
        self.block
    }

    /// The bin of the protocol transactions of the phase at hand.
    pub closed spec fn protocol_bin(&self) -> Bin {
        self.protocol_txs
    }

    /// The bins of the normal transactions.
    pub closed spec fn normal_bins(&self) -> NormalTxsBins {
        self.normal_txs
    }

    /// Block bytes that no bin has been given yet.
    pub open spec fn uninitialized_space(&self) -> int {
        self.block_bin().budget.capacity - (self.protocol_bin().budget.capacity
            + self.normal_bins().space.budget.capacity)
    }

    /// The bin of the block as a whole.
    pub fn block(&self) -> (r: Bin)
        ensures
            r == self.block_bin(),
            r.wf(),
    {
        proof {
            use_type_invariant(self);
        }
        self.block
    }

    /// The bin of the protocol transactions of the phase at hand.
    pub fn protocol_txs(&self) -> (r: Bin)
        ensures
            r == self.protocol_bin(),
            r.wf(),
    {
        proof {
            use_type_invariant(self);
        }
        self.protocol_txs
    }

    /// The bins of the normal transactions.
    pub fn normal_txs(&self) -> (r: NormalTxsBins)
        ensures
            r == self.normal_bins(),
            r.wf(),
    {
        proof {
            use_type_invariant(self);
        }
        self.normal_txs
    }

    /// Block bytes that no bin has been given yet.
    pub fn uninitialized_space_in_bytes(&self) -> (r: u64)
        ensures
            r == self.uninitialized_space(),
            self.uninitialized_space() >= 0,
    {
        proof {
            use_type_invariant(self);
        }
        let total_bin_space: u64 = self.protocol_txs.budget.capacity
            + self.normal_txs.space.budget.capacity;
        self.block.budget.capacity - total_bin_space
    }
}

impl BlockAllocator<BuildingProtocolTxBatch<WithNormalTxs>> {
    /// The allocator of a new proposal, in its first phase: protocol
    /// transactions may take up to half of the block's bytes, normal
    /// transactions have no bytes yet, and the gas bin holds the block's
    /// gas limit.
    pub fn init(max_block_space_in_bytes: u64, max_block_gas: u64) -> (r: Self)
        ensures
            r.block_bin() == (Bin {
                kind: BinKind::BlockSpace,
                budget: ResourceBudget { capacity: max_block_space_in_bytes, consumed: 0 },
            }),
            r.protocol_bin() == (Bin {
                kind: BinKind::ProtocolTxSpace,
                budget: ResourceBudget { capacity: max_block_space_in_bytes / 2, consumed: 0 },
            }),
            r.normal_bins().space == (Bin {
                kind: BinKind::NormalTxSpace,
                budget: ResourceBudget { capacity: 0, consumed: 0 },
            }),
            r.normal_bins().gas == (Bin {
                kind: BinKind::Gas,
                budget: ResourceBudget { capacity: max_block_gas, consumed: 0 },
            }),
    {
        BlockAllocator {
            _state: PhantomData,
            block: Bin::new(BinKind::BlockSpace, max_block_space_in_bytes),
            protocol_txs: Bin::new(BinKind::ProtocolTxSpace, max_block_space_in_bytes / 2),
            normal_txs: NormalTxsBins {
                space: Bin::new(BinKind::NormalTxSpace, 0),
                gas: Bin::new(BinKind::Gas, max_block_gas),
            },
        }
    }

    /// End the first phase. The protocol bin keeps what it used, and all
    /// the bytes that are left go to the normal transactions.
    pub fn next_state(self) -> (r: BlockAllocator<BuildingNormalTxBatch>)
        ensures
            r.block_bin() == self.block_bin(),
            r.protocol_bin().kind == self.protocol_bin().kind,
            r.protocol_bin().budget == (ResourceBudget {
                capacity: self.protocol_bin().budget.consumed,
                consumed: self.protocol_bin().budget.consumed,
            }),
            r.normal_bins().gas == self.normal_bins().gas,
            r.normal_bins().space == (Bin {
                kind: BinKind::NormalTxSpace,
                budget: ResourceBudget {
                    capacity: (self.block_bin().budget.capacity
                        - self.protocol_bin().budget.consumed) as u64,
                    consumed: 0,
                },
            }),
            self.protocol_bin().budget.consumed <= self.block_bin().budget.capacity,
    {
        proof {
            use_type_invariant(&self);
        }
        let mut protocol_txs = self.protocol_txs;
        protocol_txs.budget.shrink_to_fit();
        let remaining: u64 = self.block.budget.capacity - protocol_txs.budget.capacity;
        BlockAllocator {
            _state: PhantomData,
            block: self.block,
            protocol_txs,
            normal_txs: NormalTxsBins {
                space: Bin::new(BinKind::NormalTxSpace, remaining),
                gas: self.normal_txs.gas,
            },
        }
    }
}

impl<Mode> BlockAllocator<BuildingProtocolTxBatch<Mode>> {
    /// Offer a protocol transaction. Only the protocol bin can change.
    pub fn try_alloc(&mut self, tx: &[u8]) -> (r: Result<(), AllocFailure>)
        ensures
            r == old(self).protocol_bin().budget.outcome(tx@.len() as u64),
            final(self).protocol_bin().budget == old(self).protocol_bin().budget.after(
                tx@.len() as u64,
            ),
            final(self).protocol_bin().kind == old(self).protocol_bin().kind,
            final(self).block_bin() == old(self).block_bin(),
            final(self).normal_bins() == old(self).normal_bins(),
            r is Err ==> *final(self) == *old(self),
    {
        proof {
            use_type_invariant(&*self);
        }
        let size: u64 = tx.len() as u64;
        let mut bin = self.protocol_txs;
        let r = bin.try_consume(size);
        self.protocol_txs = bin;
        r
    }
}

impl BlockAllocator<BuildingNormalTxBatch> {
    /// Offer a normal transaction: its bytes and its gas must both fit, or
    /// nothing is charged. Only the normal bins can change.
    pub fn try_alloc(&mut self, resources: BlockResources<'_>) -> (r: Result<(), AllocFailure>)
        ensures
            r == old(self).normal_bins().outcome(resources.tx@.len() as u64, resources.gas),
            final(self).normal_bins() == old(self).normal_bins().after(
                resources.tx@.len() as u64,
                resources.gas,
            ),
            final(self).block_bin() == old(self).block_bin(),
            final(self).protocol_bin() == old(self).protocol_bin(),
            r is Err ==> *final(self) == *old(self),
    {
        proof {
            use_type_invariant(&*self);
        }
        let size: u64 = resources.tx.len() as u64;
        let mut bins = self.normal_txs;
        let r = bins.try_consume(size, resources.gas);
        self.normal_txs = bins;
        r
    }

    /// End the second phase. The normal space bin keeps what it used, and
    /// the bytes that are left go to a fresh protocol bin.
    pub fn next_state(self) -> (r: BlockAllocator<BuildingProtocolTxBatch<WithoutNormalTxs>>)
        ensures
            r.block_bin() == self.block_bin(),
            r.normal_bins().gas == self.normal_bins().gas,
            r.normal_bins().space.kind == self.normal_bins().space.kind,
            r.normal_bins().space.budget == (ResourceBudget {
                capacity: self.normal_bins().space.budget.consumed,
                consumed: self.normal_bins().space.budget.consumed,
            }),
            r.protocol_bin() == (Bin {
                kind: BinKind::ProtocolTxSpace,
                budget: ResourceBudget {
                    capacity: (self.block_bin().budget.capacity
                        - self.protocol_bin().budget.capacity
                        - self.normal_bins().space.budget.consumed) as u64,
                    consumed: 0,
                },
            }),
            self.protocol_bin().budget.capacity + self.normal_bins().space.budget.consumed
                <= self.block_bin().budget.capacity,
    {
        proof {
            use_type_invariant(&self);
        }
        let mut space = self.normal_txs.space;
        space.budget.shrink_to_fit();
        let remaining: u64 = self.block.budget.capacity - (self.protocol_txs.budget.capacity
            + space.budget.capacity);
        BlockAllocator {
            _state: PhantomData,
            block: self.block,
            protocol_txs: Bin::new(BinKind::ProtocolTxSpace, remaining),
            normal_txs: NormalTxsBins { space, gas: self.normal_txs.gas },
        }
    }
}

} // verus!
