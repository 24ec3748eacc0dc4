//! The committed state that proposal construction reads, and the temporary
//! write log that it works in.
//!
//! Writes made for one transaction are pending until they are either
//! committed, which lets the next transaction see them, or dropped. Nothing
//! that is written here ever reaches the committed state itself.

use crate::address::{Address, AddressView};
use crate::token::Amount;
use vstd::prelude::*;

verus! {

/// The balance of one owner in one token.
#[derive(Debug, Clone)]
pub struct BalanceEntry {
    pub token: Address,
    pub owner: Address,
    pub amount: Amount,
}

/// A rate for each of a set of tokens. Where a token occurs twice, the
/// first entry counts.
#[derive(Debug, Clone)]
pub struct TokenRates {
    pub entries: Vec<(Address, Amount)>,
}

/// The rate of `token` among `entries`.
pub open spec fn rate_in(entries: Seq<(Address, Amount)>, token: AddressView) -> Option<Amount>
    decreases entries.len(),
{
    if entries.len() == 0 {
        None
    } else if entries[0].0@ == token {
        Some(entries[0].1)
    } else {
        rate_in(entries.drop_first(), token)
    }
}

impl TokenRates {
    /// No token has a rate.
    pub fn new() -> (r: Self)
        ensures
            r.entries@.len() == 0,
    {
        TokenRates { entries: Vec::new() }
    }

    /// The rate of `token`.
    pub open spec fn rate(&self, token: AddressView) -> Option<Amount> {
        rate_in(self.entries@, token)
    }

    /// Add a rate for `token`. It counts unless the token has one already.
    pub fn insert(&mut self, token: Address, rate: Amount)
        ensures
            final(self).entries@ == old(self).entries@.push((token, rate)),
    {
        self.entries.push((token, rate));
    }

    /// The rate of `token`, if it has one.
    pub fn get(&self, token: &Address) -> (r: Option<Amount>)
        ensures
            r == self.rate(token@),
    {
        let mut i: usize = 0;
        assert(self.entries@.subrange(0, self.entries@.len() as int) =~= self.entries@);
        while i < self.entries.len()
            invariant
                i <= self.entries@.len(),
                rate_in(self.entries@, token@) == rate_in(
                    self.entries@.subrange(i as int, self.entries@.len() as int),
                    token@,
                ),
            decreases self.entries@.len() - i,
        {
            let ghost rest = self.entries@.subrange(i as int, self.entries@.len() as int);
            assert(rest.drop_first() =~= self.entries@.subrange(
                i + 1,
                self.entries@.len() as int,
            ));
            assert(rest[0] == self.entries@[i as int]);
            if self.entries[i].0.equals(token) {
                return Some(self.entries[i].1);
            }
            i = i + 1;
        }
        None
    }
}

/// Balances and replay-protection entries, as one candidate sees them.
pub struct Ledger {
    /// The balance of each owner in each token, keyed by token and owner.
    /// An owner without an entry has nothing.
    pub balances: Map<(AddressView, AddressView), nat>,
    /// The hashes of the transactions that may not be applied again.
    pub hashes: Set<Seq<u8>>,
}

impl Ledger {
    /// What `owner` holds of `token`.
    pub open spec fn balance(self, token: AddressView, owner: AddressView) -> nat {
        if self.balances.contains_key((token, owner)) {
            self.balances[(token, owner)]
        } else {
            0
        }
    }

    /// The ledger with `owner`'s balance of `token` set to `amount`.
    pub open spec fn with_balance(self, token: AddressView, owner: AddressView, amount: nat)
        -> Ledger {
        Ledger { balances: self.balances.insert((token, owner), amount), hashes: self.hashes }
    }

    /// The ledger with `hash` recorded.
    pub open spec fn with_hash(self, hash: Seq<u8>) -> Ledger {
        Ledger { balances: self.balances, hashes: self.hashes.insert(hash) }
    }
}

/// The balances that a log of writes leaves: later writes win.
pub open spec fn balances_of(log: Seq<BalanceEntry>) -> Map<(AddressView, AddressView), nat>
    decreases log.len(),
{
    if log.len() == 0 {
        Map::empty()
    } else {
        balances_of(log.drop_last()).insert(
            (log.last().token@, log.last().owner@),
            log.last().amount.value(),
        )
    }
}

/// The hashes that a log of writes holds.
pub open spec fn hashes_of(log: Seq<crate::hash::Hash>) -> Set<Seq<u8>>
    decreases log.len(),
{
    if log.len() == 0 {
        Set::empty()
    } else {
        hashes_of(log.drop_last()).insert(log.last()@)
    }
}

/// A log followed by another leaves the balances of the first, overwritten
/// by those of the second.
pub proof fn balances_of_concat(a: Seq<BalanceEntry>, b: Seq<BalanceEntry>)
    ensures
        balances_of(a + b) == balances_of(a).union_prefer_right(balances_of(b)),
    decreases b.len(),
{
    if b.len() == 0 {
        assert(a + b =~= a);
        assert(balances_of(a) =~= balances_of(a).union_prefer_right(balances_of(b)));
    } else {
        balances_of_concat(a, b.drop_last());
        assert((a + b).drop_last() =~= a + b.drop_last());
        assert((a + b).last() == b.last());
        assert(balances_of(a + b) =~= balances_of(a).union_prefer_right(balances_of(b)));
    }
}

/// A log followed by another holds the hashes of both.
pub proof fn hashes_of_concat(a: Seq<crate::hash::Hash>, b: Seq<crate::hash::Hash>)
    ensures
        hashes_of(a + b) == hashes_of(a).union(hashes_of(b)),
    decreases b.len(),
{
    if b.len() == 0 {
        assert(a + b =~= a);
        assert(hashes_of(a) =~= hashes_of(a).union(hashes_of(b)));
    } else {
        hashes_of_concat(a, b.drop_last());
        assert((a + b).drop_last() =~= a + b.drop_last());
        assert((a + b).last() == b.last());
        assert(hashes_of(a + b) =~= hashes_of(a).union(hashes_of(b)));
    }
}

/// The latest balance that `log` holds for `owner` in `token`.
fn latest_balance(log: &Vec<BalanceEntry>, token: &Address, owner: &Address) -> (r: Option<Amount>)
    ensures
        r is Some <==> balances_of(log@).contains_key((token@, owner@)),
        r is Some ==> r.unwrap().value() == balances_of(log@)[(token@, owner@)],
{
    let mut i: usize = log.len();
    assert(log@.subrange(0, log@.len() as int) =~= log@);
    while i > 0
        invariant
            i <= log@.len(),
            balances_of(log@).contains_key((token@, owner@)) == balances_of(
                log@.subrange(0, i as int),
            ).contains_key((token@, owner@)),
            balances_of(log@).contains_key((token@, owner@)) ==> balances_of(log@)[(
                token@,
                owner@,
            )] == balances_of(log@.subrange(0, i as int))[(token@, owner@)],
        decreases i,
    {
        let ghost prefix = log@.subrange(0, i as int);
        i = i - 1;
        assert(prefix.drop_last() =~= log@.subrange(0, i as int));
        assert(prefix.last() == log@[i as int]);
        if log[i].token.equals(token) && log[i].owner.equals(owner) {
            return Some(log[i].amount);
        }
    }
    assert(log@.subrange(0, 0) =~= Seq::<BalanceEntry>::empty());
    None
}

/// Whether `log` holds `hash`.
fn holds_hash(log: &Vec<crate::hash::Hash>, hash: &crate::hash::Hash) -> (r: bool)
    ensures
        r == hashes_of(log@).contains(hash@),
{
    let mut i: usize = log.len();
    assert(log@.subrange(0, log@.len() as int) =~= log@);
    while i > 0
        invariant
            i <= log@.len(),
            hashes_of(log@).contains(hash@) == hashes_of(log@.subrange(0, i as int)).contains(
                hash@,
            ),
        decreases i,
    {
        let ghost prefix = log@.subrange(0, i as int);
        i = i - 1;
        assert(prefix.drop_last() =~= log@.subrange(0, i as int));
        assert(prefix.last() == log@[i as int]);
        if log[i].equals(hash) {
            return true;
        }
    }
    assert(log@.subrange(0, 0) =~= Seq::<crate::hash::Hash>::empty());
    false
}

/// What happened before the block being proposed.
#[derive(Debug, Clone, Copy, PartialEq, Eq, Structural)]
pub struct LastBlock {
    /// The height of the last committed block.
    pub height: u64,
}

/// The committed state, as far as proposal construction reads it.
#[derive(Debug, Clone)]
pub struct State {
    /// The last committed block; `None` before the first.
    pub last_block: Option<LastBlock>,
    /// The most bytes that the transactions of one block may have.
    pub max_proposal_bytes: u64,
    /// The most gas that the transactions of one block may declare; `None`
    /// where the parameter is missing from the state.
    pub max_block_gas: Option<u64>,
    /// The least price of a unit of gas, for each token that may pay fees.
    pub minimum_gas_price: TokenRates,
    /// The balances, as a log of writes: later entries win.
    pub balances: Vec<BalanceEntry>,
    /// The hashes of the transactions that were applied.
    pub replay_protection: Vec<crate::hash::Hash>,
}

impl State {
    /// A state before the first block, with the given limits and nothing
    /// else in it.
    pub fn new(max_proposal_bytes: u64, max_block_gas: u64) -> (r: Self)
        ensures
            r.last_block is None,
            r.max_proposal_bytes == max_proposal_bytes,
            r.max_block_gas == Some(max_block_gas),
            r.minimum_gas_price.entries@.len() == 0,
            r.balances@.len() == 0,
            r.replay_protection@.len() == 0,
    {
        State {
            last_block: None,
            max_proposal_bytes,
            max_block_gas: Some(max_block_gas),
            minimum_gas_price: TokenRates::new(),
            balances: Vec::new(),
            replay_protection: Vec::new(),
        }
    }

    /// What the committed state holds.
    pub open spec fn ledger(&self) -> Ledger {
        Ledger {
            balances: balances_of(self.balances@),
            hashes: hashes_of(self.replay_protection@),
        }
    }

    /// Set what `owner` holds of `token`.
    pub fn write_balance(&mut self, token: Address, owner: Address, amount: Amount)
        ensures
            final(self).ledger() == old(self).ledger().with_balance(
                token@,
                owner@,
                amount.value(),
            ),
            final(self).last_block == old(self).last_block,
            final(self).max_proposal_bytes == old(self).max_proposal_bytes,
            final(self).max_block_gas == old(self).max_block_gas,
            final(self).minimum_gas_price == old(self).minimum_gas_price,
    {
        self.balances.push(BalanceEntry { token, owner, amount });
        assert(self.balances@.drop_last() =~= old(self).balances@);
    }

    /// Record the hash of an applied transaction.
    pub fn write_tx_hash(&mut self, hash: crate::hash::Hash)
        ensures
            final(self).ledger() == old(self).ledger().with_hash(hash@),
            final(self).last_block == old(self).last_block,
            final(self).max_proposal_bytes == old(self).max_proposal_bytes,
            final(self).max_block_gas == old(self).max_block_gas,
            final(self).minimum_gas_price == old(self).minimum_gas_price,
    {
        self.replay_protection.push(hash);
        assert(self.replay_protection@.drop_last() =~= old(self).replay_protection@);
    }

    /// Open a temporary write log over this state.
    pub fn with_temp_write_log(&self) -> (r: TempWlState<'_>)
        ensures
            r.state == self,
            r.visible() == self.ledger(),
            r.committed() == self.ledger(),
    {
        let r = TempWlState {
            state: self,
            balances: Vec::new(),
            hashes: Vec::new(),
            pending_balances: Vec::new(),
            pending_hashes: Vec::new(),
        };
        assert(self.balances@ + r.balances@ =~= self.balances@);
        assert(self.balances@ + r.balances@ + r.pending_balances@ =~= self.balances@);
        assert(self.replay_protection@ + r.hashes@ =~= self.replay_protection@);
        assert(self.replay_protection@ + r.hashes@ + r.pending_hashes@
            =~= self.replay_protection@);
        r
    }
}

/// A state with a temporary write log on top of it.
pub struct TempWlState<'a> {
    /// The committed state underneath. It is only read.
    pub state: &'a State,
    /// Balance writes that were committed to the log.
    pub balances: Vec<BalanceEntry>,
    /// Hashes that were committed to the log.
    pub hashes: Vec<crate::hash::Hash>,
    /// Balance writes of the transaction at hand.
    pub pending_balances: Vec<BalanceEntry>,
    /// Hashes written for the transaction at hand.
    pub pending_hashes: Vec<crate::hash::Hash>,
}

impl<'a> TempWlState<'a> {
    /// What a read sees: the state, the committed writes and the pending
    /// ones.
    pub open spec fn visible(&self) -> Ledger {
        Ledger {
            balances: balances_of(self.state.balances@ + self.balances@ + self.pending_balances@),
            hashes: hashes_of(self.state.replay_protection@ + self.hashes@ + self.pending_hashes@),
        }
    }

    /// What a read would see if the pending writes were dropped.
    pub open spec fn committed(&self) -> Ledger {
        Ledger {
            balances: balances_of(self.state.balances@ + self.balances@),
            hashes: hashes_of(self.state.replay_protection@ + self.hashes@),
        }
    }

    /// Fold the pending writes into the log: what is visible stays, and a
    /// later drop no longer takes it away.
    pub fn commit_tx(&mut self)
        ensures
            final(self).state == old(self).state,
            final(self).visible() == old(self).visible(),
            final(self).committed() == old(self).visible(),
    {
        self.balances.append(&mut self.pending_balances);
        self.hashes.append(&mut self.pending_hashes);
        assert(self.state.balances@ + self.balances@ =~= old(self).state.balances@ + old(
            self,
        ).balances@ + old(self).pending_balances@);
        assert(self.state.balances@ + self.balances@ + self.pending_balances@
            =~= self.state.balances@ + self.balances@);
        assert(self.state.replay_protection@ + self.hashes@ =~= old(
            self,
        ).state.replay_protection@ + old(self).hashes@ + old(self).pending_hashes@);
        assert(self.state.replay_protection@ + self.hashes@ + self.pending_hashes@
            =~= self.state.replay_protection@ + self.hashes@);
    }

    /// Discard the pending writes.
    pub fn drop_tx(&mut self)
        ensures
            final(self).state == old(self).state,
            final(self).visible() == old(self).committed(),
            final(self).committed() == old(self).committed(),
    {
        self.pending_balances.clear();
        self.pending_hashes.clear();
        assert(self.state.balances@ + self.balances@ + self.pending_balances@
            =~= self.state.balances@ + self.balances@);
        assert(self.state.replay_protection@ + self.hashes@ + self.pending_hashes@
            =~= self.state.replay_protection@ + self.hashes@);
    }

    /// What `owner` holds of `token`.
    pub fn read_balance(&self, token: &Address, owner: &Address) -> (r: Amount)
        ensures
            r.value() == self.visible().balance(token@, owner@),
    {
        proof {
            balances_of_concat(self.state.balances@ + self.balances@, self.pending_balances@);
            balances_of_concat(self.state.balances@, self.balances@);
        }
        match latest_balance(&self.pending_balances, token, owner) {
            Some(amount) => amount,
            None => match latest_balance(&self.balances, token, owner) {
                Some(amount) => amount,
                None => match latest_balance(&self.state.balances, token, owner) {
                    Some(amount) => amount,
                    None => Amount::zero(),
                },
            },
        }
    }

    /// Set what `owner` holds of `token`, as a pending write.
    pub fn write_balance(&mut self, token: Address, owner: Address, amount: Amount)
        ensures
            final(self).state == old(self).state,
            final(self).visible() == old(self).visible().with_balance(
                token@,
                owner@,
                amount.value(),
            ),
            final(self).committed() == old(self).committed(),
    {
        self.pending_balances.push(BalanceEntry { token, owner, amount });
        assert((self.state.balances@ + self.balances@ + self.pending_balances@).drop_last() =~= old(
            self,
        ).state.balances@ + old(self).balances@ + old(self).pending_balances@);
    }

    /// Whether `hash` is recorded.
    pub fn has_replay_protection_entry(&self, hash: &crate::hash::Hash) -> (r: bool)
        ensures
            r == self.visible().hashes.contains(hash@),
    {
        proof {
            hashes_of_concat(self.state.replay_protection@ + self.hashes@, self.pending_hashes@);
            hashes_of_concat(self.state.replay_protection@, self.hashes@);
        }
        holds_hash(&self.pending_hashes, hash) || holds_hash(&self.hashes, hash) || holds_hash(
            &self.state.replay_protection,
            hash,
        )
    }

    /// Record `hash`, as a pending write.
    pub fn write_tx_hash(&mut self, hash: crate::hash::Hash)
        ensures
            final(self).state == old(self).state,
            final(self).visible() == old(self).visible().with_hash(hash@),
            final(self).committed() == old(self).committed(),
    {
        self.pending_hashes.push(hash);
        assert((self.state.replay_protection@ + self.hashes@ + self.pending_hashes@).drop_last()
            =~= old(self).state.replay_protection@ + old(self).hashes@ + old(
            self,
        ).pending_hashes@);
    }
}

} // verus!
