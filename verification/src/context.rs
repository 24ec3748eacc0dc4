//! Command arguments that are given raw or by an alias of the wallet.

use crate::address::{contains, holds, Address};
use core::marker::PhantomData;
use vstd::prelude::*;
use vstd::string::StringExecFns;

verus! {

/// An extended spending key of the shielded pool, by its encoded text.
#[derive(Debug, Clone, PartialEq, Eq)]
pub struct ExtendedSpendingKey(pub String);

/// An extended viewing key of the shielded pool, by its encoded text.
#[derive(Debug, Clone, PartialEq, Eq)]
pub struct ExtendedViewingKey(pub String);

/// A payment address of the shielded pool, by its encoded text.
#[derive(Debug, Clone, PartialEq, Eq)]
pub struct PaymentAddress(pub String);

/// Where a transfer takes its tokens from.
#[derive(Debug, Clone, PartialEq, Eq)]
pub enum TransferSource {
    Address(Address),
    ExtendedSpendingKey(ExtendedSpendingKey),
}

/// Where a transfer puts its tokens.
#[derive(Debug, Clone, PartialEq, Eq)]
pub enum TransferTarget {
    Address(Address),
    PaymentAddress(PaymentAddress),
}

/// Whose balance is asked for.
#[derive(Debug, Clone, PartialEq, Eq)]
pub enum BalanceOwner {
    Address(Address),
    FullViewingKey(ExtendedViewingKey),
    PaymentAddress(PaymentAddress),
}

/// Argument that can be given raw or found in the [`Context`].
#[derive(Debug)]
pub struct FromContext<T> {
    pub raw: String,
    pub phantom: PhantomData<T>,
}

/// A raw address or an alias of an address that may be found in the wallet.
pub type WalletAddress = FromContext<Address>;

/// A raw extended spending key or an alias of one in the wallet.
pub type WalletSpendingKey = FromContext<ExtendedSpendingKey>;

/// A raw payment address or an alias of one in the wallet.
pub type WalletPaymentAddr = FromContext<PaymentAddress>;

/// A raw address or a raw extended spending key or an alias of either in
/// the wallet.
pub type WalletTransferSource = FromContext<TransferSource>;

/// A raw address or a raw payment address or an alias of either in the
/// wallet.
pub type WalletTransferTarget = FromContext<TransferTarget>;

impl<T> FromContext<T> {
    /// The argument of the given raw text.
    pub fn new(raw: String) -> (r: FromContext<T>)
        ensures
            r.raw == raw,
    {
        FromContext { raw, phantom: PhantomData }
    }
}

impl FromContext<TransferSource> {
    /// Converts this TransferSource argument to an Address. Call this
    /// function only when certain that raw represents an Address.
    pub fn to_address(&self) -> (r: FromContext<Address>)
        ensures
            r.raw@ == self.raw@,
    {
        FromContext { raw: self.raw.clone(), phantom: PhantomData }
    }

    /// Converts this TransferSource argument to an ExtendedSpendingKey.
    /// Call this function only when certain that raw represents an
    /// ExtendedSpendingKey.
    pub fn to_spending_key(&self) -> (r: FromContext<ExtendedSpendingKey>)
        ensures
            r.raw@ == self.raw@,
    {
        FromContext { raw: self.raw.clone(), phantom: PhantomData }
    }
}

impl FromContext<TransferTarget> {
    /// Converts this TransferTarget argument to an Address. Call this
    /// function only when certain that raw represents an Address.
    pub fn to_address(&self) -> (r: FromContext<Address>)
        ensures
            r.raw@ == self.raw@,
    {
        FromContext { raw: self.raw.clone(), phantom: PhantomData }
    }

    /// Converts this TransferTarget argument to a PaymentAddress. Call this
    /// function only when certain that raw represents a PaymentAddress.
    pub fn to_payment_address(&self) -> (r: FromContext<PaymentAddress>)
        ensures
            r.raw@ == self.raw@,
    {
        FromContext { raw: self.raw.clone(), phantom: PhantomData }
    }
}

/// The key that signs a transaction.
#[derive(Debug)]
pub enum TxSigningKey {
    /// Do not sign any transaction.
    Unsigned,
    /// Obtain the key from the wallet, by the address that it belongs to.
    WalletAddress(WalletAddress),
}

/// What the validity predicate of an address is.
#[derive(Debug, Clone, Copy, PartialEq, Eq, Structural)]
pub enum AddressVpType {
    /// The address is a token.
    Token,
}

/// One address of the wallet.
#[derive(Debug, Clone)]
pub struct WalletEntry {
    /// The name that the wallet knows the address by.
    pub alias: String,
    /// The address.
    pub address: Address,
    /// What its validity predicate is, where the wallet knows it.
    pub vp_type: Option<AddressVpType>,
}

/// The addresses that the wallet knows.
#[derive(Debug, Clone)]
pub struct Wallet {
    pub addresses: Vec<WalletEntry>,
}

/// Command execution context.
#[derive(Debug)]
pub struct Context {
    /// The wallet.
    pub wallet: Wallet,
    /// Native token's address.
    pub native_token: Address,
}

/// Whether `address` is a token of the wallet.
pub open spec fn is_token_of(wallet: Seq<WalletEntry>, address: crate::address::AddressView)
    -> bool {
    exists|i: int|
        0 <= i < wallet.len() && (#[trigger] wallet[i]).address@ == address && wallet[i].vp_type
            == Some(AddressVpType::Token)
}

impl Context {
    /// Get the addresses that are tokens, each once, in the order of the
    /// wallet.
    pub fn tokens(&self) -> (r: Vec<Address>)
        ensures
            forall|a: crate::address::AddressView|
                holds(r@, a) <==> is_token_of(self.wallet.addresses@, a),
            forall|i: int, j: int| 0 <= i < j < r@.len() ==> r@[i]@ != r@[j]@,
    {
        let mut found: Vec<Address> = Vec::new();
        let mut i: usize = 0;
        let entries = &self.wallet.addresses;
        while i < entries.len()
            invariant
                i <= entries@.len(),
                forall|a: crate::address::AddressView| #[trigger]
                    holds(found@, a) <==> is_token_of(entries@.subrange(0, i as int), a),
                forall|x: int, y: int| 0 <= x < y < found@.len() ==> found@[x]@ != found@[y]@,
            decreases entries@.len() - i,
        {
            let ghost before = found@;
            let ghost seen = entries@.subrange(0, i as int);
            let ghost next = entries@.subrange(0, i + 1);
            let entry = &entries[i];
            let is_token = match entry.vp_type {
                Some(AddressVpType::Token) => true,
                None => false,
            };
            let known = contains(&found, &entry.address);
            if is_token && !known {
                found.push(entry.address.duplicate());
            }
            proof {
                assert forall|a: crate::address::AddressView| #[trigger]
                    holds(found@, a) <==> is_token_of(next, a) by {
                    assert(holds(before, a) <==> is_token_of(seen, a));
                    if holds(found@, a) {
                        let k = choose|k: int| 0 <= k < found@.len() && (#[trigger] found@[k])@ == a;
                        if k < before.len() {
                            assert(found@[k] == before[k]);
                            assert(before[k]@ == a);
                            assert(holds(before, a));
                            let w = choose|w: int|
                                0 <= w < seen.len() && (#[trigger] seen[w]).address@ == a
                                    && seen[w].vp_type == Some(AddressVpType::Token);
                            assert(next[w] == seen[w]);
                            assert(is_token_of(next, a));
                        } else {
                            assert(is_token && !known);
                            assert(k == before.len());
                            assert(found@[k]@ == entry.address@);
                            assert(entry.vp_type == Some(AddressVpType::Token));
                            assert(next[i as int] == entries@[i as int]);
                            assert(next[i as int].address@ == a);
                            assert(is_token_of(next, a));
                        }
                    }
                    if is_token_of(next, a) {
                        let w = choose|w: int|
                            0 <= w < next.len() && (#[trigger] next[w]).address@ == a
                                && next[w].vp_type == Some(AddressVpType::Token);
                        if w < i {
                            assert(seen[w] == next[w]);
                            assert(is_token_of(seen, a));
                            let k = choose|k: int|
                                0 <= k < before.len() && (#[trigger] before[k])@ == a;
                            assert(found@[k] == before[k]);
                            assert(holds(found@, a));
                        } else if known {
                            assert(next[w] == entries@[i as int]);
                            assert(a == entry.address@);
                            assert(holds(before, a));
                            let k = choose|k: int|
                                0 <= k < before.len() && (#[trigger] before[k])@ == a;
                            assert(found@[k] == before[k]);
                            assert(holds(found@, a));
                        } else {
                            assert(next[w] == entries@[i as int]);
                            assert(is_token);
                            assert(found@[before.len() as int]@ == a);
                            assert(holds(found@, a));
                        }
                    }
                }
                if is_token && !known {
                    assert forall|x: int, y: int| 0 <= x < y < found@.len() implies found@[x]@
                        != found@[y]@ by {
                        if y == before.len() {
                            assert(found@[x] == before[x]);
                            if before[x]@ == entry.address@ {
                                assert(holds(before, entry.address@));
                            }
                        } else {
                            assert(found@[x] == before[x] && found@[y] == before[y]);
                        }
                    }
                }
            }
            i = i + 1;
        }
        assert(entries@.subrange(0, entries@.len() as int) =~= entries@);
        found
    }

    /// Convert a raw string to a context-address.
    pub fn to_context_address(&self, address: String) -> (r: WalletAddress)
        ensures
            r.raw == address,
    {
        WalletAddress::new(address)
    }

    /// Compute the default signing keys.
    pub fn default_signing_keys(&self, signer: Option<WalletAddress>) -> (r: Vec<TxSigningKey>)
        ensures
            r@.len() == 1,
            match signer {
                Some(s) => r@[0] == TxSigningKey::WalletAddress(s),
                None => r@[0] is Unsigned,
            },
    {
        let mut keys: Vec<TxSigningKey> = Vec::new();
        if let Some(signer) = signer {
            keys.push(TxSigningKey::WalletAddress(signer));
        } else {
            keys.push(TxSigningKey::Unsigned);
        }
        keys
    }

    /// The address that the wallet knows by `alias`: that of the first
    /// entry with the alias.
    pub fn find_address(&self, alias: &str) -> (r: Option<&Address>)
        ensures
            r is Some <==> exists|i: int|
                0 <= i < self.wallet.addresses@.len() && (
                #[trigger] self.wallet.addresses@[i]).alias@ == alias@,
            r is Some ==> exists|i: int|
                0 <= i < self.wallet.addresses@.len() && (
                #[trigger] self.wallet.addresses@[i]).alias@ == alias@ && *r.unwrap()
                    == self.wallet.addresses@[i].address && forall|j: int|
                    0 <= j < i ==> (#[trigger] self.wallet.addresses@[j]).alias@ != alias@,
    {
        let wanted = String::from_str(alias);
        let mut i: usize = 0;
        while i < self.wallet.addresses.len()
            invariant
                i <= self.wallet.addresses@.len(),
                wanted@ == alias@,
                forall|j: int| 0 <= j < i ==> (#[trigger] self.wallet.addresses@[j]).alias@ != alias@,
            decreases self.wallet.addresses@.len() - i,
        {
            if self.wallet.addresses[i].alias == wanted {
                return Some(&self.wallet.addresses[i].address);
            }
            i = i + 1;
        }
        None
    }
}

/// The value of an argument: what its raw text reads as, or else what the
/// wallet knows by that alias.
pub fn raw_or_alias<T>(parsed: Option<T>, known: Option<T>) -> (r: Option<T>)
    ensures
        r == (if parsed is Some {
            parsed
        } else {
            known
        }),
{
    match parsed {
        Some(value) => Some(value),
        None => known,
    }
}

} // verus!
