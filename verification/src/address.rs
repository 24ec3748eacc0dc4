//! Account addresses.

use vstd::prelude::*;
use vstd::string::StringExecFns;

verus! {

/// Accounts that belong to the ledger itself.
#[derive(Debug, Clone, Copy, PartialEq, Eq, Hash, Structural)]
pub enum InternalAddress {
    /// Proof of stake.
    PoS,
    /// Protocol parameters.
    Parameters,
    /// Governance.
    Governance,
    /// The multitoken account.
    Multitoken,
    /// Public goods funding.
    Pgf,
    /// The shielded pool.
    Masp,
}

/// An account address. Addresses that users create are held by their
/// encoded text.
#[derive(Debug, Clone, PartialEq, Eq, Hash)]
pub enum Address {
    /// An account created by a transaction.
    Established(String),
    /// An account derived from a public key.
    Implicit(String),
    /// An account of the ledger itself.
    Internal(InternalAddress),
}

/// What an [`Address`] stands for.
pub enum AddressView {
    Established(Seq<char>),
    Implicit(Seq<char>),
    Internal(InternalAddress),
}

impl View for Address {
    type V = AddressView;

    open spec fn view(&self) -> AddressView {
        match self {
            Address::Established(s) => AddressView::Established(s@),
            Address::Implicit(s) => AddressView::Implicit(s@),
            Address::Internal(a) => AddressView::Internal(*a),
        }
    }
}

/// The text that names an internal account.
pub open spec fn internal_name(a: InternalAddress) -> Seq<char> {
    match a {
        InternalAddress::PoS => "PoS"@,
        InternalAddress::Parameters => "Parameters"@,
        InternalAddress::Governance => "Governance"@,
        InternalAddress::Multitoken => "Multitoken"@,
        InternalAddress::Pgf => "Pgf"@,
        InternalAddress::Masp => "Masp"@,
    }
}

/// The text of an address.
pub open spec fn encoded(a: AddressView) -> Seq<char> {
    match a {
        AddressView::Established(s) => s,
        AddressView::Implicit(s) => s,
        AddressView::Internal(i) => internal_name(i),
    }
}

impl InternalAddress {
    /// The text that names the account.
    pub fn name(&self) -> (r: &'static str)
        ensures
            r@ == internal_name(*self),
    {
        match self {
            InternalAddress::PoS => "PoS",
            InternalAddress::Parameters => "Parameters",
            InternalAddress::Governance => "Governance",
            InternalAddress::Multitoken => "Multitoken",
            InternalAddress::Pgf => "Pgf",
            InternalAddress::Masp => "Masp",
        }
    }
}

impl Address {
    /// Whether both are the same address.
    pub fn equals(&self, other: &Address) -> (r: bool)
        ensures
            r == (self@ == other@),
    {
        match (self, other) {
            (Address::Established(a), Address::Established(b)) => *a == *b,
            (Address::Implicit(a), Address::Implicit(b)) => *a == *b,
            (Address::Internal(a), Address::Internal(b)) => *a == *b,
            _ => false,
        }
    }

    /// The text of the address.
    pub fn encode(&self) -> (r: String)
        ensures
            r@ == encoded(self@),
    {
        match self {
            Address::Established(s) => s.clone(),
            Address::Implicit(s) => s.clone(),
            Address::Internal(a) => String::from_str(a.name()),
        }
    }

    /// A copy of the address.
    pub fn duplicate(&self) -> (r: Address)
        ensures
            r@ == self@,
    {
        match self {
            Address::Established(s) => Address::Established(s.clone()),
            Address::Implicit(s) => Address::Implicit(s.clone()),
            Address::Internal(a) => Address::Internal(*a),
        }
    }
}

/// The address of the shielded pool.
pub fn masp() -> (r: Address)
    ensures
        r@ == AddressView::Internal(InternalAddress::Masp),
{
    Address::Internal(InternalAddress::Masp)
}

/// Whether `address` is among `addresses`.
pub open spec fn holds(addresses: Seq<Address>, address: AddressView) -> bool {
    exists|i: int| 0 <= i < addresses.len() && (#[trigger] addresses[i])@ == address
}

/// Whether `address` is among `addresses`.
pub fn contains(addresses: &Vec<Address>, address: &Address) -> (r: bool)
    ensures
        r == holds(addresses@, address@),
{
    let mut i: usize = 0;
    while i < addresses.len()
        invariant
            i <= addresses@.len(),
            forall|k: int| 0 <= k < i ==> (#[trigger] addresses@[k])@ != address@,
        decreases addresses@.len() - i,
    {
        if addresses[i].equals(address) {
            return true;
        }
        i = i + 1;
    }
    false
}

} // verus!
