//! What validity predicates work out about a transaction from its data.

use crate::token::Transfer;
use vstd::prelude::*;

verus! {

/// A message of the inter-blockchain protocol, as far as the transfer that
/// it may carry.
#[derive(Debug, Clone)]
pub enum IbcMessage {
    /// A transfer of tokens.
    Transfer(Option<Transfer>),
    /// A transfer of a non-fungible token.
    NftTransfer(Option<Transfer>),
    /// A packet that was received.
    RecvPacket(Option<Transfer>),
    /// An acknowledgement.
    AckPacket(Option<Transfer>),
    /// A timeout.
    Timeout(Option<Transfer>),
    /// Any other message.
    Envelope,
}

/// What decoding the data of a transaction gave.
#[derive(Debug, Clone)]
pub enum TxData {
    /// The data is a transfer.
    Transfer(Transfer),
    /// The data is no transfer, but a message.
    Ibc(IbcMessage),
    /// The data is neither.
    Unknown,
}

/// A section of a transaction.
#[derive(Debug, Clone, Copy)]
pub struct Section {
    /// The hash of the section.
    pub hash: crate::hash::Hash,
    /// Whether the section holds a shielded transaction.
    pub is_masp_tx: bool,
}

/// Why no shielded action was found.
#[derive(Debug, Clone, Copy, PartialEq, Eq, Structural)]
pub enum ShieldedActionError {
    /// The transaction has no data.
    NoTransactionData,
    /// The data is neither a transfer nor a known message.
    UnknownIbcMessage,
    /// The message carries no transfer.
    MissingTransfer,
    /// The transfer names no shielded section.
    NoShieldedHash,
    /// The section that the transfer names is not there, or holds no
    /// shielded transaction.
    NoShieldedSection,
}

/// The transfer that the data of a transaction carries.
pub open spec fn transfer_of(data: Option<TxData>) -> Result<Transfer, ShieldedActionError> {
    match data {
        None => Err(ShieldedActionError::NoTransactionData),
        Some(TxData::Unknown) => Err(ShieldedActionError::UnknownIbcMessage),
        Some(TxData::Transfer(transfer)) => Ok(transfer),
        Some(TxData::Ibc(message)) => match message {
            IbcMessage::Transfer(Some(t))
            | IbcMessage::NftTransfer(Some(t))
            | IbcMessage::RecvPacket(Some(t))
            | IbcMessage::AckPacket(Some(t))
            | IbcMessage::Timeout(Some(t)) => Ok(t),
            _ => Err(ShieldedActionError::MissingTransfer),
        },
    }
}

/// The place of the first section with the given hash.
pub open spec fn section_at(sections: Seq<Section>, hash: Seq<u8>) -> Option<int>
    decreases sections.len(),
{
    if sections.len() == 0 {
        None
    } else if sections[0].hash@ == hash {
        Some(0)
    } else {
        match section_at(sections.drop_first(), hash) {
            Some(i) => Some(i + 1),
            None => None,
        }
    }
}

/// The place of the shielded section of a transaction: the first section
/// with the hash that the transfer in the data names, which must hold a
/// shielded transaction.
pub open spec fn shielded_action(data: Option<TxData>, sections: Seq<Section>) -> Result<
    int,
    ShieldedActionError,
> {
    match transfer_of(data) {
        Err(e) => Err(e),
        Ok(transfer) => match transfer.shielded {
            None => Err(ShieldedActionError::NoShieldedHash),
            Some(hash) => match section_at(sections, hash@) {
                None => Err(ShieldedActionError::NoShieldedSection),
                Some(i) => if sections[i].is_masp_tx {
                    Ok(i)
                } else {
                    Err(ShieldedActionError::NoShieldedSection)
                },
            },
        },
    }
}

/// The place of the first section with the given hash.
pub fn get_section(sections: &Vec<Section>, hash: &crate::hash::Hash) -> (r: Option<usize>)
    ensures
        r is Some <==> section_at(sections@, hash@) is Some,
        r is Some ==> r.unwrap() == section_at(sections@, hash@).unwrap() && r.unwrap()
            < sections@.len(),
{
    let mut i: usize = 0;
    assert(sections@.subrange(0, sections@.len() as int) =~= sections@);
    while i < sections.len()
        invariant
            i <= sections@.len(),
            section_at(sections@, hash@) == (match section_at(
                sections@.subrange(i as int, sections@.len() as int),
                hash@,
            ) {
                Some(k) => Some(k + i),
                None => None,
            }),
        decreases sections@.len() - i,
    {
        let ghost rest = sections@.subrange(i as int, sections@.len() as int);
        assert(rest[0] == sections@[i as int]);
        assert(rest.drop_first() =~= sections@.subrange(i + 1, sections@.len() as int));
        if sections[i].hash.equals(hash) {
            return Some(i);
        }
        i = i + 1;
    }
    None
}

/// Get the place of the shielded section of a transaction.
pub fn get_shielded_action(data: Option<&TxData>, sections: &Vec<Section>) -> (r: Result<
    usize,
    ShieldedActionError,
>)
    ensures
        match shielded_action(
            match data {
                Some(d) => Some(*d),
                None => None,
            },
            sections@,
        ) {
            Ok(i) => r == Ok::<usize, ShieldedActionError>(i as usize) && i < sections@.len(),
            Err(e) => r == Err::<usize, ShieldedActionError>(e),
        },
{
    let data = match data {
        Some(data) => data,
        None => {
            return Err(ShieldedActionError::NoTransactionData);
        },
    };
    let transfer = match data {
        TxData::Transfer(transfer) => Some(transfer),
        TxData::Ibc(message) => match message {
            IbcMessage::Transfer(t) => t.as_ref(),
            IbcMessage::NftTransfer(t) => t.as_ref(),
            IbcMessage::RecvPacket(t) => t.as_ref(),
            IbcMessage::AckPacket(t) => t.as_ref(),
            IbcMessage::Timeout(t) => t.as_ref(),
            IbcMessage::Envelope => None,
        },
        TxData::Unknown => {
            return Err(ShieldedActionError::UnknownIbcMessage);
        },
    };
    let transfer = match transfer {
        Some(transfer) => transfer,
        None => {
            return Err(ShieldedActionError::MissingTransfer);
        },
    };
    let shielded_hash = match &transfer.shielded {
        Some(hash) => hash,
        None => {
            return Err(ShieldedActionError::NoShieldedHash);
        },
    };
    match get_section(sections, shielded_hash) {
        Some(i) => {
            if sections[i].is_masp_tx {
                Ok(i)
            } else {
                Err(ShieldedActionError::NoShieldedSection)
            }
        },
        None => Err(ShieldedActionError::NoShieldedSection),
    }
}

} // verus!
