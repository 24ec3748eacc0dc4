use ledger_core::address::Address;
use ledger_core::context::{
    raw_or_alias, AddressVpType, Context, FromContext, TransferSource, TransferTarget,
    TxSigningKey, Wallet, WalletEntry,
};
use ledger_core::token::{Amount, DenominatedAmount, Transfer};
use ledger_core::vp_env::{
    get_section, get_shielded_action, IbcMessage, Section, ShieldedActionError, TxData,
};

fn hash(tag: u8) -> ledger_core::hash::Hash {
    ledger_core::hash::Hash([tag; 32])
}

fn addr(name: &str) -> Address {
    Address::Established(String::from(name))
}

fn transfer(shielded: Option<u8>) -> Transfer {
    Transfer {
        source: addr("source"),
        target: addr("target"),
        token: addr("nam"),
        sub_prefix: None,
        amount: DenominatedAmount::native(Amount::from(5)),
        key: None,
        shielded: shielded.map(hash),
    }
}

fn sections() -> Vec<Section> {
    vec![
        Section { hash: hash(1), is_masp_tx: false },
        Section { hash: hash(2), is_masp_tx: true },
        Section { hash: hash(3), is_masp_tx: true },
        Section { hash: hash(2), is_masp_tx: false },
    ]
}

#[test]
fn shielded_section_is_found_by_the_hash_in_the_transfer() {
    let data = TxData::Transfer(transfer(Some(2)));
    assert_eq!(get_shielded_action(Some(&data), &sections()), Ok(1));
    let data = TxData::Transfer(transfer(Some(3)));
    assert_eq!(get_shielded_action(Some(&data), &sections()), Ok(2));
    for message in [
        IbcMessage::Transfer(Some(transfer(Some(3)))),
        IbcMessage::NftTransfer(Some(transfer(Some(3)))),
        IbcMessage::RecvPacket(Some(transfer(Some(3)))),
        IbcMessage::AckPacket(Some(transfer(Some(3)))),
        IbcMessage::Timeout(Some(transfer(Some(3)))),
    ] {
        assert_eq!(get_shielded_action(Some(&TxData::Ibc(message)), &sections()), Ok(2));
    }
    assert_eq!(get_section(&sections(), &hash(2)), Some(1));
    assert_eq!(get_section(&sections(), &hash(9)), None);
}

#[test]
fn each_way_to_find_no_shielded_action() {
    let check = |data: Option<&TxData>| get_shielded_action(data, &sections());
    assert_eq!(check(None), Err(ShieldedActionError::NoTransactionData));
    assert_eq!(check(Some(&TxData::Unknown)), Err(ShieldedActionError::UnknownIbcMessage));
    assert_eq!(
        check(Some(&TxData::Ibc(IbcMessage::Envelope))),
        Err(ShieldedActionError::MissingTransfer)
    );
    assert_eq!(
        check(Some(&TxData::Ibc(IbcMessage::Timeout(None)))),
        Err(ShieldedActionError::MissingTransfer)
    );
    assert_eq!(
        check(Some(&TxData::Transfer(transfer(None)))),
        Err(ShieldedActionError::NoShieldedHash)
    );
    assert_eq!(
        check(Some(&TxData::Transfer(transfer(Some(9))))),
        Err(ShieldedActionError::NoShieldedSection)
    );
    // the first section with the hash holds no shielded transaction
    assert_eq!(
        check(Some(&TxData::Transfer(transfer(Some(1))))),
        Err(ShieldedActionError::NoShieldedSection)
    );
    assert_eq!(
        get_shielded_action(Some(&TxData::Transfer(transfer(Some(2)))), &vec![]),
        Err(ShieldedActionError::NoShieldedSection)
    );
}

fn context() -> Context {
    let entry = |alias: &str, name: &str, token: bool| WalletEntry {
        alias: String::from(alias),
        address: addr(name),
        vp_type: if token { Some(AddressVpType::Token) } else { None },
    };
    Context {
        wallet: Wallet {
            addresses: vec![
                entry("nam", "nam-address", true),
                entry("albert", "albert-address", false),
                entry("btc", "btc-address", true),
                entry("NAM", "nam-address", true),
                entry("albert", "other-address", false),
            ],
        },
        native_token: addr("nam-address"),
    }
}

#[test]
fn tokens_of_the_wallet() {
    assert_eq!(context().tokens(), vec![addr("nam-address"), addr("btc-address")]);
    let empty = Context { wallet: Wallet { addresses: vec![] }, native_token: addr("nam") };
    assert!(empty.tokens().is_empty());
}

#[test]
fn arguments_keep_their_raw_text() {
    let ctx = context();
    let arg = ctx.to_context_address(String::from("albert"));
    assert_eq!(arg.raw, "albert");
    let source: FromContext<TransferSource> = FromContext::new(String::from("bertha"));
    assert_eq!(source.to_address().raw, "bertha");
    assert_eq!(source.to_spending_key().raw, "bertha");
    let target: FromContext<TransferTarget> = FromContext::new(String::from("christel"));
    assert_eq!(target.to_address().raw, "christel");
    assert_eq!(target.to_payment_address().raw, "christel");

    let keys = ctx.default_signing_keys(Some(arg));
    assert_eq!(keys.len(), 1);
    assert!(matches!(&keys[0], TxSigningKey::WalletAddress(a) if a.raw == "albert"));
    let keys = ctx.default_signing_keys(None);
    assert_eq!(keys.len(), 1);
    assert!(matches!(keys[0], TxSigningKey::Unsigned));
}

#[test]
fn raw_values_come_before_aliases() {
    let ctx = context();
    assert_eq!(ctx.find_address("albert"), Some(&addr("albert-address")));
    assert_eq!(ctx.find_address("Albert"), None);
    assert_eq!(raw_or_alias(Some(1), Some(2)), Some(1));
    assert_eq!(raw_or_alias(None, Some(2)), Some(2));
    assert_eq!(raw_or_alias(Some(1), None), Some(1));
    assert_eq!(raw_or_alias::<u8>(None, None), None);
    assert_eq!(
        raw_or_alias(None, ctx.find_address("btc").cloned()),
        Some(addr("btc-address"))
    );
}
