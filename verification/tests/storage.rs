use ledger_core::address::{masp, Address, InternalAddress};
use ledger_core::storage::{starts_with, DbKeySeg, Key};
use ledger_core::token::{
    balance_key, balance_prefix, denom_key, is_any_multitoken_balance_key,
    is_any_token_balance_key, is_any_token_or_multitoken_balance_key, is_balance_key,
    is_denom_key, is_masp_key, is_multitoken_balance_key, is_total_supply_key,
    multitoken_balance_key, multitoken_balance_owner, multitoken_balance_prefix,
    total_supply_key, Amount, TokenAddress,
};

fn nam() -> Address {
    Address::Established(String::from("nam"))
}

fn btc() -> Address {
    Address::Established(String::from("btc"))
}

fn albert() -> Address {
    Address::Implicit(String::from("albert"))
}

fn seg(text: &str) -> DbKeySeg {
    DbKeySeg::StringSeg(String::from(text))
}

fn key(segments: Vec<DbKeySeg>) -> Key {
    Key { segments }
}

#[test]
fn balance_keys_are_token_balance_owner() {
    let k = balance_key(&nam(), &albert());
    assert_eq!(k.to_string(), "#nam/balance/#albert");
    assert_eq!(k, key(vec![nam().to_db_key(), seg("balance"), albert().to_db_key()]));
    assert_eq!(is_balance_key(&nam(), &k), Some(&albert()));
    assert_eq!(is_balance_key(&btc(), &k), None);
    assert_eq!(is_any_token_balance_key(&k), Some([&nam(), &albert()]));
    assert_eq!(is_any_token_or_multitoken_balance_key(&k), Some([&nam(), &albert()]));
    assert_eq!(is_any_multitoken_balance_key(&k), None);

    let prefix = balance_prefix(&nam());
    assert_eq!(prefix.to_string(), "#nam/balance");
    assert_eq!(is_balance_key(&nam(), &prefix), None);
    assert_eq!(is_any_token_balance_key(&prefix), None);
    let other = key(vec![nam().to_db_key(), seg("balances"), albert().to_db_key()]);
    assert_eq!(is_balance_key(&nam(), &other), None);
    let no_owner = key(vec![nam().to_db_key(), seg("balance"), seg("albert")]);
    assert_eq!(is_any_token_balance_key(&no_owner), None);
    assert_eq!(is_any_token_balance_key(&key(vec![])), None);
}

#[test]
fn multitoken_balance_keys_hold_a_sub_prefix() {
    let sub = key(vec![seg("ibc"), seg("channel-0")]);
    let prefix = multitoken_balance_prefix(&nam(), &sub);
    assert_eq!(prefix.to_string(), "#nam/ibc/channel-0");
    let k = multitoken_balance_key(&prefix, &albert());
    assert_eq!(k.to_string(), "#nam/ibc/channel-0/balance/#albert");
    assert_eq!(multitoken_balance_owner(&k), Some((sub.clone(), &albert())));
    assert_eq!(is_multitoken_balance_key(&nam(), &k), Some((sub.clone(), &albert())));
    assert_eq!(is_multitoken_balance_key(&btc(), &k), None);
    assert_eq!(is_any_multitoken_balance_key(&k), Some((sub, [&nam(), &albert()])));
    assert_eq!(is_any_token_or_multitoken_balance_key(&k), Some([&nam(), &albert()]));
    assert_eq!(is_any_token_balance_key(&k), None);
    // a plain balance key has no sub prefix
    assert_eq!(multitoken_balance_owner(&balance_key(&nam(), &albert())), None);
    let short = key(vec![nam().to_db_key(), seg("x"), seg("balance"), albert().to_db_key()]);
    assert_eq!(multitoken_balance_owner(&short), Some((key(vec![seg("x")]), &albert())));
    let no_token = key(vec![seg("nam"), seg("x"), seg("balance"), albert().to_db_key()]);
    assert_eq!(multitoken_balance_owner(&no_token), Some((key(vec![seg("x")]), &albert())));
    assert_eq!(is_any_multitoken_balance_key(&no_token), None);
    assert_eq!(is_any_token_or_multitoken_balance_key(&no_token), None);
}

#[test]
fn denomination_and_supply_keys() {
    assert_eq!(denom_key(&nam(), None).to_string(), "#nam/denom");
    let sub = key(vec![seg("ibc")]);
    let k = denom_key(&nam(), Some(&sub));
    assert_eq!(k.to_string(), "#nam/ibc/denom");
    assert!(is_denom_key(&nam(), &k));
    assert!(is_denom_key(&nam(), &denom_key(&nam(), None)));
    assert!(!is_denom_key(&btc(), &k));
    assert!(!is_denom_key(&nam(), &balance_prefix(&nam())));
    assert!(!is_denom_key(&nam(), &key(vec![nam().to_db_key()])));
    assert!(!is_denom_key(&nam(), &key(vec![seg("denom")])));

    let k = total_supply_key(&nam());
    assert_eq!(k.to_string(), "#nam/total_supply");
    assert!(is_total_supply_key(&k, &nam()));
    assert!(!is_total_supply_key(&k, &btc()));
    assert!(!is_total_supply_key(&denom_key(&nam(), None), &nam()));
    assert!(!is_total_supply_key(&k.push(seg("x")), &nam()));
}

#[test]
fn keys_of_the_shielded_pool() {
    let pool = |text: &str| key(vec![masp().to_db_key(), seg(text)]);
    assert!(is_masp_key(&pool("head-tx")));
    assert!(is_masp_key(&pool("tx-17")));
    assert!(is_masp_key(&pool("tx-")));
    assert!(is_masp_key(&pool("pin-abc")));
    assert!(!is_masp_key(&pool("head-tx-1")));
    assert!(!is_masp_key(&pool("tx")));
    assert!(!is_masp_key(&pool("conv")));
    assert!(!is_masp_key(&pool("xtx-1")));
    assert!(!is_masp_key(&key(vec![nam().to_db_key(), seg("head-tx")])));
    assert!(!is_masp_key(&key(vec![masp().to_db_key()])));
    assert!(!is_masp_key(&key(vec![masp().to_db_key(), seg("tx-1"), seg("x")])));
    assert!(!is_masp_key(&key(vec![masp().to_db_key(), masp().to_db_key()])));
    assert_eq!(masp(), Address::Internal(InternalAddress::Masp));
    assert_eq!(pool("tx-1").to_string(), "#Masp/tx-1");
    assert!(starts_with("pin-é", "pin-"));
    assert!(starts_with("é-pin", "é"));
    assert!(!starts_with("pi", "pin-"));
    assert!(starts_with("", ""));
}

#[test]
fn token_addresses_are_shown_with_their_sub_prefix() {
    let plain = TokenAddress { address: nam(), sub_prefix: None };
    assert_eq!(plain.format_with_alias("NAM"), "NAM");
    assert_eq!(plain.to_string(), "nam");
    let sub = TokenAddress {
        address: nam(),
        sub_prefix: Some(key(vec![seg("ibc"), albert().to_db_key()])),
    };
    assert_eq!(sub.format_with_alias("NAM"), "NAM/ibc/#albert");
    assert_eq!(sub.to_string(), "nam/ibc/#albert");
    let empty = TokenAddress { address: nam(), sub_prefix: Some(key(vec![])) };
    assert_eq!(empty.format_with_alias("NAM"), "NAM/");
}

#[test]
fn keys_are_joined_and_cut() {
    let a = key(vec![seg("a"), seg("b")]);
    let b = key(vec![seg("c")]);
    assert_eq!(a.join(&b).to_string(), "a/b/c");
    assert_eq!(a.join(&b).sub_key(1, 3).to_string(), "b/c");
    assert_eq!(a.sub_key(1, 1).to_string(), "");
    assert_eq!(Key::from_seg(seg("a")).to_string(), "a");
    assert_eq!(a.duplicate(), a);
    assert!(a.segments[0].equals(&seg("a")));
    assert!(!a.segments[0].equals(&nam().to_db_key()));
    assert!(nam().equals(&nam()) && !nam().equals(&Address::Implicit(String::from("nam"))));
    assert_eq!(Address::Internal(InternalAddress::Pgf).encode(), "Pgf");
    let amount = Amount::from(5).to_db_key();
    assert_eq!(amount.raw().len(), 52);
}
