use ledger_core::address::{Address, InternalAddress};
use ledger_core::pgf::{
    address, is_fundings_key, is_pgf_key, is_stewards_key, is_valid_parameter_change,
    validate_tx, Action, Error, KeyType, NativeVpError, PgfAction, PgfState, StewardDetail,
};
use ledger_core::storage::{DbKeySeg, Key};

fn steward(name: &str) -> Address {
    Address::Established(String::from(name))
}

fn seg(text: &str) -> DbKeySeg {
    DbKeySeg::StringSeg(String::from(text))
}

fn pgf_key(rest: Vec<DbKeySeg>) -> Key {
    let mut segments = vec![address().to_db_key()];
    segments.extend(rest);
    Key { segments }
}

fn steward_key(name: &str) -> Key {
    pgf_key(vec![seg("stewards"), seg("data"), steward(name).to_db_key()])
}

fn state() -> PgfState {
    PgfState {
        total_stewards_pre: 2,
        total_stewards_post: 2,
        stewards_post: vec![
            StewardDetail { address: steward("good"), valid_reward_distribution: true },
            StewardDetail { address: steward("bad"), valid_reward_distribution: false },
        ],
        proposal_accepted: None,
    }
}

fn refused<'a>(why: NativeVpError<'a>) -> Result<(), Error<'a>> {
    Err(Error::NativeVpError(why))
}

#[test]
fn keys_are_told_apart() {
    assert_eq!(address(), Address::Internal(InternalAddress::Pgf));
    assert_eq!(KeyType::from(&steward_key("a")), KeyType::Stewards(&steward("a")));
    assert_eq!(KeyType::from(&pgf_key(vec![seg("fundings")])), KeyType::Fundings);
    assert_eq!(KeyType::from(&pgf_key(vec![seg("fundings"), seg("x"), seg("y")])), KeyType::Fundings);
    assert_eq!(KeyType::from(&pgf_key(vec![seg("pgf_inflation_rate")])), KeyType::PgfInflationRate);
    assert_eq!(
        KeyType::from(&pgf_key(vec![seg("steward_inflation_rate")])),
        KeyType::StewardInflationRate
    );
    assert_eq!(KeyType::from(&pgf_key(vec![])), KeyType::UnknownPgf);
    assert_eq!(KeyType::from(&pgf_key(vec![seg("stewards")])), KeyType::UnknownPgf);
    assert_eq!(
        KeyType::from(&pgf_key(vec![seg("stewards"), seg("data"), seg("a")])),
        KeyType::UnknownPgf
    );
    assert_eq!(
        KeyType::from(&pgf_key(vec![seg("pgf_inflation_rate"), seg("x")])),
        KeyType::UnknownPgf
    );
    assert_eq!(KeyType::from(&Key { segments: vec![seg("fundings")] }), KeyType::Unknown);
    assert_eq!(KeyType::from(&Key { segments: vec![] }), KeyType::Unknown);
    let other = Key { segments: vec![steward("a").to_db_key(), seg("stewards")] };
    assert_eq!(KeyType::from(&other), KeyType::Unknown);
    assert!(is_pgf_key(&steward_key("a")) && !is_pgf_key(&other));
    assert!(is_fundings_key(&pgf_key(vec![seg("fundings")])));
    assert_eq!(is_stewards_key(&steward_key("a")), Some(&steward("a")));
    assert_eq!(is_stewards_key(&pgf_key(vec![seg("fundings")])), None);
}

#[test]
fn keys_of_the_account_need_an_action() {
    let keys = vec![Key { segments: vec![seg("x")] }, steward_key("good")];
    let verifiers = vec![steward("good")];
    assert_eq!(validate_tx(&vec![], &keys, &verifiers, &state()), refused(NativeVpError::NoActions));
    let actions = vec![Action::Other];
    assert_eq!(validate_tx(&actions, &keys, &verifiers, &state()), Ok(()));
    // keys of other accounts need none
    let keys = vec![Key { segments: vec![seg("x")] }];
    assert_eq!(validate_tx(&vec![], &keys, &vec![], &state()), Ok(()));
    assert_eq!(validate_tx(&vec![], &vec![], &vec![], &state()), Ok(()));
}

#[test]
fn actions_need_the_signature_of_their_steward() {
    let actions = vec![
        Action::Other,
        Action::Pgf(PgfAction::ResignSteward(steward("a"))),
        Action::Pgf(PgfAction::UpdateStewardCommission(steward("b"))),
    ];
    assert_eq!(
        validate_tx(&actions, &vec![], &vec![], &state()),
        Err(Error::Unauthorized("ResignSteward", &steward("a")))
    );
    assert_eq!(
        validate_tx(&actions, &vec![], &vec![steward("a")], &state()),
        Err(Error::Unauthorized("UpdateStewardCommission", &steward("b")))
    );
    assert_eq!(validate_tx(&actions, &vec![], &vec![steward("b"), steward("a")], &state()), Ok(()));
    // actions are looked at before keys
    let keys = vec![pgf_key(vec![seg("fundings")])];
    assert_eq!(
        validate_tx(&actions, &keys, &vec![], &state()),
        Err(Error::Unauthorized("ResignSteward", &steward("a")))
    );
}

#[test]
fn stewards_change_only_their_own_entry() {
    let actions = vec![Action::Other];
    let everyone = vec![steward("good"), steward("bad"), steward("gone")];
    let check = |name: &str, verifiers: &Vec<Address>, state: &PgfState| {
        let keys = vec![steward_key(name)];
        validate_tx(&actions, &keys, verifiers, state).map_err(|e| format!("{:?}", e))
    };
    assert_eq!(check("good", &everyone, &state()), Ok(()));
    // a steward that resigned is no longer there
    assert_eq!(check("gone", &everyone, &state()), Ok(()));
    let err = check("bad", &everyone, &state()).unwrap_err();
    assert!(err.contains("InvalidCommissions"));
    let err = check("good", &vec![steward("bad")], &state()).unwrap_err();
    assert!(err.contains("StewardNotVerified") && err.contains("good"));
    let err = check("gone", &vec![], &state()).unwrap_err();
    assert!(err.contains("StewardNotVerified") && err.contains("gone"));
    let mut more = state();
    more.total_stewards_post = 3;
    let err = check("good", &everyone, &more).unwrap_err();
    assert!(err.contains("StewardsAdded"));
    let mut fewer = state();
    fewer.total_stewards_post = 1;
    assert_eq!(check("good", &everyone, &fewer), Ok(()));
}

#[test]
fn other_keys_of_the_account() {
    let actions = vec![Action::Other];
    let fundings = vec![pgf_key(vec![seg("fundings"), seg("x")])];
    assert_eq!(
        validate_tx(&actions, &fundings, &vec![], &state()),
        refused(NativeVpError::FundingsChanged(&fundings[0]))
    );
    let unknown = vec![pgf_key(vec![seg("anything")])];
    assert_eq!(
        validate_tx(&actions, &unknown, &vec![], &state()),
        refused(NativeVpError::UnknownPgfChange(&unknown[0]))
    );
    // the first refusal in the order of the keys counts
    let both = vec![steward_key("good"), unknown[0].clone(), fundings[0].clone()];
    assert_eq!(
        validate_tx(&actions, &both, &vec![steward("good")], &state()),
        refused(NativeVpError::UnknownPgfChange(&both[1]))
    );
}

#[test]
fn parameters_change_by_accepted_proposals() {
    let actions = vec![Action::Other];
    for name in ["pgf_inflation_rate", "steward_inflation_rate"] {
        let keys = vec![pgf_key(vec![seg(name)])];
        let mut state = state();
        assert_eq!(
            validate_tx(&actions, &keys, &vec![], &state),
            refused(NativeVpError::ParameterChangeWithoutData)
        );
        state.proposal_accepted = Some(false);
        assert_eq!(
            validate_tx(&actions, &keys, &vec![], &state),
            refused(NativeVpError::ParameterChangeNotAccepted)
        );
        assert_eq!(
            is_valid_parameter_change(&state),
            refused(NativeVpError::ParameterChangeNotAccepted)
        );
        state.proposal_accepted = Some(true);
        assert_eq!(validate_tx(&actions, &keys, &vec![], &state), Ok(()));
        assert_eq!(is_valid_parameter_change(&state), Ok(()));
    }
}
