//! The validity predicate of public goods funding: which changes to the
//! keys of the funding account a transaction may make.

use crate::address::{contains, holds, Address, AddressView, InternalAddress};
use crate::storage::{DbKeySeg, DbKeySegView, Key};
use vstd::prelude::*;

verus! {

/// Key segment of the stewards.
pub const STEWARDS_KEY: &'static str = "stewards";

/// Key segment of the fundings.
pub const FUNDINGS_KEY: &'static str = "fundings";

/// Key segment of the inflation rate of the funding account.
pub const PGF_INFLATION_RATE_KEY: &'static str = "pgf_inflation_rate";

/// Key segment of the inflation rate of the stewards.
pub const STEWARD_INFLATION_RATE_KEY: &'static str = "steward_inflation_rate";

/// Key segment under which a map keeps its entries.
pub const DATA_SUBKEY: &'static str = "data";

/// The address of the funding account.
pub fn address() -> (r: Address)
    ensures
        r@ == pgf_address(),
{
    Address::Internal(InternalAddress::Pgf)
}

/// The address of the funding account.
pub open spec fn pgf_address() -> AddressView {
    AddressView::Internal(InternalAddress::Pgf)
}

/// What a transaction says it does to the funding account.
#[derive(Debug, Clone, PartialEq, Eq)]
pub enum PgfAction {
    /// A steward changes how its rewards are shared out.
    UpdateStewardCommission(Address),
    /// A steward resigns.
    ResignSteward(Address),
}

/// What a transaction says it does.
#[derive(Debug, Clone, PartialEq, Eq)]
pub enum Action {
    /// Something to the funding account.
    Pgf(PgfAction),
    /// Something that does not concern the funding account.
    Other,
}

/// Why the predicate refused a transaction, apart from a missing
/// authorisation.
#[derive(Debug, Clone, Copy, PartialEq, Eq)]
pub enum NativeVpError<'a> {
    /// Keys of the account changed, but no action was written.
    NoActions,
    /// There are more stewards than before.
    StewardsAdded,
    /// The steward is not among the verifiers.
    StewardNotVerified(&'a Address),
    /// The steward's rewards are not shared out validly.
    InvalidCommissions,
    /// A key of the fundings changed.
    FundingsChanged(&'a Key),
    /// A key of the account changed that nobody may change.
    UnknownPgfChange(&'a Key),
    /// A parameter changed, and the transaction has no data.
    ParameterChangeWithoutData,
    /// A parameter changed without an accepted proposal.
    ParameterChangeNotAccepted,
}

#[allow(missing_docs)]
#[derive(Debug, Clone, Copy, PartialEq, Eq)]
pub enum Error<'a> {
    /// The predicate refused the transaction.
    NativeVpError(NativeVpError<'a>),
    /// The action is not authorised by the address, which is no verifier.
    Unauthorized(&'static str, &'a Address),
}

/// The kind of a changed key.
#[derive(Debug, Clone, Copy, PartialEq, Eq)]
pub enum KeyType<'a> {
    /// The entry of a steward.
    Stewards(&'a Address),
    /// A key of the fundings.
    Fundings,
    /// The inflation rate of the funding account.
    PgfInflationRate,
    /// The inflation rate of the stewards.
    StewardInflationRate,
    /// Any other key of the funding account.
    UnknownPgf,
    /// A key of another account.
    Unknown,
}

/// Whether the key belongs to the funding account.
pub open spec fn is_pgf(key: Seq<DbKeySegView>) -> bool {
    key.len() > 0 && key[0] == DbKeySegView::AddressSeg(pgf_address())
}

/// Whether the key is the entry of a steward.
pub open spec fn is_stewards(key: Seq<DbKeySegView>) -> bool {
    &&& key.len() == 4
    &&& is_pgf(key)
    &&& key[1] == DbKeySegView::StringSeg(STEWARDS_KEY@)
    &&& key[2] == DbKeySegView::StringSeg(DATA_SUBKEY@)
    &&& key[3] is AddressSeg
}

/// Whether the key is one of the fundings.
pub open spec fn is_fundings(key: Seq<DbKeySegView>) -> bool {
    key.len() >= 2 && is_pgf(key) && key[1] == DbKeySegView::StringSeg(FUNDINGS_KEY@)
}

/// Whether the key is the parameter `name` of the funding account.
pub open spec fn is_parameter(key: Seq<DbKeySegView>, name: Seq<char>) -> bool {
    key.len() == 2 && is_pgf(key) && key[1] == DbKeySegView::StringSeg(name)
}

/// Whether the key belongs to the funding account.
pub fn is_pgf_key(key: &Key) -> (r: bool)
    ensures
        r == is_pgf(key@),
{
    if key.segments.len() == 0 {
        return false;
    }
    assert(key@[0] == key.segments@[0]@);
    match &key.segments[0] {
        DbKeySeg::AddressSeg(addr) => addr.equals(&address()),
        _ => false,
    }
}

/// Whether the key is the entry of a steward; if so, the steward.
pub fn is_stewards_key(key: &Key) -> (r: Option<&Address>)
    ensures
        r is Some <==> is_stewards(key@),
        r is Some ==> key.segments@[3] == DbKeySeg::AddressSeg(*r.unwrap()),
{
    if key.segments.len() != 4 || !is_pgf_key(key) {
        return None;
    }
    assert(key@[1] == key.segments@[1]@ && key@[2] == key.segments@[2]@ && key@[3]
        == key.segments@[3]@);
    match &key.segments[3] {
        DbKeySeg::AddressSeg(steward) => {
            if key.segments[1].is_string(STEWARDS_KEY) && key.segments[2].is_string(DATA_SUBKEY) {
                Some(steward)
            } else {
                None
            }
        },
        _ => None,
    }
}

/// Whether the key is one of the fundings.
pub fn is_fundings_key(key: &Key) -> (r: bool)
    ensures
        r == is_fundings(key@),
{
    if key.segments.len() < 2 || !is_pgf_key(key) {
        return false;
    }
    assert(key@[1] == key.segments@[1]@);
    key.segments[1].is_string(FUNDINGS_KEY)
}

/// Whether the key is the inflation rate of the funding account.
pub fn is_pgf_inflation_rate_key(key: &Key) -> (r: bool)
    ensures
        r == is_parameter(key@, PGF_INFLATION_RATE_KEY@),
{
    if key.segments.len() != 2 || !is_pgf_key(key) {
        return false;
    }
    assert(key@[1] == key.segments@[1]@);
    key.segments[1].is_string(PGF_INFLATION_RATE_KEY)
}

/// Whether the key is the inflation rate of the stewards.
pub fn is_steward_inflation_rate_key(key: &Key) -> (r: bool)
    ensures
        r == is_parameter(key@, STEWARD_INFLATION_RATE_KEY@),
{
    if key.segments.len() != 2 || !is_pgf_key(key) {
        return false;
    }
    assert(key@[1] == key.segments@[1]@);
    key.segments[1].is_string(STEWARD_INFLATION_RATE_KEY)
}

impl<'k> KeyType<'k> {
    /// The kind of a key: the first of the kinds that it fits.
    pub fn from(key: &'k Key) -> (r: Self)
        ensures
            r is Stewards <==> is_stewards(key@),
            r is Stewards ==> key.segments@[3] == DbKeySeg::AddressSeg(*r->Stewards_0),
            r is Fundings <==> !is_stewards(key@) && is_fundings(key@),
            r is PgfInflationRate <==> !is_stewards(key@) && !is_fundings(key@) && is_parameter(
                key@,
                PGF_INFLATION_RATE_KEY@,
            ),
            r is StewardInflationRate <==> !is_stewards(key@) && !is_fundings(key@)
                && !is_parameter(key@, PGF_INFLATION_RATE_KEY@) && is_parameter(
                key@,
                STEWARD_INFLATION_RATE_KEY@,
            ),
            r is Unknown <==> !is_pgf(key@),
    {
        if let Some(addr) = is_stewards_key(key) {
            KeyType::Stewards(addr)
        } else if is_fundings_key(key) {
            KeyType::Fundings
        } else if is_pgf_inflation_rate_key(key) {
            KeyType::PgfInflationRate
        } else if is_steward_inflation_rate_key(key) {
            KeyType::StewardInflationRate
        } else if is_pgf_key(key) {
            KeyType::UnknownPgf
        } else {
            KeyType::Unknown
        }
    }
}

/// What the predicate reads of a steward after the transaction.
#[derive(Debug, Clone)]
pub struct StewardDetail {
    /// The steward.
    pub address: Address,
    /// Whether its rewards are shared out validly.
    pub valid_reward_distribution: bool,
}

/// What the predicate reads of the state before and after the transaction.
#[derive(Debug, Clone)]
pub struct PgfState {
    /// How many stewards there were before.
    pub total_stewards_pre: u64,
    /// How many stewards there are after.
    pub total_stewards_post: u64,
    /// The stewards after the transaction. Where one occurs twice, the
    /// first entry counts.
    pub stewards_post: Vec<StewardDetail>,
    /// Whether the data of the transaction names an accepted proposal;
    /// `None` where the transaction has no data.
    pub proposal_accepted: Option<bool>,
}

/// The entry of `steward` among `stewards`, as a place in the list.
pub open spec fn steward_at(stewards: Seq<StewardDetail>, steward: AddressView) -> Option<int>
    decreases stewards.len(),
{
    if stewards.len() == 0 {
        None
    } else if stewards[0].address@ == steward {
        Some(0)
    } else {
        match steward_at(stewards.drop_first(), steward) {
            Some(i) => Some(i + 1),
            None => None,
        }
    }
}

/// The entry of `steward` among `stewards`.
pub fn get_steward<'a>(stewards: &'a Vec<StewardDetail>, steward: &Address) -> (r: Option<
    &'a StewardDetail,
>)
    ensures
        r is Some <==> steward_at(stewards@, steward@) is Some,
        r is Some ==> 0 <= steward_at(stewards@, steward@).unwrap() < stewards@.len() && *r.unwrap()
            == stewards@[steward_at(stewards@, steward@).unwrap()],
{
    let mut i: usize = 0;
    assert(stewards@.subrange(0, stewards@.len() as int) =~= stewards@);
    while i < stewards.len()
        invariant
            i <= stewards@.len(),
            steward_at(stewards@, steward@) == (match steward_at(
                stewards@.subrange(i as int, stewards@.len() as int),
                steward@,
            ) {
                Some(k) => Some(k + i),
                None => None,
            }),
        decreases stewards@.len() - i,
    {
        let ghost rest = stewards@.subrange(i as int, stewards@.len() as int);
        assert(rest[0] == stewards@[i as int]);
        assert(rest.drop_first() =~= stewards@.subrange(i + 1, stewards@.len() as int));
        if stewards[i].address.equals(steward) {
            return Some(&stewards[i]);
        }
        i = i + 1;
    }
    None
}

/// What the predicate says of a change to the entry of `steward`.
pub open spec fn steward_verdict<'a>(
    steward: &'a Address,
    verifiers: Seq<Address>,
    state: PgfState,
) -> Result<(), Error<'a>> {
    if state.total_stewards_pre < state.total_stewards_post {
        Err(Error::NativeVpError(NativeVpError::StewardsAdded))
    } else if !holds(verifiers, steward@) {
        Err(Error::NativeVpError(NativeVpError::StewardNotVerified(steward)))
    } else {
        match steward_at(state.stewards_post@, steward@) {
            None => Ok(()),
            Some(i) => if state.stewards_post@[i].valid_reward_distribution {
                Ok(())
            } else {
                Err(Error::NativeVpError(NativeVpError::InvalidCommissions))
            },
        }
    }
}

/// What the predicate says of a change of a parameter.
pub open spec fn parameter_verdict<'a>(state: PgfState) -> Result<(), Error<'a>> {
    match state.proposal_accepted {
        None => Err(Error::NativeVpError(NativeVpError::ParameterChangeWithoutData)),
        Some(false) => Err(Error::NativeVpError(NativeVpError::ParameterChangeNotAccepted)),
        Some(true) => Ok(()),
    }
}

/// What the predicate says of the change of one key.
pub open spec fn key_verdict<'a>(key: &'a Key, verifiers: Seq<Address>, state: PgfState) -> Result<
    (),
    Error<'a>,
> {
    if is_stewards(key@) {
        match key.segments@[3] {
            DbKeySeg::AddressSeg(steward) => steward_verdict(&steward, verifiers, state),
            _ => Ok(()),
        }
    } else if is_fundings(key@) {
        Err(Error::NativeVpError(NativeVpError::FundingsChanged(key)))
    } else if is_parameter(key@, PGF_INFLATION_RATE_KEY@) || is_parameter(
        key@,
        STEWARD_INFLATION_RATE_KEY@,
    ) {
        parameter_verdict(state)
    } else if is_pgf(key@) {
        Err(Error::NativeVpError(NativeVpError::UnknownPgfChange(key)))
    } else {
        Ok(())
    }
}

/// The first refusal among the changes of the keys, in their order.
pub open spec fn keys_verdict<'a>(keys: Seq<Key>, verifiers: Seq<Address>, state: PgfState)
    -> Result<(), Error<'a>>
    decreases keys.len(),
{
    if keys.len() == 0 {
        Ok(())
    } else if key_verdict(&keys[0], verifiers, state) is Err {
        key_verdict(&keys[0], verifiers, state)
    } else {
        keys_verdict(keys.drop_first(), verifiers, state)
    }
}

/// What the predicate says of one action: a steward must sign for what it
/// does.
pub open spec fn action_verdict<'a>(action: &'a Action, verifiers: Seq<Address>) -> Result<
    (),
    Error<'a>,
> {
    match action {
        Action::Pgf(PgfAction::UpdateStewardCommission(address)) => if holds(
            verifiers,
            address@,
        ) {
            Ok(())
        } else {
            Err(Error::Unauthorized("UpdateStewardCommission", address))
        },
        Action::Pgf(PgfAction::ResignSteward(address)) => if holds(verifiers, address@) {
            Ok(())
        } else {
            Err(Error::Unauthorized("ResignSteward", address))
        },
        Action::Other => Ok(()),
    }
}

/// The first refusal among the actions, in their order.
pub open spec fn actions_verdict<'a>(actions: Seq<Action>, verifiers: Seq<Address>) -> Result<
    (),
    Error<'a>,
>
    decreases actions.len(),
{
    if actions.len() == 0 {
        Ok(())
    } else if action_verdict(&actions[0], verifiers) is Err {
        action_verdict(&actions[0], verifiers)
    } else {
        actions_verdict(actions.drop_first(), verifiers)
    }
}

/// Whether any of the keys belongs to the funding account.
pub open spec fn any_pgf_key(keys: Seq<Key>) -> bool {
    exists|i: int| 0 <= i < keys.len() && is_pgf((#[trigger] keys[i])@)
}

/// What the predicate says of a transaction: keys of the account may only
/// change with an action; every action needs the signature of its steward;
/// and every changed key must be one that may change so.
pub open spec fn verdict<'a>(
    actions: Seq<Action>,
    keys_changed: Seq<Key>,
    verifiers: Seq<Address>,
    state: PgfState,
) -> Result<(), Error<'a>> {
    if actions.len() == 0 && any_pgf_key(keys_changed) {
        Err(Error::NativeVpError(NativeVpError::NoActions))
    } else if actions_verdict(actions, verifiers) is Err {
        actions_verdict(actions, verifiers)
    } else {
        keys_verdict(keys_changed, verifiers, state)
    }
}

/// Validate a governance parameter: it may only change by a transaction
/// whose data names an accepted proposal.
pub fn is_valid_parameter_change<'a>(state: &PgfState) -> (r: Result<(), Error<'a>>)
    ensures
        r == parameter_verdict::<'a>(*state),
{
    match state.proposal_accepted {
        None => Err(Error::NativeVpError(NativeVpError::ParameterChangeWithoutData)),
        Some(accepted) => {
            if accepted {
                Ok(())
            } else {
                Err(Error::NativeVpError(NativeVpError::ParameterChangeNotAccepted))
            }
        },
    }
}

/// Check one changed key.
fn validate_key<'a>(key: &'a Key, verifiers: &Vec<Address>, state: &PgfState) -> (r: Result<
    (),
    Error<'a>,
>)
    ensures
        r == key_verdict(key, verifiers@, *state),
{
    match KeyType::from(key) {
        KeyType::Stewards(steward_address) => {
            if state.total_stewards_pre < state.total_stewards_post {
                return Err(Error::NativeVpError(NativeVpError::StewardsAdded));
            }
            if !contains(verifiers, steward_address) {
                return Err(
                    Error::NativeVpError(NativeVpError::StewardNotVerified(steward_address)),
                );
            }
            match get_steward(&state.stewards_post, steward_address) {
                None => Ok(()),
                Some(steward) => {
                    if steward.valid_reward_distribution {
                        Ok(())
                    } else {
                        Err(Error::NativeVpError(NativeVpError::InvalidCommissions))
                    }
                },
            }
        },
        KeyType::Fundings => Err(Error::NativeVpError(NativeVpError::FundingsChanged(key))),
        KeyType::PgfInflationRate | KeyType::StewardInflationRate => is_valid_parameter_change(
            state,
        ),
        KeyType::UnknownPgf => Err(Error::NativeVpError(NativeVpError::UnknownPgfChange(key))),
        KeyType::Unknown => Ok(()),
    }
}

/// Decide whether a transaction may change the keys that it changed.
pub fn validate_tx<'a>(
    actions: &'a Vec<Action>,
    keys_changed: &'a Vec<Key>,
    verifiers: &Vec<Address>,
    state: &PgfState,
) -> (r: Result<(), Error<'a>>)
    ensures
        r == verdict(actions@, keys_changed@, verifiers@, *state),
{
    if actions.len() == 0 {
        let mut i: usize = 0;
        while i < keys_changed.len()
            invariant
                i <= keys_changed@.len(),
                actions@.len() == 0,
                forall|k: int| 0 <= k < i ==> !is_pgf((#[trigger] keys_changed@[k])@),
            decreases keys_changed@.len() - i,
        {
            if is_pgf_key(&keys_changed[i]) {
                assert(is_pgf(keys_changed@[i as int]@));
                assert(any_pgf_key(keys_changed@));
                return Err(Error::NativeVpError(NativeVpError::NoActions));
            }
            i = i + 1;
        }
    }
    let mut a: usize = 0;
    assert(actions@.subrange(0, actions@.len() as int) =~= actions@);
    while a < actions.len()
        invariant
            a <= actions@.len(),
            actions_verdict::<'a>(actions@, verifiers@) == actions_verdict::<'a>(
                actions@.subrange(a as int, actions@.len() as int),
                verifiers@,
            ),
            !(actions@.len() == 0 && any_pgf_key(keys_changed@)),
        decreases actions@.len() - a,
    {
        let ghost rest = actions@.subrange(a as int, actions@.len() as int);
        assert(rest[0] == actions@[a as int]);
        assert(rest.drop_first() =~= actions@.subrange(a + 1, actions@.len() as int));
        match &actions[a] {
            Action::Pgf(PgfAction::UpdateStewardCommission(address)) => {
                if !contains(verifiers, address) {
                    return Err(Error::Unauthorized("UpdateStewardCommission", address));
                }
            },
            Action::Pgf(PgfAction::ResignSteward(address)) => {
                if !contains(verifiers, address) {
                    return Err(Error::Unauthorized("ResignSteward", address));
                }
            },
            Action::Other => {},
        }
        a = a + 1;
    }
    let mut k: usize = 0;
    assert(keys_changed@.subrange(0, keys_changed@.len() as int) =~= keys_changed@);
    while k < keys_changed.len()
        invariant
            k <= keys_changed@.len(),
            keys_verdict::<'a>(keys_changed@, verifiers@, *state) == keys_verdict::<'a>(
                keys_changed@.subrange(k as int, keys_changed@.len() as int),
                verifiers@,
                *state,
            ),
            !(actions@.len() == 0 && any_pgf_key(keys_changed@)),
            actions_verdict::<'a>(actions@, verifiers@) is Ok,
        decreases keys_changed@.len() - k,
    {
        let ghost rest = keys_changed@.subrange(k as int, keys_changed@.len() as int);
        assert(rest[0] == keys_changed@[k as int]);
        assert(rest.drop_first() =~= keys_changed@.subrange(k + 1, keys_changed@.len() as int));
        match validate_key(&keys_changed[k], verifiers, state) {
            Ok(()) => {},
            Err(e) => {
                return Err(e);
            },
        }
        k = k + 1;
    }
    Ok(())
}

} // verus!
