//! The staking service: set-up, stake, unstake and the query, each on a
//! ledger that the caller holds.

use vstd::prelude::*;
use crate::accounting::{
    after_stake,
    after_unstake,
    stake_refusal,
    stake_response,
    staking_denom,
    unstake_refusal,
    unstake_response,
};
use crate::error::ContractError;
use crate::msg::{ExecuteMsg, GetStakedAmount, InstantiateMsg, QueryMsg};
use crate::response::{
    coin_text,
    funds_of,
    Attribute,
    Event,
    Instruction,
    MessageInfo,
    Response,
    ResponseView,
};
use crate::state::{balance_of, Ledger, LedgerView};

verus! {

/// What the host is handed after the service has been set up by `owner` with
/// `validator` as its target.
pub open spec fn instantiate_response(owner: Seq<char>, validator: Seq<char>) -> ResponseView {
    ResponseView {
        messages: Seq::empty(),
        attributes: seq![
            ("method"@, "instantiate"@),
            ("owner"@, owner),
            ("validator"@, validator),
        ],
        events: Seq::empty(),
    }
}

/// What a stake by `sender` with `funds` owes: the refusal that the rules
/// give and an untouched ledger, or else the new balance in the ledger and
/// the delegation in the response.
pub open spec fn stake_outcome(
    before: LedgerView,
    after: LedgerView,
    sender: Seq<char>,
    funds: Seq<(Seq<char>, u128)>,
    result: Result<Response, ContractError>,
) -> bool {
    match stake_refusal(before, sender, funds) {
        Some(error) => result is Err && result->Err_0 == error && after == before,
        None => {
            &&& result is Ok
            &&& result->Ok_0@ == stake_response(before.validator->0, sender, funds[0].1)
            &&& after.validator == before.validator
            &&& after.stakes == after_stake(before.stakes, sender, funds[0].1)
        },
    }
}

/// What an unstake of `amount` by `sender` owes: the refusal that the rules
/// give and an untouched ledger, or else the new balance in the ledger and
/// the undelegation and refund in the response.
pub open spec fn unstake_outcome(
    before: LedgerView,
    after: LedgerView,
    sender: Seq<char>,
    amount: u128,
    result: Result<Response, ContractError>,
) -> bool {
    match unstake_refusal(before, sender, amount) {
        Some(error) => result is Err && result->Err_0 == error && after == before,
        None => {
            &&& result is Ok
            &&& result->Ok_0@ == unstake_response(before.validator->0, sender, amount)
            &&& after.validator == before.validator
            &&& after.stakes == after_unstake(before.stakes, sender, amount)
        },
    }
}

/// What `msg` from `sender` with `funds` owes: that of a stake or of an
/// unstake.
pub open spec fn execute_outcome(
    before: LedgerView,
    after: LedgerView,
    sender: Seq<char>,
    funds: Seq<(Seq<char>, u128)>,
    msg: ExecuteMsg,
    result: Result<Response, ContractError>,
) -> bool {
    match msg {
        ExecuteMsg::STAKE {  } => stake_outcome(before, after, sender, funds, result),
        ExecuteMsg::UNSTAKE { amount } => unstake_outcome(before, after, sender, amount, result),
    }
}

/// The staking denomination.
pub fn denom() -> (name: String)
    ensures
        name@ == staking_denom(),
{
    "andr".to_owned()
}

/// Sets the service up: records the validator of `msg` in `ledger` and
/// tells who did so. No record changes.
pub fn instantiate(ledger: &mut Ledger, info: MessageInfo, msg: InstantiateMsg) -> (result: Result<
    Response,
    ContractError,
>)
    ensures
        result is Ok,
        result->Ok_0@ == instantiate_response(info.sender@, msg.validator@),
        final(ledger)@.validator == Some(msg.validator@),
        final(ledger)@.stakes == old(ledger)@.stakes,
{
    let validator = msg.validator;
    let mut attributes: Vec<Attribute> = Vec::new();
    attributes.push(Attribute::new("method", "instantiate".to_owned()));
    attributes.push(Attribute::new("owner", info.sender));
    attributes.push(Attribute::new("validator", validator.clone()));
    ledger.set_validator(validator);
    let response = Response { messages: Vec::new(), attributes, events: Vec::new() };
    assert(response@.messages =~= Seq::empty());
    assert(response@.events =~= Seq::empty());
    assert(response@.attributes =~= instantiate_response(info.sender@, msg.validator@).attributes);
    Ok(response)
}

/// Carries out `msg` for the caller of `info`.
pub fn execute(ledger: &mut Ledger, info: MessageInfo, msg: ExecuteMsg) -> (result: Result<
    Response,
    ContractError,
>)
    ensures
        execute_outcome(
            old(ledger)@,
            final(ledger)@,
            info.sender@,
            funds_of(info.funds@),
            msg,
            result,
        ),
{
    handle_execute(ledger, info, msg)
}

/// Hands `msg` to the operation that it names.
pub fn handle_execute(ledger: &mut Ledger, info: MessageInfo, msg: ExecuteMsg) -> (result: Result<
    Response,
    ContractError,
>)
    ensures
        execute_outcome(
            old(ledger)@,
            final(ledger)@,
            info.sender@,
            funds_of(info.funds@),
            msg,
            result,
        ),
{
    match msg {
        ExecuteMsg::STAKE {  } => stake(ledger, info),
        ExecuteMsg::UNSTAKE { amount } => unstake(ledger, info, amount),
    }
}

/// Stakes the funds of `info` for its sender. The funds must be one entry in
/// the staking denomination, the new balance must fit, and the validator
/// must be set; the balance then grows by the amount and the response
/// delegates the amount to the validator. Otherwise nothing changes.
pub fn stake(ledger: &mut Ledger, info: MessageInfo) -> (result: Result<Response, ContractError>)
    ensures
        stake_outcome(old(ledger)@, final(ledger)@, info.sender@, funds_of(info.funds@), result),
        info.funds@.len() == 0 ==> result is Err && result->Err_0 == ContractError::NoFunds,
        info.funds@.len() > 1 ==> result is Err && result->Err_0 == ContractError::MultipleDenoms,
        info.funds@.len() == 1 && info.funds@[0].denom@ != staking_denom() ==> result is Err
            && result->Err_0 == ContractError::MissingDenom,
        result is Err ==> final(ledger)@ == old(ledger)@,
{
    if info.funds.len() == 0 {
        return Err(ContractError::NoFunds);
    } else if info.funds.len() > 1 {
        return Err(ContractError::MultipleDenoms);
    }
    let accepted = denom();
    if !(info.funds[0].denom == accepted) {
        return Err(ContractError::MissingDenom);
    }
    let amount: u128 = info.funds[0].amount;
    let held: u128 = match ledger.get(info.sender.as_str()) {
        Some(staked) => staked,
        None => 0,
    };
    let total: u128 = match held.checked_add(amount) {
        Some(sum) => sum,
        None => {
            return Err(ContractError::Overflow);
        },
    };
    let validator = match ledger.get_validator() {
        Some(id) => id,
        None => {
            return Err(ContractError::ValidatorUnset);
        },
    };
    ledger.set(info.sender.clone(), total);
    let text = coin_text(amount, accepted.as_str());
    let mut messages: Vec<Instruction> = Vec::new();
    messages.push(Instruction::Delegate { validator, amount });
    let mut events: Vec<Event> = Vec::new();
    events.push(Event::audit("staked", info.sender, text));
    let response = Response { messages, attributes: Vec::new(), events };
    proof {
        let owed = stake_response(old(ledger)@.validator->0, info.sender@, amount);
        assert(response@.messages =~= owed.messages);
        assert(response@.attributes =~= owed.attributes);
        assert(response@.events =~= owed.events);
    }
    Ok(response)
}

/// Unstakes `amount` for the sender of `info`. The sender must have a record
/// that holds at least `amount`, and the validator must be set; the balance
/// then shrinks by `amount` and the response first undelegates the amount and
/// then sends it back to the sender. Otherwise nothing changes.
pub fn unstake(ledger: &mut Ledger, info: MessageInfo, amount: u128) -> (result: Result<
    Response,
    ContractError,
>)
    ensures
        unstake_outcome(old(ledger)@, final(ledger)@, info.sender@, amount, result),
        !old(ledger)@.stakes.contains_key(info.sender@) ==> result is Err && result->Err_0
            == ContractError::UserNotFound,
        balance_of(old(ledger)@.stakes, info.sender@) < amount && old(ledger)@.stakes.contains_key(
            info.sender@,
        ) ==> result is Err && result->Err_0 == ContractError::NotEnoughTokens,
        result is Err ==> final(ledger)@ == old(ledger)@,
{
    let held: u128 = match ledger.get(info.sender.as_str()) {
        Some(staked) => staked,
        None => {
            return Err(ContractError::UserNotFound);
        },
    };
    let rest: u128 = match held.checked_sub(amount) {
        Some(difference) => difference,
        None => {
            return Err(ContractError::NotEnoughTokens);
        },
    };
    let validator = match ledger.get_validator() {
        Some(id) => id,
        None => {
            return Err(ContractError::ValidatorUnset);
        },
    };
    ledger.set(info.sender.clone(), rest);
    let accepted = denom();
    let text = coin_text(amount, accepted.as_str());
    let mut messages: Vec<Instruction> = Vec::new();
    messages.push(Instruction::Undelegate { validator, amount });
    messages.push(Instruction::Transfer { to: info.sender.clone(), amount, denom: accepted });
    let mut events: Vec<Event> = Vec::new();
    events.push(Event::audit("unstaked", info.sender, text));
    let response = Response { messages, attributes: Vec::new(), events };
    proof {
        let owed = unstake_response(old(ledger)@.validator->0, info.sender@, amount);
        assert(response@.messages =~= owed.messages);
        assert(response@.attributes =~= owed.attributes);
        assert(response@.events =~= owed.events);
    }
    Ok(response)
}

/// Answers `msg` from `ledger`, which it leaves as it is.
pub fn query(ledger: &Ledger, msg: QueryMsg) -> (result: Result<GetStakedAmount, ContractError>)
    ensures
        result is Ok,
        match msg {
            QueryMsg::GetStakedAmount { staker } => result->Ok_0.amount == balance_of(
                ledger@.stakes,
                staker@,
            ),
        },
{
    match msg {
        QueryMsg::GetStakedAmount { staker } => get_staked_amount(ledger, staker),
    }
}

/// The principal that `staker` has staked: what its record holds, and zero
/// for an account without a record.
pub fn get_staked_amount(ledger: &Ledger, staker: String) -> (result: Result<
    GetStakedAmount,
    ContractError,
>)
    ensures
        result is Ok,
        result->Ok_0.amount == balance_of(ledger@.stakes, staker@),
        !ledger@.stakes.contains_key(staker@) ==> result->Ok_0.amount == 0,
{
    match ledger.get(staker.as_str()) {
        Some(amount) => Ok(GetStakedAmount { amount }),
        None => Ok(GetStakedAmount { amount: 0 }),
    }
}

} // verus!
