use andr_staking::contract::{
    denom, execute, get_staked_amount, handle_execute, instantiate, query,
};
use andr_staking::error::ContractError;
use andr_staking::msg::{ExecuteMsg, GetStakedAmount, InstantiateMsg, QueryMsg};
use andr_staking::response::{Attribute, Coin, Event, Instruction, MessageInfo, Response};
use andr_staking::state::Ledger;

const MOCK_KERNEL_CONTRACT: &str = "kernel_contract";

fn coins(amount: u128, denom: &str) -> Vec<Coin> {
    vec![Coin { denom: denom.to_owned(), amount }]
}

fn mock_info(sender: &str, funds: &[Coin]) -> MessageInfo {
    MessageInfo { sender: sender.to_owned(), funds: funds.to_vec() }
}

fn ready_ledger() -> Ledger {
    let mut ledger = Ledger::new();
    let msg = InstantiateMsg {
        validator: "valoper1".to_owned(),
        kernel_address: MOCK_KERNEL_CONTRACT.to_string(),
        owner: None,
    };
    instantiate(&mut ledger, mock_info("creator", &vec![]), msg).unwrap();
    ledger
}

fn staked(ledger: &Ledger, staker: &str) -> u128 {
    get_staked_amount(ledger, staker.to_owned()).unwrap().amount
}

#[test]
fn stake() {
    let mut deps = Ledger::new();

    let msg = InstantiateMsg {
        validator: "valoper1".to_owned(),
        kernel_address: MOCK_KERNEL_CONTRACT.to_string(),
        owner: None,
    };

    let info = mock_info("creator", &vec![]);
    let _res = instantiate(&mut deps, info, msg).unwrap();

    let info = mock_info("anyone", &coins(2, "andr"));
    let msg = ExecuteMsg::STAKE {};
    let _res = execute(&mut deps, info, msg).unwrap();

    let value: GetStakedAmount = query(
        &deps,
        QueryMsg::GetStakedAmount {
            staker: "anyone".to_owned(),
        },
    )
    .unwrap();
    assert_eq!(2, value.amount);
}

#[test]
fn unstake() {
    let mut deps = Ledger::new();

    let msg = InstantiateMsg {
        validator: "valoper1".to_owned(),
        kernel_address: MOCK_KERNEL_CONTRACT.to_string(),
        owner: None,
    };

    let info = mock_info("creator", &vec![]);
    let _res = instantiate(&mut deps, info, msg).unwrap();

    let info = mock_info("anyone", &coins(2, "andr"));
    let msg = ExecuteMsg::STAKE {};
    let _res = execute(&mut deps, info, msg).unwrap();

    let info = mock_info("anyone", &vec![]);
    let msg = ExecuteMsg::UNSTAKE { amount: 1 };
    let _res = execute(&mut deps, info, msg).unwrap();

    let value: GetStakedAmount = query(
        &deps,
        QueryMsg::GetStakedAmount {
            staker: "anyone".to_owned(),
        },
    )
    .unwrap();
    assert_eq!(1, value.amount);
}

#[test]
fn instantiate_records_the_validator() {
    let mut ledger = Ledger::new();
    assert_eq!(ledger.get_validator(), None);
    let msg = InstantiateMsg {
        validator: "valoper1".to_owned(),
        kernel_address: MOCK_KERNEL_CONTRACT.to_string(),
        owner: None,
    };
    let res = instantiate(&mut ledger, mock_info("creator", &vec![]), msg).unwrap();
    assert_eq!(ledger.get_validator(), Some("valoper1".to_owned()));
    assert_eq!(
        res,
        Response {
            messages: vec![],
            attributes: vec![
                Attribute { key: "method".to_owned(), value: "instantiate".to_owned() },
                Attribute { key: "owner".to_owned(), value: "creator".to_owned() },
                Attribute { key: "validator".to_owned(), value: "valoper1".to_owned() },
            ],
            events: vec![],
        }
    );
    assert_eq!(staked(&ledger, "creator"), 0);
}

#[test]
fn stake_delegates_and_records_the_event() {
    let mut ledger = ready_ledger();
    let res = handle_execute(
        &mut ledger,
        mock_info("anyone", &coins(2, "andr")),
        ExecuteMsg::STAKE {},
    )
    .unwrap();
    assert_eq!(
        res.messages,
        vec![Instruction::Delegate { validator: "valoper1".to_owned(), amount: 2 }]
    );
    assert!(res.attributes.is_empty());
    assert_eq!(
        res.events,
        vec![Event {
            ty: "staked".to_owned(),
            attributes: vec![
                Attribute { key: "staker".to_owned(), value: "anyone".to_owned() },
                Attribute { key: "amount".to_owned(), value: "2andr".to_owned() },
            ],
        }]
    );
    assert_eq!(ledger.get("anyone"), Some(2));
}

#[test]
fn event_amount_is_the_coin_as_text() {
    let mut ledger = ready_ledger();
    let big: u128 = 340282366920938463463374607431768211455;
    let res = andr_staking::contract::stake(&mut ledger, mock_info("whale", &coins(big, "andr")))
        .unwrap();
    assert_eq!(
        res.events[0].attributes[1].value,
        "340282366920938463463374607431768211455andr"
    );
    let res = andr_staking::contract::unstake(&mut ledger, mock_info("whale", &vec![]), 0).unwrap();
    assert_eq!(res.events[0].attributes[1].value, "0andr");
}

#[test]
fn audit_event_holds_staker_then_amount() {
    let event = Event::audit("staked", "anyone".to_owned(), "2andr".to_owned());
    assert_eq!(event.ty, "staked");
    assert_eq!(event.attributes.len(), 2);
    assert_eq!(event.attributes[0], Attribute::new("staker", "anyone".to_owned()));
    assert_eq!(event.attributes[1], Attribute::new("amount", "2andr".to_owned()));
}

#[test]
fn staking_denomination_is_andr() {
    assert_eq!(denom(), "andr");
}

#[test]
fn stake_without_funds_is_refused() {
    let mut ledger = ready_ledger();
    let err = execute(&mut ledger, mock_info("anyone", &vec![]), ExecuteMsg::STAKE {}).unwrap_err();
    assert_eq!(err, ContractError::NoFunds);
    assert_eq!(ledger.get("anyone"), None);
}

#[test]
fn stake_with_two_entries_is_refused() {
    let mut ledger = ready_ledger();
    let funds = vec![
        Coin { denom: "andr".to_owned(), amount: 1 },
        Coin { denom: "andr".to_owned(), amount: 2 },
    ];
    let err = execute(&mut ledger, mock_info("anyone", &funds), ExecuteMsg::STAKE {}).unwrap_err();
    assert_eq!(err, ContractError::MultipleDenoms);
    let funds = vec![
        Coin { denom: "andr".to_owned(), amount: 1 },
        Coin { denom: "uusd".to_owned(), amount: 2 },
    ];
    let err = execute(&mut ledger, mock_info("anyone", &funds), ExecuteMsg::STAKE {}).unwrap_err();
    assert_eq!(err, ContractError::MultipleDenoms);
    assert_eq!(ledger.get("anyone"), None);
}

#[test]
fn stake_in_another_denomination_is_refused() {
    let mut ledger = ready_ledger();
    let err = execute(&mut ledger, mock_info("anyone", &coins(2, "uusd")), ExecuteMsg::STAKE {})
        .unwrap_err();
    assert_eq!(err, ContractError::MissingDenom);
    let err = execute(&mut ledger, mock_info("anyone", &coins(2, "ANDR")), ExecuteMsg::STAKE {})
        .unwrap_err();
    assert_eq!(err, ContractError::MissingDenom);
    assert_eq!(ledger.get("anyone"), None);
}

#[test]
fn stake_that_overflows_is_refused() {
    let mut ledger = ready_ledger();
    execute(&mut ledger, mock_info("anyone", &coins(u128::MAX, "andr")), ExecuteMsg::STAKE {})
        .unwrap();
    let err = execute(&mut ledger, mock_info("anyone", &coins(1, "andr")), ExecuteMsg::STAKE {})
        .unwrap_err();
    assert_eq!(err, ContractError::Overflow);
    assert_eq!(staked(&ledger, "anyone"), u128::MAX);
    execute(&mut ledger, mock_info("anyone", &coins(0, "andr")), ExecuteMsg::STAKE {}).unwrap();
    assert_eq!(staked(&ledger, "anyone"), u128::MAX);
}

#[test]
fn stake_before_set_up_is_refused() {
    let mut ledger = Ledger::new();
    let err = execute(&mut ledger, mock_info("anyone", &coins(2, "andr")), ExecuteMsg::STAKE {})
        .unwrap_err();
    assert_eq!(err, ContractError::ValidatorUnset);
    assert_eq!(ledger.get("anyone"), None);
    let err = execute(&mut ledger, mock_info("anyone", &vec![]), ExecuteMsg::STAKE {}).unwrap_err();
    assert_eq!(err, ContractError::NoFunds);
}

#[test]
fn unstake_before_set_up_is_refused() {
    let mut ledger = Ledger::new();
    ledger.set("anyone".to_owned(), 5);
    let err = execute(&mut ledger, mock_info("anyone", &vec![]), ExecuteMsg::UNSTAKE { amount: 1 })
        .unwrap_err();
    assert_eq!(err, ContractError::ValidatorUnset);
    assert_eq!(ledger.get("anyone"), Some(5));
    let err = execute(&mut ledger, mock_info("anyone", &vec![]), ExecuteMsg::UNSTAKE { amount: 6 })
        .unwrap_err();
    assert_eq!(err, ContractError::NotEnoughTokens);
}

#[test]
fn unstake_without_a_record_is_refused() {
    let mut ledger = ready_ledger();
    for amount in [0u128, 1, 7, u128::MAX] {
        let err = execute(
            &mut ledger,
            mock_info("nobody", &vec![]),
            ExecuteMsg::UNSTAKE { amount },
        )
        .unwrap_err();
        assert_eq!(err, ContractError::UserNotFound);
    }
    assert_eq!(ledger.get("nobody"), None);
}

#[test]
fn unstake_of_too_much_is_refused_and_changes_nothing() {
    let mut ledger = ready_ledger();
    execute(&mut ledger, mock_info("anyone", &coins(2, "andr")), ExecuteMsg::STAKE {}).unwrap();
    let err = execute(&mut ledger, mock_info("anyone", &vec![]), ExecuteMsg::UNSTAKE { amount: 3 })
        .unwrap_err();
    assert_eq!(err, ContractError::NotEnoughTokens);
    assert_eq!(staked(&ledger, "anyone"), 2);
    assert_eq!(ledger.get("anyone"), Some(2));
}

#[test]
fn never_staked_account_has_zero() {
    let ledger = ready_ledger();
    assert_eq!(get_staked_amount(&ledger, "stranger".to_owned()), Ok(GetStakedAmount { amount: 0 }));
    let empty = Ledger::new();
    assert_eq!(
        query(&empty, QueryMsg::GetStakedAmount { staker: "stranger".to_owned() }),
        Ok(GetStakedAmount { amount: 0 })
    );
}

#[test]
fn stake_two_then_unstake_one() {
    let mut ledger = ready_ledger();
    execute(&mut ledger, mock_info("anyone", &coins(2, "andr")), ExecuteMsg::STAKE {}).unwrap();
    assert_eq!(staked(&ledger, "anyone"), 2);
    let res = execute(&mut ledger, mock_info("anyone", &vec![]), ExecuteMsg::UNSTAKE { amount: 1 })
        .unwrap();
    assert_eq!(staked(&ledger, "anyone"), 1);
    assert_eq!(
        res.messages,
        vec![
            Instruction::Undelegate { validator: "valoper1".to_owned(), amount: 1 },
            Instruction::Transfer { to: "anyone".to_owned(), amount: 1, denom: "andr".to_owned() },
        ]
    );
    assert!(res.attributes.is_empty());
    assert_eq!(
        res.events,
        vec![Event {
            ty: "unstaked".to_owned(),
            attributes: vec![
                Attribute { key: "staker".to_owned(), value: "anyone".to_owned() },
                Attribute { key: "amount".to_owned(), value: "1andr".to_owned() },
            ],
        }]
    );
}

#[test]
fn two_stakes_equal_one_stake_of_the_sum() {
    let mut twice = ready_ledger();
    execute(&mut twice, mock_info("anyone", &coins(3, "andr")), ExecuteMsg::STAKE {}).unwrap();
    execute(&mut twice, mock_info("anyone", &coins(4, "andr")), ExecuteMsg::STAKE {}).unwrap();
    let mut swapped = ready_ledger();
    execute(&mut swapped, mock_info("anyone", &coins(4, "andr")), ExecuteMsg::STAKE {}).unwrap();
    execute(&mut swapped, mock_info("anyone", &coins(3, "andr")), ExecuteMsg::STAKE {}).unwrap();
    let mut once = ready_ledger();
    execute(&mut once, mock_info("anyone", &coins(7, "andr")), ExecuteMsg::STAKE {}).unwrap();
    assert_eq!(staked(&twice, "anyone"), 7);
    assert_eq!(staked(&swapped, "anyone"), 7);
    assert_eq!(staked(&once, "anyone"), 7);
}

#[test]
fn balance_is_stakes_less_unstakes() {
    let mut ledger = ready_ledger();
    execute(&mut ledger, mock_info("other", &coins(100, "andr")), ExecuteMsg::STAKE {}).unwrap();
    execute(&mut ledger, mock_info("anyone", &coins(10, "andr")), ExecuteMsg::STAKE {}).unwrap();
    execute(&mut ledger, mock_info("anyone", &vec![]), ExecuteMsg::UNSTAKE { amount: 4 }).unwrap();
    execute(&mut ledger, mock_info("anyone", &coins(5, "andr")), ExecuteMsg::STAKE {}).unwrap();
    execute(&mut ledger, mock_info("anyone", &vec![]), ExecuteMsg::UNSTAKE { amount: 11 }).unwrap();
    assert_eq!(staked(&ledger, "anyone"), 10 - 4 + 5 - 11);
    assert_eq!(staked(&ledger, "other"), 100);
}

#[test]
fn full_unstake_keeps_a_zero_record() {
    let mut ledger = ready_ledger();
    execute(&mut ledger, mock_info("anyone", &coins(2, "andr")), ExecuteMsg::STAKE {}).unwrap();
    execute(&mut ledger, mock_info("anyone", &vec![]), ExecuteMsg::UNSTAKE { amount: 2 }).unwrap();
    assert_eq!(ledger.get("anyone"), Some(0));
    assert_eq!(staked(&ledger, "anyone"), 0);
    execute(&mut ledger, mock_info("anyone", &vec![]), ExecuteMsg::UNSTAKE { amount: 0 }).unwrap();
    let err = execute(&mut ledger, mock_info("anyone", &vec![]), ExecuteMsg::UNSTAKE { amount: 1 })
        .unwrap_err();
    assert_eq!(err, ContractError::NotEnoughTokens);
}

#[test]
fn ledger_store_reads_what_was_written() {
    let mut ledger = Ledger::new();
    assert_eq!(ledger.get("a"), None);
    assert_eq!(ledger.get_validator(), None);
    ledger.set("a".to_owned(), 9);
    ledger.set("b".to_owned(), 1);
    ledger.set("a".to_owned(), 3);
    assert_eq!(ledger.get("a"), Some(3));
    assert_eq!(ledger.get("b"), Some(1));
    assert_eq!(ledger.get("c"), None);
    ledger.set_validator("valoper9".to_owned());
    assert_eq!(ledger.get_validator(), Some("valoper9".to_owned()));
    assert_eq!(ledger.get("a"), Some(3));
}
