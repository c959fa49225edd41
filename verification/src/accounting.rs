//! The rules of the ledger as mathematics: what a stake and an unstake do to
//! the records, and what follows for any run of them.

use vstd::prelude::*;
use crate::error::ContractError;
use crate::response::{coin_display, event_of, InstructionView, ResponseView};
use crate::state::{balance_of, LedgerView};

verus! {

/// The one denomination that can be staked.
pub open spec fn staking_denom() -> Seq<char> {
    "andr"@
}

/// Why a stake by `sender` with `funds` is turned down, if it is. The tests
/// are made in this order: the number of payment entries, the denomination,
/// the size of the new balance, the validator.
pub open spec fn stake_refusal(
    ledger: LedgerView,
    sender: Seq<char>,
    funds: Seq<(Seq<char>, u128)>,
) -> Option<ContractError> {
    if funds.len() == 0 {
        Some(ContractError::NoFunds)
    } else if funds.len() > 1 {
        Some(ContractError::MultipleDenoms)
    } else if funds[0].0 != staking_denom() {
        Some(ContractError::MissingDenom)
    } else if balance_of(ledger.stakes, sender) + funds[0].1 > u128::MAX {
        Some(ContractError::Overflow)
    } else if ledger.validator is None {
        Some(ContractError::ValidatorUnset)
    } else {
        None
    }
}

/// The records after `account` has staked `amount`.
pub open spec fn after_stake(
    stakes: Map<Seq<char>, u128>,
    account: Seq<char>,
    amount: u128,
) -> Map<Seq<char>, u128> {
    stakes.insert(account, (balance_of(stakes, account) + amount) as u128)
}

/// What the host is handed after `staker` has staked `amount`.
pub open spec fn stake_response(
    validator: Seq<char>,
    staker: Seq<char>,
    amount: u128,
) -> ResponseView {
    ResponseView {
        messages: seq![InstructionView::Delegate { validator, amount }],
        attributes: Seq::empty(),
        events: seq![event_of("staked"@, staker, coin_display(amount, staking_denom()))],
    }
}

/// Why an unstake of `amount` by `sender` is turned down, if it is. The tests
/// are made in this order: the record, its size, the validator.
pub open spec fn unstake_refusal(
    ledger: LedgerView,
    sender: Seq<char>,
    amount: u128,
) -> Option<ContractError> {
    if !ledger.stakes.contains_key(sender) {
        Some(ContractError::UserNotFound)
    } else if ledger.stakes[sender] < amount {
        Some(ContractError::NotEnoughTokens)
    } else if ledger.validator is None {
        Some(ContractError::ValidatorUnset)
    } else {
        None
    }
}

/// The records after `account` has unstaked `amount`.
pub open spec fn after_unstake(
    stakes: Map<Seq<char>, u128>,
    account: Seq<char>,
    amount: u128,
) -> Map<Seq<char>, u128> {
    stakes.insert(account, (balance_of(stakes, account) - amount) as u128)
}

/// What the host is handed after `staker` has unstaked `amount`: the
/// undelegation first, the refund second.
pub open spec fn unstake_response(
    validator: Seq<char>,
    staker: Seq<char>,
    amount: u128,
) -> ResponseView {
    ResponseView {
        messages: seq![
            InstructionView::Undelegate { validator, amount },
            InstructionView::Transfer { to: staker, amount, denom: staking_denom() },
        ],
        attributes: Seq::empty(),
        events: seq![event_of("unstaked"@, staker, coin_display(amount, staking_denom()))],
    }
}

/// One call that changes the ledger: who makes it, and the amount that is
/// staked or unstaked.
pub enum Movement {
    Stake { account: Seq<char>, amount: u128 },
    Unstake { account: Seq<char>, amount: u128 },
}

/// Whether `step` succeeds on `stakes`, the validator being set.
pub open spec fn accepted(stakes: Map<Seq<char>, u128>, step: Movement) -> bool {
    match step {
        Movement::Stake { account, amount } => balance_of(stakes, account) + amount <= u128::MAX,
        Movement::Unstake { account, amount } => stakes.contains_key(account) && amount
            <= stakes[account],
    }
}

/// The records after `step`.
pub open spec fn after(stakes: Map<Seq<char>, u128>, step: Movement) -> Map<Seq<char>, u128> {
    match step {
        Movement::Stake { account, amount } => after_stake(stakes, account, amount),
        Movement::Unstake { account, amount } => after_unstake(stakes, account, amount),
    }
}

/// The records after all of `steps`, in order.
pub open spec fn replay(stakes: Map<Seq<char>, u128>, steps: Seq<Movement>) -> Map<Seq<char>, u128>
    decreases steps.len(),
{
    if steps.len() == 0 {
        stakes
    } else {
        after(replay(stakes, steps.drop_last()), steps.last())
    }
}

/// Whether every one of `steps` succeeds when they are made in order,
/// starting from `stakes`.
pub open spec fn all_accepted(stakes: Map<Seq<char>, u128>, steps: Seq<Movement>) -> bool
    decreases steps.len(),
{
    steps.len() == 0 || (all_accepted(stakes, steps.drop_last()) && accepted(
        replay(stakes, steps.drop_last()),
        steps.last(),
    ))
}

/// The account that makes `step`.
pub open spec fn mover(step: Movement) -> Seq<char> {
    match step {
        Movement::Stake { account, amount } => account,
        Movement::Unstake { account, amount } => account,
    }
}

/// What `step` adds to the balance of `account`: the amount that `account`
/// stakes, the negative of the amount that it unstakes, and nothing for a
/// step of another account.
pub open spec fn gain(step: Movement, account: Seq<char>) -> int {
    match step {
        Movement::Stake { account: staker, amount } => if staker == account {
            amount as int
        } else {
            0
        },
        Movement::Unstake { account: staker, amount } => if staker == account {
            -(amount as int)
        } else {
            0
        },
    }
}

/// The sum of the amounts that `account` stakes in `steps` less the sum of
/// those that it unstakes.
pub open spec fn net(steps: Seq<Movement>, account: Seq<char>) -> int
    decreases steps.len(),
{
    if steps.len() == 0 {
        0
    } else {
        net(steps.drop_last(), account) + gain(steps.last(), account)
    }
}

/// A movement is accepted exactly when the service, with its validator set,
/// does not turn down the call that makes it.
pub proof fn lemma_accepted_is_not_refused(ledger: LedgerView, step: Movement)
    requires
        ledger.validator is Some,
    ensures
        accepted(ledger.stakes, step) <==> match step {
            Movement::Stake { account, amount } => stake_refusal(
                ledger,
                account,
                seq![(staking_denom(), amount)],
            ) is None,
            Movement::Unstake { account, amount } => unstake_refusal(ledger, account, amount)
                is None,
        },
{
}

/// Balance conservation. After any run of successful stakes and unstakes, by
/// whichever accounts, the balance of an account is what it was before, plus
/// all that the account staked, less all that it unstaked. So the sum is
/// never negative, and an account that started without a record holds
/// exactly what it staked less what it unstaked.
pub proof fn lemma_balance_is_conserved(
    stakes: Map<Seq<char>, u128>,
    steps: Seq<Movement>,
    account: Seq<char>,
)
    requires
        all_accepted(stakes, steps),
    ensures
        balance_of(replay(stakes, steps), account) == balance_of(stakes, account) + net(
            steps,
            account,
        ),
        balance_of(stakes, account) + net(steps, account) >= 0,
        !stakes.contains_key(account) ==> balance_of(replay(stakes, steps), account) == net(
            steps,
            account,
        ),
    decreases steps.len(),
{
    if steps.len() > 0 {
        lemma_balance_is_conserved(stakes, steps.drop_last(), account);
    }
}

/// A run of stakes and unstakes in which `account` takes no part leaves the
/// record of `account` as it was, or leaves it without one.
pub proof fn lemma_others_are_untouched(
    stakes: Map<Seq<char>, u128>,
    steps: Seq<Movement>,
    account: Seq<char>,
)
    requires
        forall|i: int| 0 <= i < steps.len() ==> mover(#[trigger] steps[i]) != account,
    ensures
        replay(stakes, steps).contains_key(account) == stakes.contains_key(account),
        balance_of(replay(stakes, steps), account) == balance_of(stakes, account),
    decreases steps.len(),
{
    if steps.len() > 0 {
        let earlier = steps.drop_last();
        assert forall|i: int| 0 <= i < earlier.len() implies mover(#[trigger] earlier[i])
            != account by {
            assert(earlier[i] == steps[i]);
        }
        lemma_others_are_untouched(stakes, earlier, account);
        assert(mover(steps[steps.len() - 1]) != account);
    }
}

/// Two stakes by one account leave the records that a single stake of the sum
/// leaves, in whichever order the two are made.
pub proof fn lemma_stakes_add_up(
    stakes: Map<Seq<char>, u128>,
    account: Seq<char>,
    first: u128,
    second: u128,
)
    requires
        balance_of(stakes, account) + first + second <= u128::MAX,
    ensures
        after_stake(after_stake(stakes, account, first), account, second) == after_stake(
            stakes,
            account,
            (first + second) as u128,
        ),
        after_stake(after_stake(stakes, account, first), account, second) == after_stake(
            after_stake(stakes, account, second),
            account,
            first,
        ),
{
    assert(after_stake(after_stake(stakes, account, first), account, second) =~= after_stake(
        stakes,
        account,
        (first + second) as u128,
    ));
    assert(after_stake(after_stake(stakes, account, second), account, first) =~= after_stake(
        stakes,
        account,
        (first + second) as u128,
    ));
}

} // verus!
