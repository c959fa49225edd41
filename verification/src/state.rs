//! The ledger store: one staked amount per account and the validator target.

use vstd::prelude::*;
use vstd::hash_map::StringHashMap;

verus! {

/// What a [`Ledger`] holds, as mathematical values.
pub struct LedgerView {
    /// The validator target, once it has been set.
    pub validator: Option<Seq<char>>,
    /// The staked principal of every account that has a record.
    pub stakes: Map<Seq<char>, u128>,
}

/// The text of an optional string.
pub open spec fn text_of(s: Option<String>) -> Option<Seq<char>> {
    match s {
        Some(t) => Some(t@),
        None => None,
    }
}

/// The staked principal of `account`: what its record holds, and zero where
/// it has none.
pub open spec fn balance_of(stakes: Map<Seq<char>, u128>, account: Seq<char>) -> nat {
    if stakes.contains_key(account) {
        stakes[account] as nat
    } else {
        0
    }
}

/// The durable state of the staking service.
pub struct Ledger {
    validator: Option<String>,
    stakings: StringHashMap<u128>,
}

impl View for Ledger {
    type V = LedgerView;

    closed spec fn view(&self) -> LedgerView {
        LedgerView { validator: text_of(self.validator), stakes: self.stakings@ }
    }
}

impl Ledger {
    /// A ledger without records and without a validator.
    pub fn new() -> (ledger: Ledger)
        ensures
            ledger@.validator is None,
            ledger@.stakes == Map::<Seq<char>, u128>::empty(),
    {
        Ledger { validator: None, stakings: StringHashMap::new() }
    }

    /// The record of `account`, if it has one.
    pub fn get(&self, account: &str) -> (amount: Option<u128>)
        ensures
            amount is Some == self@.stakes.contains_key(account@),
            amount is Some ==> amount->0 == self@.stakes[account@],
    {
        match self.stakings.get(account) {
            Some(held) => Some(*held),
            None => None,
        }
    }

    /// Overwrites the record of `account` and touches nothing else.
    pub fn set(&mut self, account: String, amount: u128)
        ensures
            final(self)@.stakes == old(self)@.stakes.insert(account@, amount),
            final(self)@.validator == old(self)@.validator,
    {
        self.stakings.insert(account, amount);
    }

    /// The validator target, if it has been set.
    pub fn get_validator(&self) -> (validator: Option<String>)
        ensures
            text_of(validator) == self@.validator,
    {
        match &self.validator {
            Some(id) => Some(id.clone()),
            None => None,
        }
    }

    /// Sets the validator target and touches no record.
    pub fn set_validator(&mut self, id: String)
        ensures
            final(self)@.validator == Some(id@),
            final(self)@.stakes == old(self)@.stakes,
    {
        self.validator = Some(id);
    }
}

} // verus!
