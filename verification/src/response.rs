//! What a call hands to the host: the caller's identity and funds on the way
//! in, instructions and audit events on the way out.

use vstd::prelude::*;

verus! {

/// An amount of one denomination.
#[derive(Clone, Debug, PartialEq, Eq)]
pub struct Coin {
    pub denom: String,
    pub amount: u128,
}

/// Who called, and the funds that came with the call.
#[derive(Clone, Debug, PartialEq, Eq)]
pub struct MessageInfo {
    pub sender: String,
    pub funds: Vec<Coin>,
}

/// An instruction that the host carries out after a successful call.
#[derive(Clone, Debug, PartialEq, Eq)]
pub enum Instruction {
    /// Delegate `amount` of the staking denomination to `validator`.
    Delegate { validator: String, amount: u128 },
    /// Withdraw `amount` of the staking denomination from `validator`.
    Undelegate { validator: String, amount: u128 },
    /// Send `amount` of `denom` to the account `to`.
    Transfer { to: String, amount: u128, denom: String },
}

/// A key and a value.
#[derive(Clone, Debug, PartialEq, Eq)]
pub struct Attribute {
    pub key: String,
    pub value: String,
}

/// An audit event: its name, and what it records.
#[derive(Clone, Debug, PartialEq, Eq)]
pub struct Event {
    pub ty: String,
    pub attributes: Vec<Attribute>,
}

/// Everything that a successful call hands to the host, in order.
#[derive(Clone, Debug, PartialEq, Eq)]
pub struct Response {
    pub messages: Vec<Instruction>,
    pub attributes: Vec<Attribute>,
    pub events: Vec<Event>,
}

/// An [`Instruction`] as mathematical values.
pub enum InstructionView {
    Delegate { validator: Seq<char>, amount: u128 },
    Undelegate { validator: Seq<char>, amount: u128 },
    Transfer { to: Seq<char>, amount: u128, denom: Seq<char> },
}

/// An [`Event`] as mathematical values.
pub struct EventView {
    pub ty: Seq<char>,
    pub attributes: Seq<(Seq<char>, Seq<char>)>,
}

/// A [`Response`] as mathematical values.
pub struct ResponseView {
    pub messages: Seq<InstructionView>,
    pub attributes: Seq<(Seq<char>, Seq<char>)>,
    pub events: Seq<EventView>,
}

impl View for Instruction {
    type V = InstructionView;

    open spec fn view(&self) -> InstructionView {
        match *self {
            Instruction::Delegate { validator, amount } => InstructionView::Delegate {
                validator: validator@,
                amount,
            },
            Instruction::Undelegate { validator, amount } => InstructionView::Undelegate {
                validator: validator@,
                amount,
            },
            Instruction::Transfer { to, amount, denom } => InstructionView::Transfer {
                to: to@,
                amount,
                denom: denom@,
            },
        }
    }
}

impl View for Event {
    type V = EventView;

    open spec fn view(&self) -> EventView {
        EventView { ty: self.ty@, attributes: self.attributes@.map_values(|a: Attribute| a@) }
    }
}

impl View for Attribute {
    type V = (Seq<char>, Seq<char>);

    open spec fn view(&self) -> (Seq<char>, Seq<char>) {
        (self.key@, self.value@)
    }
}

impl View for Response {
    type V = ResponseView;

    open spec fn view(&self) -> ResponseView {
        ResponseView {
            messages: self.messages@.map_values(|m: Instruction| m@),
            attributes: self.attributes@.map_values(|a: Attribute| a@),
            events: self.events@.map_values(|e: Event| e@),
        }
    }
}

/// The character that stands for a digit below ten.
pub open spec fn digit(d: nat) -> char {
    seq!['0', '1', '2', '3', '4', '5', '6', '7', '8', '9'][d as int]
}

/// A number in decimal digits, without a sign and without leading zeros.
pub open spec fn decimal(n: nat) -> Seq<char>
    decreases n,
{
    if n < 10 {
        seq![digit(n)]
    } else {
        decimal(n / 10).push(digit(n % 10))
    }
}

/// An amount of a denomination as text: the amount in decimal digits, and
/// directly behind it the denomination.
pub open spec fn coin_display(amount: u128, denom: Seq<char>) -> Seq<char> {
    decimal(amount as nat) + denom
}

/// Makes a coin with `cosmwasm_std::coin` and renders it with the `Display`
/// of `cosmwasm_std::Coin`, which writes the amount as a decimal integer and
/// then the denomination, with nothing between them.
#[verifier::external_body]
pub(crate) fn coin_text(amount: u128, denom: &str) -> (text: String)
    ensures
        text@ == coin_display(amount, denom@),
{
    cosmwasm_std::coin(amount, denom).to_string()
}

/// The audit event named `ty` that records `staker` and the text of an amount.
pub open spec fn event_of(ty: Seq<char>, staker: Seq<char>, amount: Seq<char>) -> EventView {
    EventView { ty, attributes: seq![("staker"@, staker), ("amount"@, amount)] }
}

impl Attribute {
    /// The attribute with this key and value.
    pub fn new(key: &str, value: String) -> (attribute: Attribute)
        ensures
            attribute@ == (key@, value@),
    {
        Attribute { key: key.to_owned(), value }
    }
}

impl Event {
    /// The audit event named `ty` that records `staker` and `amount`, in
    /// that order.
    pub fn audit(ty: &str, staker: String, amount: String) -> (event: Event)
        ensures
            event@ == event_of(ty@, staker@, amount@),
    {
        let mut attributes: Vec<Attribute> = Vec::new();
        attributes.push(Attribute::new("staker", staker));
        attributes.push(Attribute::new("amount", amount));
        let event = Event { ty: ty.to_owned(), attributes };
        assert(event@.attributes =~= event_of(ty@, staker@, amount@).attributes);
        event
    }
}

/// The funds of a call as pairs of denomination and amount.
pub open spec fn funds_of(funds: Seq<Coin>) -> Seq<(Seq<char>, u128)> {
    funds.map_values(|c: Coin| (c.denom@, c.amount))
}

} // verus!
