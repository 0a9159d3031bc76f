//! Command handlers and the replies they produce.
//!
//! A handler either answers at once, or asks the caller to fetch something
//! from the blockchain collaborator first and then hands the fetched value
//! back to [`gas_price_reply`] or [`balance_reply`]. Some failure paths
//! answer with a visible error reply while others silently drop the query;
//! that asymmetry is deliberate and is kept, not unified.

use vstd::prelude::*;

use crate::address::spec_parse_address;
use crate::address::parse_eth_address;
use crate::command::Command;
use crate::command::SpecCommand;

verus! {

/// Mathematical value of a reply.
pub struct ReplySpec {
    pub id: Seq<char>,
    pub title: Seq<char>,
    pub body: Seq<char>,
}

/// One answer candidate: a result id, a display title and a text body.
#[derive(Debug, Clone, PartialEq, Eq)]
pub struct Reply {
    pub id: String,
    pub title: String,
    pub body: String,
}

impl View for Reply {
    type V = ReplySpec;

    open spec fn view(&self) -> ReplySpec {
        ReplySpec { id: self.id@, title: self.title@, body: self.body@ }
    }
}

/// A failed blockchain fetch; the reply never reads anything out of the
/// failure, so the error carries nothing.
#[derive(Debug, Clone, Copy, PartialEq, Eq, Structural)]
pub struct ChainError;

/// The decimal rendering of a fetched quantity, or a failed fetch.
pub type Fetched = Result<String, ChainError>;

/// The value of a fetch outcome: the quantity's decimal digits, or failure.
pub open spec fn fetched_view(f: Fetched) -> Result<Seq<char>, ChainError> {
    match f {
        Ok(v) => Ok(v@),
        Err(e) => Err(e),
    }
}

/// What a handler asks of the caller for one command.
pub enum ActionSpec {
    /// Answer at once with this reply.
    Answer(ReplySpec),
    /// Fetch the network gas price, then build the reply with `spec_gas_price_reply`.
    FetchGasPrice,
    /// Fetch the balance of `address`, then build the reply with
    /// `spec_balance_reply` over the raw token.
    FetchBalance { address: Seq<u8>, raw: Seq<char> },
    /// Drop the query silently: no answer at all.
    NoAnswer,
}

/// What a handler asks of the caller for one command.
#[derive(Debug, Clone, PartialEq, Eq)]
pub enum Action {
    /// Answer at once with this reply.
    Answer(Reply),
    /// Fetch the network gas price, then build the reply with [`gas_price_reply`].
    FetchGasPrice,
    /// Fetch the balance of the 20-byte `address`, then build the reply with
    /// [`balance_reply`] over the raw token.
    FetchBalance { address: Vec<u8>, raw: String },
    /// Drop the query silently: no answer at all.
    NoAnswer,
}

impl View for Action {
    type V = ActionSpec;

    open spec fn view(&self) -> ActionSpec {
        match self {
            Action::Answer(r) => ActionSpec::Answer(r@),
            Action::FetchGasPrice => ActionSpec::FetchGasPrice,
            Action::FetchBalance { address, raw } => ActionSpec::FetchBalance {
                address: address@,
                raw: raw@,
            },
            Action::NoAnswer => ActionSpec::NoAnswer,
        }
    }
}

pub open spec fn spec_usage_reply() -> ReplySpec {
    ReplySpec {
        id: "usage"@,
        title: "Command usage"@,
        body: "Use `gas` or `balance <eth address>`"@,
    }
}

pub open spec fn spec_account_needed_reply() -> ReplySpec {
    ReplySpec { id: "Account needed"@, title: "Account needed"@, body: "Usage: `balance <account>`"@ }
}

pub open spec fn spec_fail_cmd_reply() -> ReplySpec {
    ReplySpec {
        id: "fail cmd"@,
        title: "Failed to run your command"@,
        body: "Cannot run your command"@,
    }
}

/// The reply for a gas-price fetch: success embeds the decimal value, and
/// failure still answers, with the fixed fetch-failure reply.
pub open spec fn spec_gas_price_reply(fetched: Result<Seq<char>, ChainError>) -> ReplySpec {
    match fetched {
        Ok(v) => ReplySpec {
            id: "gas price"@,
            title: "Gas Price is "@ + v,
            body: "Current gas price of ethereum is "@ + v,
        },
        Err(_) => ReplySpec {
            id: "fail"@,
            title: "Failed to fetch gas price"@,
            body: "Failed to fetch gas price"@,
        },
    }
}

/// The reply for a balance fetch: success embeds the raw address token and
/// the decimal value, and failure drops the query silently.
pub open spec fn spec_balance_reply(raw: Seq<char>, fetched: Result<Seq<char>, ChainError>) -> Option<
    ReplySpec,
> {
    match fetched {
        Ok(v) => Some(
            ReplySpec {
                id: "balance "@ + raw,
                title: "Balance of account "@ + raw + " is "@ + v,
                body: "Balance of account "@ + raw + " is "@ + v,
            },
        ),
        Err(_) => None,
    }
}

/// What the handler does with each command: an immediate reply for `Usage`
/// and `BalanceMissingArg`, a fetch for `GasPrice`, a fetch for a `Balance`
/// whose token is a valid address and a silent drop for one that is not,
/// and for `Unknown` a visible failure reply exactly when the query had two
/// tokens, a silent drop otherwise.
pub open spec fn spec_plan(c: SpecCommand) -> ActionSpec {
    match c {
        SpecCommand::Usage => ActionSpec::Answer(spec_usage_reply()),
        SpecCommand::BalanceMissingArg => ActionSpec::Answer(spec_account_needed_reply()),
        SpecCommand::GasPrice => ActionSpec::FetchGasPrice,
        SpecCommand::Balance(addr) => match spec_parse_address(addr) {
            Some(bytes) => ActionSpec::FetchBalance { address: bytes, raw: addr },
            None => ActionSpec::NoAnswer,
        },
        SpecCommand::Unknown { tokens } => if tokens == 2 {
            ActionSpec::Answer(spec_fail_cmd_reply())
        } else {
            ActionSpec::NoAnswer
        },
    }
}

/// The usage reply, answered when no tokens were given.
pub fn usage_reply() -> (r: Reply)
    ensures
        r@ == spec_usage_reply(),
{
    Reply {
        id: String::from_str("usage"),
        title: String::from_str("Command usage"),
        body: String::from_str("Use `gas` or `balance <eth address>`"),
    }
}

/// The reply prompting for an account, answered when the balance verb came
/// without an address.
pub fn account_needed_reply() -> (r: Reply)
    ensures
        r@ == spec_account_needed_reply(),
{
    Reply {
        id: String::from_str("Account needed"),
        title: String::from_str("Account needed"),
        body: String::from_str("Usage: `balance <account>`"),
    }
}

/// The visible failure reply for a two-token query with an unknown verb.
pub fn fail_cmd_reply() -> (r: Reply)
    ensures
        r@ == spec_fail_cmd_reply(),
{
    Reply {
        id: String::from_str("fail cmd"),
        title: String::from_str("Failed to run your command"),
        body: String::from_str("Cannot run your command"),
    }
}

/// Decide what to do for one parsed command.
pub fn plan(cmd: Command) -> (a: Action)
    ensures
        a@ == spec_plan(cmd@),
{
    match cmd {
        Command::Usage => Action::Answer(usage_reply()),
        Command::BalanceMissingArg => Action::Answer(account_needed_reply()),
        Command::GasPrice => Action::FetchGasPrice,
        Command::Balance(addr) => match parse_eth_address(addr.as_str()) {
            Some(bytes) => Action::FetchBalance { address: bytes, raw: addr },
            None => Action::NoAnswer,
        },
        Command::Unknown { tokens } => if tokens == 2 {
            Action::Answer(fail_cmd_reply())
        } else {
            Action::NoAnswer
        },
    }
}

/// Build the reply for a finished gas-price fetch; it always answers.
pub fn gas_price_reply(fetched: Fetched) -> (r: Reply)
    ensures
        r@ == spec_gas_price_reply(fetched_view(fetched)),
{
    match fetched {
        Ok(v) => Reply {
            id: String::from_str("gas price"),
            title: String::from_str("Gas Price is ").concat(v.as_str()),
            body: String::from_str("Current gas price of ethereum is ").concat(v.as_str()),
        },
        Err(_) => Reply {
            id: String::from_str("fail"),
            title: String::from_str("Failed to fetch gas price"),
            body: String::from_str("Failed to fetch gas price"),
        },
    }
}

/// Build the reply for a finished balance fetch over the raw address token;
/// a failed fetch yields no reply at all.
pub fn balance_reply(raw: &str, fetched: Fetched) -> (r: Option<Reply>)
    ensures
        match r {
            Some(rep) => spec_balance_reply(raw@, fetched_view(fetched)) == Some(rep@),
            None => spec_balance_reply(raw@, fetched_view(fetched)) is None,
        },
{
    match fetched {
        Ok(v) => {
            let line = String::from_str("Balance of account ").concat(raw).concat(" is ").concat(
                v.as_str(),
            );
            Some(
                Reply {
                    id: String::from_str("balance ").concat(raw),
                    title: line.clone(),
                    body: line,
                },
            )
        },
        Err(_) => None,
    }
}

} // verus!
