//! The update loop's state machine and the per-query pipeline.
//!
//! The loop starts in `Listening` and pulls one inbound update per cycle:
//! a stream error terminates it, an inline query runs the parse → plan →
//! reply pipeline, and every other update kind is ignored. Updates are
//! handled strictly one at a time, so answers leave in the order the
//! queries came in; [`lemma_session_sequencing`] states that law.

use vstd::prelude::*;

use crate::address::spec_parse_address;
use crate::command::SpecCommand;
use crate::command::spec_parse;
use crate::command::parse;
use crate::handler::Action;
use crate::handler::ActionSpec;
use crate::handler::ChainError;
use crate::handler::ReplySpec;
use crate::handler::spec_balance_reply;
use crate::handler::spec_fail_cmd_reply;
use crate::handler::spec_gas_price_reply;
use crate::handler::spec_plan;
use crate::handler::plan;

verus! {

/// The two states of the update loop; `Terminated` is terminal.
#[derive(Debug, Clone, Copy, PartialEq, Eq, Structural)]
pub enum LoopState {
    Listening,
    Terminated,
}

/// One inbound item from the chat-platform collaborator's update stream.
pub enum InboundSpec {
    /// An inline query: an opaque query id and the raw query text.
    InlineQuery { query_id: Seq<char>, text: Seq<char> },
    /// A message or any other update kind; ignored.
    OtherUpdate,
    /// The stream errored; fatal for the process.
    StreamError,
}

/// One inbound item from the chat-platform collaborator's update stream.
#[derive(Debug, Clone, PartialEq, Eq)]
pub enum Inbound {
    /// An inline query: an opaque query id and the raw query text.
    InlineQuery { query_id: String, text: String },
    /// A message or any other update kind; ignored.
    OtherUpdate,
    /// The stream errored; fatal for the process.
    StreamError,
}

impl View for Inbound {
    type V = InboundSpec;

    open spec fn view(&self) -> InboundSpec {
        match self {
            Inbound::InlineQuery { query_id, text } => InboundSpec::InlineQuery {
                query_id: query_id@,
                text: text@,
            },
            Inbound::OtherUpdate => InboundSpec::OtherUpdate,
            Inbound::StreamError => InboundSpec::StreamError,
        }
    }
}

/// What one loop cycle does with the inbound item.
#[derive(Debug, Clone, Copy, PartialEq, Eq, Structural)]
pub enum LoopDecision {
    /// Run the query pipeline for this inline query.
    HandleQuery,
    /// Ignore the update and keep listening.
    Ignore,
    /// Stop the loop; the stream error is the process's exit condition.
    Stop,
}

/// The loop's transition table: a stream error terminates, an inline query
/// is handled, everything else is ignored; `Terminated` absorbs.
pub open spec fn spec_loop_step(state: LoopState, update: InboundSpec) -> (LoopState, LoopDecision) {
    match state {
        LoopState::Terminated => (LoopState::Terminated, LoopDecision::Stop),
        LoopState::Listening => match update {
            InboundSpec::StreamError => (LoopState::Terminated, LoopDecision::Stop),
            InboundSpec::InlineQuery { .. } => (LoopState::Listening, LoopDecision::HandleQuery),
            InboundSpec::OtherUpdate => (LoopState::Listening, LoopDecision::Ignore),
        },
    }
}

/// Advance the update loop by one inbound item.
pub fn loop_step(state: LoopState, update: &Inbound) -> (r: (LoopState, LoopDecision))
    ensures
        r == spec_loop_step(state, update@),
{
    match state {
        LoopState::Terminated => (LoopState::Terminated, LoopDecision::Stop),
        LoopState::Listening => match update {
            Inbound::StreamError => (LoopState::Terminated, LoopDecision::Stop),
            Inbound::InlineQuery { .. } => (LoopState::Listening, LoopDecision::HandleQuery),
            Inbound::OtherUpdate => (LoopState::Listening, LoopDecision::Ignore),
        },
    }
}

/// What one query's pipeline asks of the caller.
pub open spec fn spec_dispatch(text: Seq<char>) -> ActionSpec {
    spec_plan(spec_parse(text))
}

/// Parse one raw query and decide what its handler does: the whole
/// per-query pipeline up to the blockchain round trip.
pub fn dispatch(text: &str) -> (a: Action)
    ensures
        a@ == spec_dispatch(text@),
{
    plan(parse(text))
}

/// One inline query together with what the blockchain collaborator would
/// return while it is handled: the decimal rendering of the gas price and
/// of the balance, or a failed call.
pub struct QueryCycle {
    pub query_id: Seq<char>,
    pub text: Seq<char>,
    pub gas: Result<Seq<char>, ChainError>,
    pub balance: Result<Seq<char>, ChainError>,
}

/// The answer one query cycle produces, if any.
pub open spec fn spec_answer(q: QueryCycle) -> Option<ReplySpec> {
    match spec_dispatch(q.text) {
        ActionSpec::Answer(r) => Some(r),
        ActionSpec::FetchGasPrice => Some(spec_gas_price_reply(q.gas)),
        ActionSpec::FetchBalance { raw, .. } => spec_balance_reply(raw, q.balance),
        ActionSpec::NoAnswer => None,
    }
}

/// Gas-price law: a query that asks for the gas price is always answered,
/// never dropped. A successful fetch embeds the value's decimal digits in
/// the body, and a failed fetch answers with the fixed failure reply.
pub proof fn lemma_gas_price_always_answers(q: QueryCycle)
    requires
        spec_dispatch(q.text) == ActionSpec::FetchGasPrice,
    ensures
        spec_answer(q) is Some,
        q.gas matches Ok(v) ==> spec_answer(q) == Some(spec_gas_price_reply(q.gas))
            && spec_gas_price_reply(q.gas).body == "Current gas price of ethereum is "@ + v,
        q.gas is Err ==> spec_answer(q) == Some(spec_gas_price_reply(q.gas)),
{
}

/// Silent-drop law for bad addresses: a balance query whose address token
/// is not valid hexadecimal yields no reply at all, not an error reply,
/// whatever the blockchain collaborator would have answered.
pub proof fn lemma_invalid_address_is_dropped(q: QueryCycle, addr: Seq<char>)
    requires
        spec_parse(q.text) == SpecCommand::Balance(addr),
        spec_parse_address(addr) is None,
    ensures
        spec_answer(q) is None,
{
}

/// Unknown-command law: a malformed one-token query is dropped silently,
/// while a malformed two-token query gets the visible failure reply; any
/// longer malformed query is dropped silently too.
pub proof fn lemma_unknown_reply_policy(q: QueryCycle, tokens: nat)
    requires
        spec_parse(q.text) == (SpecCommand::Unknown { tokens }),
    ensures
        tokens == 2 ==> spec_answer(q) == Some(spec_fail_cmd_reply()),
        tokens != 2 ==> spec_answer(q) is None,
{
}

/// The outbound answers of a whole session, processed strictly one query
/// at a time, each addressed to its query's id.
pub open spec fn session_outbound(qs: Seq<QueryCycle>) -> Seq<(Seq<char>, Option<ReplySpec>)>
    decreases qs.len(),
{
    if qs.len() == 0 {
        Seq::empty()
    } else {
        seq![(qs[0].query_id, spec_answer(qs[0]))] + session_outbound(qs.drop_first())
    }
}

/// Sequencing law: a session of inline queries yields one outbound slot per
/// query, in order; the nth outbound answer is addressed to the nth query's
/// id and is exactly what that query's own cycle produces, with no
/// interleaving between queries.
pub proof fn lemma_session_sequencing(qs: Seq<QueryCycle>)
    ensures
        session_outbound(qs).len() == qs.len(),
        forall|i: int|
            0 <= i < qs.len() ==> session_outbound(qs)[i] == (qs[i].query_id, spec_answer(qs[i])),
    decreases qs.len(),
{
    if qs.len() > 0 {
        lemma_session_sequencing(qs.drop_first());
        assert forall|i: int|
            0 <= i < qs.len() implies session_outbound(qs)[i] == (
        qs[i].query_id,
        spec_answer(qs[i]),
        ) by {
            if i > 0 {
                assert(qs.drop_first()[i - 1] == qs[i]);
            }
        }
    }
}

} // verus!
