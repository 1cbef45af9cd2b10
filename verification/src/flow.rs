//! The dispense workflow: one request, from balance checks to submission.
//!
//! Every remote chain call suspends the workflow, so it is a state machine:
//! [`start`] opens a request, each [`Action`] tells the surrounding server
//! which chain call to perform next, and the call's outcome comes back
//! through [`Dispense::step`] as a [`ChainEvent`]. All decisions — the
//! eligibility checks, the transaction plan, the error texts and status
//! codes — are made here; the server only moves bytes.

use crate::addr::Address;
use crate::addr::decoded_bytes;
use crate::addr::parse_checksummed;
use crate::addr::valid_checksummed_address;
use crate::error::ErrorV;
use crate::error::FaucetError;
use crate::error::Reply;
use crate::error::ReplyV;
use crate::wei::Wei;
use vstd::prelude::*;
use vstd::string::StringExecFns;
use vstd::string::StringSliceAdditionalSpecFns;

verus! {

/// Process-wide dispense parameters, immutable after startup.
#[derive(Clone, Copy, PartialEq, Eq, Structural, Debug)]
pub struct Params {
    /// The fixed amount handed out per request, in wei.
    pub tokens_per_request: Wei,
    /// The fee offered per gas unit, in wei.
    pub gas_price_wei: u128,
    /// The gas allowance of the transfer transaction.
    pub gas_limit: u64,
}

/// The transaction the workflow plans: a plain value transfer.
#[derive(Clone, Copy, PartialEq, Eq, Debug)]
pub struct TxPlan {
    pub to: Address,
    pub value: Wei,
    pub gas_limit: u64,
    pub max_fee_per_gas: u128,
    pub max_priority_fee_per_gas: u128,
    pub nonce: u64,
    pub chain_id: u64,
}

/// Where the workflow stands: which chain call is outstanding. States past
/// a balance check record the balance that was reported, so the state
/// itself witnesses the checks already passed.
#[derive(Clone, Copy, PartialEq, Eq, Debug)]
pub enum State {
    AwaitOperatorBalance,
    AwaitRecipientBalance { operator_balance: Wei },
    AwaitNonce { operator_balance: Wei, recipient_balance: Wei },
    AwaitChainId { operator_balance: Wei, recipient_balance: Wei, nonce: u64 },
    AwaitSignature { operator_balance: Wei, recipient_balance: Wei, plan: TxPlan },
    AwaitSubmission { operator_balance: Wei, recipient_balance: Wei, plan: TxPlan },
    Finished,
}

/// The outcome of one remote chain call, fed back into the workflow. Error
/// payloads carry the remote error text.
pub enum ChainEvent {
    OperatorBalance(Result<Wei, String>),
    RecipientBalance(Result<Wei, String>),
    NonceFetched(Result<u64, String>),
    ChainIdFetched(Result<u64, String>),
    Built(Result<(), String>),
    Submitted(Result<String, String>),
}

/// Ghost form of [`ChainEvent`]: texts as character sequences.
pub enum EventV {
    OperatorBalance(Result<Wei, Seq<char>>),
    RecipientBalance(Result<Wei, Seq<char>>),
    NonceFetched(Result<u64, Seq<char>>),
    ChainIdFetched(Result<u64, Seq<char>>),
    Built(Result<(), Seq<char>>),
    Submitted(Result<Seq<char>, Seq<char>>),
}

impl View for ChainEvent {
    type V = EventV;

    open spec fn view(&self) -> EventV {
        match self {
            ChainEvent::OperatorBalance(r) => EventV::OperatorBalance(
                match r {
                    Result::Ok(b) => Result::Ok(*b),
                    Result::Err(m) => Result::Err(m@),
                },
            ),
            ChainEvent::RecipientBalance(r) => EventV::RecipientBalance(
                match r {
                    Result::Ok(b) => Result::Ok(*b),
                    Result::Err(m) => Result::Err(m@),
                },
            ),
            ChainEvent::NonceFetched(r) => EventV::NonceFetched(
                match r {
                    Result::Ok(n) => Result::Ok(*n),
                    Result::Err(m) => Result::Err(m@),
                },
            ),
            ChainEvent::ChainIdFetched(r) => EventV::ChainIdFetched(
                match r {
                    Result::Ok(n) => Result::Ok(*n),
                    Result::Err(m) => Result::Err(m@),
                },
            ),
            ChainEvent::Built(r) => EventV::Built(
                match r {
                    Result::Ok(_) => Result::Ok(()),
                    Result::Err(m) => Result::Err(m@),
                },
            ),
            ChainEvent::Submitted(r) => EventV::Submitted(
                match r {
                    Result::Ok(h) => Result::Ok(h@),
                    Result::Err(m) => Result::Err(m@),
                },
            ),
        }
    }
}

/// What the surrounding server must do next.
pub enum Action {
    /// Query the balance of the given address (the operator's).
    QueryOperatorBalance(Address),
    /// Query the balance of the given address (the recipient's).
    QueryRecipientBalance(Address),
    /// Query the transaction count (next nonce) of the given address.
    QueryNonce(Address),
    /// Query the network's chain identifier.
    QueryChainId,
    /// Build and sign the planned transaction with the operator wallet.
    BuildAndSign(TxPlan),
    /// Broadcast the signed transaction.
    SubmitTx,
    /// Answer the request with this reply; the workflow is over.
    Respond(Reply),
    /// Nothing: the event did not belong to the workflow's current state.
    Idle,
}

/// Ghost form of [`Action`].
pub enum ActionV {
    QueryOperatorBalance(Address),
    QueryRecipientBalance(Address),
    QueryNonce(Address),
    QueryChainId,
    BuildAndSign(TxPlan),
    SubmitTx,
    Respond(ReplyV),
    Idle,
}

impl View for Action {
    type V = ActionV;

    open spec fn view(&self) -> ActionV {
        match self {
            Action::QueryOperatorBalance(a) => ActionV::QueryOperatorBalance(*a),
            Action::QueryRecipientBalance(a) => ActionV::QueryRecipientBalance(*a),
            Action::QueryNonce(a) => ActionV::QueryNonce(*a),
            Action::QueryChainId => ActionV::QueryChainId,
            Action::BuildAndSign(p) => ActionV::BuildAndSign(*p),
            Action::SubmitTx => ActionV::SubmitTx,
            Action::Respond(r) => ActionV::Respond(r@),
            Action::Idle => ActionV::Idle,
        }
    }
}

/// Error text when a balance query fails.
pub open spec fn balance_fail_msg(m: Seq<char>) -> Seq<char> {
    "Failed to get balance: "@ + m
}

/// Error text when the nonce query fails.
pub open spec fn nonce_fail_msg(m: Seq<char>) -> Seq<char> {
    "Failed to get nonce: "@ + m
}

/// Error text when the chain-id query fails.
pub open spec fn chain_id_fail_msg(m: Seq<char>) -> Seq<char> {
    "Failed to get chain ID: "@ + m
}

/// Error text when building or signing the transaction fails.
pub open spec fn build_fail_msg(m: Seq<char>) -> Seq<char> {
    "Failed to build transaction: "@ + m
}

/// Error text when broadcasting the transaction fails.
pub open spec fn send_fail_msg(m: Seq<char>) -> Seq<char> {
    "Failed to send transaction: "@ + m
}

/// One dispense request in flight.
pub struct Dispense {
    pub params: Params,
    /// The operator wallet's derived address.
    pub operator: Address,
    /// The parsed recipient.
    pub recipient: Address,
    pub state: State,
}

/// The transition function of the workflow: from a machine and the outcome
/// of the pending chain call to the next machine and the next action. An
/// event that does not belong to the current state changes nothing.
pub open spec fn spec_step(d: Dispense, e: EventV) -> (Dispense, ActionV) {
    match (d.state, e) {
        (State::AwaitOperatorBalance, EventV::OperatorBalance(r)) => match r {
            Result::Ok(b) => if b.as_nat() < d.params.tokens_per_request.as_nat() {
                (
                    Dispense { state: State::Finished, ..d },
                    ActionV::Respond(ReplyV::Failure(ErrorV::InsufficientBalance)),
                )
            } else {
                (
                    Dispense { state: State::AwaitRecipientBalance { operator_balance: b }, ..d },
                    ActionV::QueryRecipientBalance(d.recipient),
                )
            },
            Result::Err(m) => (
                Dispense { state: State::Finished, ..d },
                ActionV::Respond(ReplyV::Failure(ErrorV::Upstream(balance_fail_msg(m)))),
            ),
        },
        (State::AwaitRecipientBalance { operator_balance }, EventV::RecipientBalance(r)) => match r {
            Result::Ok(b) => if b.as_nat() > 0 {
                (
                    Dispense { state: State::Finished, ..d },
                    ActionV::Respond(ReplyV::Failure(ErrorV::AlreadyFunded)),
                )
            } else {
                (
                    Dispense {
                        state: State::AwaitNonce { operator_balance, recipient_balance: b },
                        ..d
                    },
                    ActionV::QueryNonce(d.operator),
                )
            },
            Result::Err(m) => (
                Dispense { state: State::Finished, ..d },
                ActionV::Respond(ReplyV::Failure(ErrorV::Upstream(balance_fail_msg(m)))),
            ),
        },
        (State::AwaitNonce { operator_balance, recipient_balance }, EventV::NonceFetched(r)) => match r {
            Result::Ok(n) => (
                Dispense {
                    state: State::AwaitChainId { operator_balance, recipient_balance, nonce: n },
                    ..d
                },
                ActionV::QueryChainId,
            ),
            Result::Err(m) => (
                Dispense { state: State::Finished, ..d },
                ActionV::Respond(ReplyV::Failure(ErrorV::Upstream(nonce_fail_msg(m)))),
            ),
        },
        (
            State::AwaitChainId { operator_balance, recipient_balance, nonce },
            EventV::ChainIdFetched(r),
        ) => match r {
            Result::Ok(id) => {
                let plan = TxPlan {
                    to: d.recipient,
                    value: d.params.tokens_per_request,
                    gas_limit: d.params.gas_limit,
                    max_fee_per_gas: d.params.gas_price_wei,
                    max_priority_fee_per_gas: d.params.gas_price_wei,
                    nonce,
                    chain_id: id,
                };
                (
                    Dispense {
                        state: State::AwaitSignature { operator_balance, recipient_balance, plan },
                        ..d
                    },
                    ActionV::BuildAndSign(plan),
                )
            },
            Result::Err(m) => (
                Dispense { state: State::Finished, ..d },
                ActionV::Respond(ReplyV::Failure(ErrorV::Upstream(chain_id_fail_msg(m)))),
            ),
        },
        (
            State::AwaitSignature { operator_balance, recipient_balance, plan },
            EventV::Built(r),
        ) => match r {
            Result::Ok(_) => (
                Dispense {
                    state: State::AwaitSubmission { operator_balance, recipient_balance, plan },
                    ..d
                },
                ActionV::SubmitTx,
            ),
            Result::Err(m) => (
                Dispense { state: State::Finished, ..d },
                ActionV::Respond(ReplyV::Failure(ErrorV::Build(build_fail_msg(m)))),
            ),
        },
        (State::AwaitSubmission { operator_balance, recipient_balance, plan }, EventV::Submitted(r)) => match r {
            Result::Ok(h) => (
                Dispense { state: State::Finished, ..d },
                ActionV::Respond(ReplyV::Success(h)),
            ),
            Result::Err(m) => (
                Dispense { state: State::Finished, ..d },
                ActionV::Respond(ReplyV::Failure(ErrorV::Submission(send_fail_msg(m)))),
            ),
        },
        _ => (d, ActionV::Idle),
    }
}

impl Dispense {
    /// Opens the workflow for a parsed recipient: the first chain call is
    /// the operator's balance.
    pub fn new(params: Params, operator: Address, recipient: Address) -> (r: (Dispense, Action))
        ensures
            r.0 == (Dispense { params, operator, recipient, state: State::AwaitOperatorBalance }),
            r.1@ == ActionV::QueryOperatorBalance(operator),
    {
        (
            Dispense { params, operator, recipient, state: State::AwaitOperatorBalance },
            Action::QueryOperatorBalance(operator),
        )
    }

    /// Feeds the outcome of the pending chain call into the workflow and
    /// returns what to do next, exactly as [`spec_step`] says.
    pub fn step(&mut self, e: ChainEvent) -> (a: Action)
        ensures
            *final(self) == spec_step(*old(self), e@).0,
            a@ == spec_step(*old(self), e@).1,
    {
        match (self.state, e) {
            (State::AwaitOperatorBalance, ChainEvent::OperatorBalance(r)) => match r {
                Result::Ok(b) => {
                    if b.lt(&self.params.tokens_per_request) {
                        self.state = State::Finished;
                        Action::Respond(Reply::Failure(FaucetError::InsufficientBalance))
                    } else {
                        self.state = State::AwaitRecipientBalance { operator_balance: b };
                        Action::QueryRecipientBalance(self.recipient)
                    }
                },
                Result::Err(m) => {
                    self.state = State::Finished;
                    let mut msg = "Failed to get balance: ".to_owned();
                    msg.append(m.as_str());
                    Action::Respond(Reply::Failure(FaucetError::UpstreamError(msg)))
                },
            },
            (
                State::AwaitRecipientBalance { operator_balance },
                ChainEvent::RecipientBalance(r),
            ) => match r {
                Result::Ok(b) => {
                    if !b.is_zero() {
                        self.state = State::Finished;
                        Action::Respond(Reply::Failure(FaucetError::AlreadyFunded))
                    } else {
                        self.state = State::AwaitNonce { operator_balance, recipient_balance: b };
                        Action::QueryNonce(self.operator)
                    }
                },
                Result::Err(m) => {
                    self.state = State::Finished;
                    let mut msg = "Failed to get balance: ".to_owned();
                    msg.append(m.as_str());
                    Action::Respond(Reply::Failure(FaucetError::UpstreamError(msg)))
                },
            },
            (
                State::AwaitNonce { operator_balance, recipient_balance },
                ChainEvent::NonceFetched(r),
            ) => match r {
                Result::Ok(n) => {
                    self.state = State::AwaitChainId {
                        operator_balance,
                        recipient_balance,
                        nonce: n,
                    };
                    Action::QueryChainId
                },
                Result::Err(m) => {
                    self.state = State::Finished;
                    let mut msg = "Failed to get nonce: ".to_owned();
                    msg.append(m.as_str());
                    Action::Respond(Reply::Failure(FaucetError::UpstreamError(msg)))
                },
            },
            (
                State::AwaitChainId { operator_balance, recipient_balance, nonce },
                ChainEvent::ChainIdFetched(r),
            ) => match r {
                Result::Ok(id) => {
                    let plan = TxPlan {
                        to: self.recipient,
                        value: self.params.tokens_per_request,
                        gas_limit: self.params.gas_limit,
                        max_fee_per_gas: self.params.gas_price_wei,
                        max_priority_fee_per_gas: self.params.gas_price_wei,
                        nonce,
                        chain_id: id,
                    };
                    self.state = State::AwaitSignature { operator_balance, recipient_balance, plan };
                    Action::BuildAndSign(plan)
                },
                Result::Err(m) => {
                    self.state = State::Finished;
                    let mut msg = "Failed to get chain ID: ".to_owned();
                    msg.append(m.as_str());
                    Action::Respond(Reply::Failure(FaucetError::UpstreamError(msg)))
                },
            },
            (
                State::AwaitSignature { operator_balance, recipient_balance, plan },
                ChainEvent::Built(r),
            ) => match r {
                Result::Ok(_) => {
                    self.state = State::AwaitSubmission { operator_balance, recipient_balance, plan };
                    Action::SubmitTx
                },
                Result::Err(m) => {
                    self.state = State::Finished;
                    let mut msg = "Failed to build transaction: ".to_owned();
                    msg.append(m.as_str());
                    Action::Respond(Reply::Failure(FaucetError::BuildError(msg)))
                },
            },
            (
                State::AwaitSubmission { operator_balance, recipient_balance, plan },
                ChainEvent::Submitted(r),
            ) => match r {
                Result::Ok(h) => {
                    self.state = State::Finished;
                    Action::Respond(Reply::Success { transaction_hash: h })
                },
                Result::Err(m) => {
                    self.state = State::Finished;
                    let mut msg = "Failed to send transaction: ".to_owned();
                    msg.append(m.as_str());
                    Action::Respond(Reply::Failure(FaucetError::SubmissionError(msg)))
                },
            },
            _ => Action::Idle,
        }
    }
}

/// Outcome of opening a dispense request.
pub enum StartOutcome {
    /// The recipient string was refused; answer with this reply and make no
    /// chain call.
    Rejected(Reply),
    /// The recipient parsed; run the workflow, beginning with this action.
    Started(Dispense, Action),
}

/// Opens a dispense request for a recipient address string. A string that
/// is not a well-formed checksummed address is refused outright with the
/// invalid-address failure (status 400) and no chain call; otherwise the
/// workflow starts for the address the string spells, with the operator
/// balance query as its first action.
pub fn start(params: Params, operator: Address, s: &str) -> (r: StartOutcome)
    ensures
        r is Started <==> valid_checksummed_address(s.spec_bytes()),
        r matches StartOutcome::Rejected(rep) ==> rep@ == ReplyV::Failure(ErrorV::InvalidAddress)
            && rep@.status() == 400,
        r matches StartOutcome::Started(d, a) ==> {
            &&& d.params == params
            &&& d.operator == operator
            &&& d.recipient.bytes@ == decoded_bytes(s.spec_bytes().subrange(2, 42))
            &&& d.state == State::AwaitOperatorBalance
            &&& a@ == ActionV::QueryOperatorBalance(operator)
        },
{
    match parse_checksummed(s) {
        Option::None => StartOutcome::Rejected(Reply::Failure(FaucetError::InvalidAddress)),
        Option::Some(recipient) => {
            let (d, a) = Dispense::new(params, operator, recipient);
            StartOutcome::Started(d, a)
        },
    }
}

} // verus!
