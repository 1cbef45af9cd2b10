//! The guarantees the dispense workflow gives, stated and proved over
//! [`spec_step`]: refusals carry the right status and text, a refused or
//! finished request never submits, a run submits at most once, and what is
//! submitted is exactly the configured transfer to the request's recipient.

use crate::error::ErrorV;
use crate::error::ReplyV;
use crate::flow::ActionV;
use crate::flow::Dispense;
use crate::flow::EventV;
use crate::flow::State;
use crate::flow::TxPlan;
use crate::flow::spec_step;
use crate::wei::Wei;
use vstd::prelude::*;

verus! {

/// What a run of the workflow does on a sequence of chain-call outcomes:
/// the machine it ends in and the actions it asked for, in order.
pub open spec fn spec_run(d: Dispense, evs: Seq<EventV>) -> (Dispense, Seq<ActionV>)
    decreases evs.len(),
{
    if evs.len() == 0 {
        (d, Seq::empty())
    } else {
        let first = spec_step(d, evs[0]);
        let rest = spec_run(first.0, evs.drop_first());
        (rest.0, seq![first.1] + rest.1)
    }
}

/// How many of the actions broadcast a transaction.
pub open spec fn submit_count(actions: Seq<ActionV>) -> nat
    decreases actions.len(),
{
    if actions.len() == 0 {
        0
    } else {
        (if actions[0] is SubmitTx {
            1nat
        } else {
            0nat
        }) + submit_count(actions.drop_first())
    }
}

/// How many submissions are still possible from a state: none once the
/// broadcast was requested or the workflow is over, one before.
pub open spec fn submit_budget(s: State) -> nat {
    match s {
        State::AwaitSubmission { .. } => 0,
        State::Finished => 0,
        _ => 1,
    }
}

/// Whether a planned transaction is the one the request calls for: it goes
/// to the request's recipient, carries exactly the configured amount, and
/// the configured gas price and limit.
pub open spec fn plan_matches_request(d: Dispense, plan: TxPlan) -> bool {
    &&& plan.to == d.recipient
    &&& plan.value == d.params.tokens_per_request
    &&& plan.gas_limit == d.params.gas_limit
    &&& plan.max_fee_per_gas == d.params.gas_price_wei
    &&& plan.max_priority_fee_per_gas == d.params.gas_price_wei
}

/// What the state of a well-run machine witnesses: past the balance checks,
/// the operator's reported balance covered the configured amount and the
/// recipient's reported balance was zero; once a transaction is planned, it
/// is the one the request calls for.
pub open spec fn inv(d: Dispense) -> bool {
    match d.state {
        State::AwaitOperatorBalance => true,
        State::AwaitRecipientBalance { operator_balance } => operator_balance.as_nat()
            >= d.params.tokens_per_request.as_nat(),
        State::AwaitNonce { operator_balance, recipient_balance } => operator_balance.as_nat()
            >= d.params.tokens_per_request.as_nat() && recipient_balance.as_nat() == 0,
        State::AwaitChainId { operator_balance, recipient_balance, .. } => operator_balance.as_nat()
            >= d.params.tokens_per_request.as_nat() && recipient_balance.as_nat() == 0,
        State::AwaitSignature { operator_balance, recipient_balance, plan } => operator_balance.as_nat()
            >= d.params.tokens_per_request.as_nat() && recipient_balance.as_nat() == 0
            && plan_matches_request(d, plan),
        State::AwaitSubmission { operator_balance, recipient_balance, plan } => operator_balance.as_nat()
            >= d.params.tokens_per_request.as_nat() && recipient_balance.as_nat() == 0
            && plan_matches_request(d, plan),
        State::Finished => true,
    }
}

/// A freshly opened workflow satisfies the invariant.
pub proof fn law_new_satisfies_inv(d: Dispense)
    requires
        d.state is AwaitOperatorBalance,
    ensures
        inv(d),
{
}

/// Every step keeps the invariant, and never touches the request's
/// parameters, operator or recipient.
pub proof fn law_step_preserves_inv(d: Dispense, e: EventV)
    requires
        inv(d),
    ensures
        inv(spec_step(d, e).0),
        spec_step(d, e).0.params == d.params,
        spec_step(d, e).0.operator == d.operator,
        spec_step(d, e).0.recipient == d.recipient,
{
}

/// An operator balance below the configured amount is refused at once:
/// status 400 with the fixed insufficient-balance text, the workflow over.
pub proof fn law_insufficient_balance_refused(d: Dispense, b: Wei)
    requires
        d.state is AwaitOperatorBalance,
        b.as_nat() < d.params.tokens_per_request.as_nat(),
    ensures
        spec_step(d, EventV::OperatorBalance(Result::Ok(b))).0.state is Finished,
        spec_step(d, EventV::OperatorBalance(Result::Ok(b))).1 == ActionV::Respond(
            ReplyV::Failure(ErrorV::InsufficientBalance),
        ),
        ReplyV::Failure(ErrorV::InsufficientBalance).status() == 400,
        ErrorV::InsufficientBalance.message() == "Insufficient balance"@,
{
}

/// A recipient whose reported balance is above zero is refused at once:
/// status 400 with the fixed already-funded text, the workflow over.
pub proof fn law_funded_recipient_refused(d: Dispense, b: Wei)
    requires
        d.state is AwaitRecipientBalance,
        b.as_nat() > 0,
    ensures
        spec_step(d, EventV::RecipientBalance(Result::Ok(b))).0.state is Finished,
        spec_step(d, EventV::RecipientBalance(Result::Ok(b))).1 == ActionV::Respond(
            ReplyV::Failure(ErrorV::AlreadyFunded),
        ),
        ReplyV::Failure(ErrorV::AlreadyFunded).status() == 400,
        ErrorV::AlreadyFunded.message() == "Receiver already has a balance greater than 0"@,
{
}

/// Whenever a step asks for a transaction to be signed, the plan is exactly
/// the configured transfer to the request's recipient, and the machine
/// remembers that very plan.
pub proof fn law_plan_matches_request(d: Dispense, e: EventV)
    requires
        inv(d),
    ensures
        spec_step(d, e).1 matches ActionV::BuildAndSign(plan) ==> plan_matches_request(d, plan)
            && spec_step(d, e).0.state == (State::AwaitSignature {
            operator_balance: d.state->AwaitChainId_operator_balance,
            recipient_balance: d.state->AwaitChainId_recipient_balance,
            plan,
        }),
{
}

/// A broadcast is only ever asked for out of a state that witnesses the
/// checks: the plan submitted is the remembered one, which matches the
/// request.
pub proof fn law_submit_only_checked(d: Dispense, e: EventV)
    requires
        inv(d),
        spec_step(d, e).1 is SubmitTx,
    ensures
        d.state matches State::AwaitSignature { operator_balance, recipient_balance, plan } && {
            &&& plan_matches_request(d, plan)
            &&& operator_balance.as_nat() >= d.params.tokens_per_request.as_nat()
            &&& recipient_balance.as_nat() == 0
        },
{
}

/// A successful broadcast is answered with status 200 and exactly the hash
/// the chain returned; the workflow is over.
pub proof fn law_success_reports_submitted_hash(d: Dispense, h: Seq<char>)
    requires
        d.state is AwaitSubmission,
    ensures
        spec_step(d, EventV::Submitted(Result::Ok(h))).0.state is Finished,
        spec_step(d, EventV::Submitted(Result::Ok(h))).1 == ActionV::Respond(ReplyV::Success(h)),
        ReplyV::Success(h).status() == 200,
{
}

/// Over any sequence of chain-call outcomes, a workflow broadcasts at most
/// as often as its state still allows.
pub proof fn law_submit_within_budget(d: Dispense, evs: Seq<EventV>)
    ensures
        submit_count(spec_run(d, evs).1) <= submit_budget(d.state),
    decreases evs.len(),
{
    if evs.len() == 0 {
    } else {
        let first = spec_step(d, evs[0]);
        let rest = spec_run(first.0, evs.drop_first());
        law_submit_within_budget(first.0, evs.drop_first());
        let all = seq![first.1] + rest.1;
        assert(all.drop_first() =~= rest.1);
    }
}

/// A dispense request submits at most one transaction, whatever the chain
/// answers.
pub proof fn law_at_most_one_submission(d: Dispense, evs: Seq<EventV>)
    requires
        d.state is AwaitOperatorBalance,
    ensures
        submit_count(spec_run(d, evs).1) <= 1,
{
    law_submit_within_budget(d, evs);
}

/// A finished workflow never acts again: no further events make it submit.
pub proof fn law_finished_never_submits(d: Dispense, evs: Seq<EventV>)
    requires
        d.state is Finished,
    ensures
        submit_count(spec_run(d, evs).1) == 0,
{
    law_submit_within_budget(d, evs);
}

/// A recipient reported funded is refused with status 400, and no
/// transaction is ever submitted afterwards, whatever events follow.
pub proof fn law_funded_recipient_never_submits(d: Dispense, b: Wei, evs: Seq<EventV>)
    requires
        d.state is AwaitRecipientBalance,
        b.as_nat() > 0,
    ensures
        spec_step(d, EventV::RecipientBalance(Result::Ok(b))).1 == ActionV::Respond(
            ReplyV::Failure(ErrorV::AlreadyFunded),
        ),
        submit_count(spec_run(spec_step(d, EventV::RecipientBalance(Result::Ok(b))).0, evs).1)
            == 0,
{
    law_funded_recipient_refused(d, b);
    law_finished_never_submits(spec_step(d, EventV::RecipientBalance(Result::Ok(b))).0, evs);
}

/// An operator short of funds is refused with status 400, and no
/// transaction is ever submitted afterwards, whatever events follow —
/// whatever the recipient's eligibility would have been.
pub proof fn law_insufficient_balance_never_submits(d: Dispense, b: Wei, evs: Seq<EventV>)
    requires
        d.state is AwaitOperatorBalance,
        b.as_nat() < d.params.tokens_per_request.as_nat(),
    ensures
        spec_step(d, EventV::OperatorBalance(Result::Ok(b))).1 == ActionV::Respond(
            ReplyV::Failure(ErrorV::InsufficientBalance),
        ),
        submit_count(spec_run(spec_step(d, EventV::OperatorBalance(Result::Ok(b))).0, evs).1)
            == 0,
{
    law_insufficient_balance_refused(d, b);
    law_finished_never_submits(spec_step(d, EventV::OperatorBalance(Result::Ok(b))).0, evs);
}

} // verus!
