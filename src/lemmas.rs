use vstd::prelude::*;

use crate::contract::{
    config_response_of, deposit_fits, handle_outcome, init_state, receive_outcome, request_of,
    Request, TransferInstruction,
};
use crate::error::ContractError;
use crate::msg::{ConfigResponse, HandleMsg, InitMsg};
use crate::state::{ForwardPolicy, State};

verus! {

/// The record after each of `calls`, a caller and a message, is handled in turn.
pub open spec fn run(s: State, calls: Seq<(String, HandleMsg)>) -> State
    decreases calls.len(),
{
    if calls.len() == 0 {
        s
    } else {
        run(handle_outcome(s, calls[0].0, calls[0].1).0, calls.drop_first())
    }
}

/// The deposit that `msg` from `caller` settles: its amount if the call succeeds, else zero.
pub open spec fn settled_amount(s: State, caller: String, msg: HandleMsg) -> int {
    match request_of(msg) {
        Request::Deposit(ev) => if handle_outcome(s, caller, msg).1 is Ok {
            ev.amount as int
        } else {
            0
        },
        Request::Withdraw { .. } => 0,
    }
}

/// The sum of the deposits that `calls`, handled in turn, settle.
pub open spec fn total_settled(s: State, calls: Seq<(String, HandleMsg)>) -> int
    decreases calls.len(),
{
    if calls.len() == 0 {
        0
    } else {
        settled_amount(s, calls[0].0, calls[0].1) + total_settled(
            handle_outcome(s, calls[0].0, calls[0].1).0,
            calls.drop_first(),
        )
    }
}

/// A deposit notified by the accepted token's ledger, whose figures fit, raises the
/// running total by exactly the deposit and pays the depositor the deposit times the
/// exchange rate in the offered token; under immediate forwarding a second transfer
/// sends the deposit on to the admin. Where the two tokens differ, the payment is the only
/// transfer of the offered token.
pub proof fn lemma_deposit_settles(s: State, caller: String, from: String, amount: u128)
    requires
        caller@ == s.accepted_token.address@,
        deposit_fits(s, amount),
    ensures
        ({
            let (t, r) = receive_outcome(s, caller, from, amount);
            &&& t.total_raised == s.total_raised + amount
            &&& t.same_terms(s)
            &&& r is Ok
            &&& r->Ok_0.len() == if s.forward_policy == ForwardPolicy::ImmediateForward {
                2int
            } else {
                1int
            }
            &&& r->Ok_0[0].token == s.offered_token
            &&& r->Ok_0[0].recipient == from
            &&& r->Ok_0[0].amount == amount * s.exchange_rate
            &&& s.accepted_token != s.offered_token ==> forall|i: int|
                1 <= i < r->Ok_0.len() ==> (#[trigger] r->Ok_0[i]).token != s.offered_token
        }),
{
}

/// A deposit notification from anyone but the accepted token's ledger fails, naming the
/// ledger and the caller, whatever it claims; the record stays as it was and nothing is
/// sent.
pub proof fn lemma_forged_deposit_rejected(s: State, caller: String, msg: HandleMsg)
    requires
        caller@ != s.accepted_token.address@,
        !(msg is WithdrawFunding),
    ensures
        handle_outcome(s, caller, msg) == (
            s,
            Err::<Seq<TransferInstruction>, _>(
                ContractError::UnsupportedToken { supported: s.accepted_token.address, given: caller },
            ),
        ),
{
}

/// A withdrawal asked for by anyone but the admin fails; nothing changes or is sent.
pub proof fn lemma_withdrawal_needs_admin(s: State, caller: String, amount: u128)
    requires
        caller@ != s.admin@,
    ensures
        handle_outcome(s, caller, HandleMsg::WithdrawFunding { amount }) == (
            s,
            Err::<Seq<TransferInstruction>, _>(ContractError::Unauthorized { given: caller }),
        ),
{
}

/// A withdrawal asked for by the admin sends exactly the amount asked for, of the
/// accepted token, to the admin, whatever the amount and the running total.
pub proof fn lemma_admin_withdrawal_unchecked(s: State, caller: String, amount: u128)
    requires
        caller@ == s.admin@,
    ensures
        handle_outcome(s, caller, HandleMsg::WithdrawFunding { amount }) == (
            s,
            Ok::<_, ContractError>(
                seq![TransferInstruction { token: s.accepted_token, recipient: s.admin, amount }],
            ),
        ),
{
}

/// However many messages are handled, the admin, both tokens, the exchange rate and the
/// rest of the write-once record stay as they were; the configuration answer differs at
/// most in the running total, which never decreases.
pub proof fn lemma_terms_fixed(s: State, calls: Seq<(String, HandleMsg)>)
    ensures
        run(s, calls).same_terms(s),
        run(s, calls).total_raised >= s.total_raised,
        config_response_of(run(s, calls)) == (ConfigResponse {
            total_raised: run(s, calls).total_raised,
            ..config_response_of(s)
        }),
    decreases calls.len(),
{
    if calls.len() > 0 {
        let t = handle_outcome(s, calls[0].0, calls[0].1).0;
        lemma_terms_fixed(t, calls.drop_first());
    }
}

/// However many messages are handled, the running total grows by exactly the sum of the
/// deposits settled among them; failed calls and withdrawals leave it as it was.
pub proof fn lemma_total_is_sum_of_settlements(s: State, calls: Seq<(String, HandleMsg)>)
    ensures
        run(s, calls).total_raised == s.total_raised + total_settled(s, calls),
    decreases calls.len(),
{
    if calls.len() > 0 {
        let t = handle_outcome(s, calls[0].0, calls[0].1).0;
        lemma_total_is_sum_of_settlements(t, calls.drop_first());
    }
}

/// The configuration answer of a new contract gives back the creator as admin, the two
/// tokens and the exchange rate it was created with, and a running total of zero.
pub proof fn lemma_init_config(sender: String, contract_address: String, msg: InitMsg)
    ensures
        config_response_of(init_state(sender, contract_address, msg)) == (ConfigResponse {
            accepted_token: msg.accepted_token,
            exchange_rate: msg.exchange_rate,
            offered_token: msg.offered_token,
            admin: sender,
            total_raised: 0,
        }),
{
}

} // verus!
