use vstd::prelude::*;

use crate::error::ContractError;
use crate::ledger::{transfer_call, transfer_messages, LedgerMsg};
use crate::msg::{ConfigResponse, HandleMsg, InitMsg, QueryMsg};
use crate::state::{ForwardPolicy, SecretContract, State};

verus! {

/// Messages to token ledgers are padded to blocks of this many bytes.
pub const RESPONSE_BLOCK_SIZE: usize = 256;

/// The subscription to deposit notifications is sent unpadded.
pub const REGISTER_BLOCK_SIZE: usize = 1;

/// A transfer for the host to carry out once this invocation has committed.
#[derive(Clone, Debug, PartialEq, Eq)]
pub struct TransferInstruction {
    pub token: SecretContract,
    pub recipient: String,
    pub amount: u128,
}

/// A call to a token ledger made once, when the contract is created.
#[derive(Clone, Debug, PartialEq, Eq)]
pub enum SetupInstruction {
    /// Subscribe the contract, known by its code hash, to the ledger's deposit notifications.
    RegisterReceive { code_hash: String, token: SecretContract },
    /// Register the key that authenticates the contract's balance queries.
    SetViewingKey { key: String, token: SecretContract },
}

/// A deposit notification, whatever its shape, reduced to what settlement reads.
#[derive(Clone, Debug, PartialEq, Eq)]
pub struct DepositEvent {
    pub from: String,
    pub amount: u128,
    pub payload: Option<Vec<u8>>,
}

/// A state-changing message after normalization.
#[derive(Clone, Debug, PartialEq, Eq)]
pub enum Request {
    Deposit(DepositEvent),
    Withdraw { amount: u128 },
}

/// A balance query for the host to run against a token ledger.
#[derive(Clone, Debug, PartialEq, Eq)]
pub struct BalanceQuery {
    pub holder: String,
    pub key: String,
    pub token: SecretContract,
}

/// What answering a query takes: an answer at hand, or a balance query to run.
#[derive(Clone, Debug, PartialEq, Eq)]
pub enum QueryAction {
    Config(ConfigResponse),
    Balance(BalanceQuery),
}

pub open spec fn seq_result<T>(r: Result<Vec<T>, ContractError>) -> Result<Seq<T>, ContractError> {
    match r {
        Ok(v) => Ok(v@),
        Err(e) => Err(e),
    }
}

pub open spec fn init_state(sender: String, contract_address: String, msg: InitMsg) -> State {
    State {
        accepted_token: msg.accepted_token,
        admin: sender,
        offered_token: msg.offered_token,
        exchange_rate: msg.exchange_rate,
        contract_address,
        total_raised: 0,
        viewing_key: msg.viewing_key,
        forward_policy: msg.forward_policy,
        sale_end_time: None,
    }
}

pub open spec fn setup_instructions(code_hash: String, msg: InitMsg) -> Seq<SetupInstruction> {
    seq![
        SetupInstruction::RegisterReceive { code_hash, token: msg.accepted_token },
        SetupInstruction::SetViewingKey { key: msg.viewing_key, token: msg.offered_token },
    ]
}

pub open spec fn config_response_of(s: State) -> ConfigResponse {
    ConfigResponse {
        accepted_token: s.accepted_token,
        exchange_rate: s.exchange_rate,
        offered_token: s.offered_token,
        admin: s.admin,
        total_raised: s.total_raised,
    }
}

/// Both the offered amount and the new running total fit in 128 bits.
pub open spec fn deposit_fits(s: State, amount: u128) -> bool {
    &&& amount * s.exchange_rate <= u128::MAX
    &&& s.total_raised + amount <= u128::MAX
}

pub open spec fn deposit_transfers(s: State, from: String, amount: u128) -> Seq<TransferInstruction> {
    let pay = TransferInstruction {
        token: s.offered_token,
        recipient: from,
        amount: (amount * s.exchange_rate) as u128,
    };
    match s.forward_policy {
        ForwardPolicy::ImmediateForward => seq![
            pay,
            TransferInstruction { token: s.accepted_token, recipient: s.admin, amount },
        ],
        ForwardPolicy::Accrue => seq![pay],
    }
}

pub open spec fn unsupported_token(s: State, caller: String) -> ContractError {
    ContractError::UnsupportedToken { supported: s.accepted_token.address, given: caller }
}

/// The record after a deposit notification made by `caller`, and the result of the call.
pub open spec fn receive_outcome(s: State, caller: String, from: String, amount: u128) -> (
    State,
    Result<Seq<TransferInstruction>, ContractError>,
) {
    if caller@ != s.accepted_token.address@ {
        (s, Err(unsupported_token(s, caller)))
    } else if !deposit_fits(s, amount) {
        (s, Err(ContractError::Overflow))
    } else {
        (s.with_total((s.total_raised + amount) as u128), Ok(deposit_transfers(s, from, amount)))
    }
}

/// The result of a withdrawal of `amount` asked for by `caller`.
pub open spec fn withdraw_outcome(s: State, caller: String, amount: u128) -> Result<
    Seq<TransferInstruction>,
    ContractError,
> {
    if caller@ != s.admin@ {
        Err(ContractError::Unauthorized { given: caller })
    } else {
        Ok(seq![TransferInstruction { token: s.accepted_token, recipient: s.admin, amount }])
    }
}

pub open spec fn request_of(msg: HandleMsg) -> Request {
    match msg {
        HandleMsg::Receive { from, amount, msg, .. } => Request::Deposit(
            DepositEvent { from, amount, payload: Some(msg) },
        ),
        HandleMsg::Deposit { from, amount } => Request::Deposit(
            DepositEvent { from, amount, payload: None },
        ),
        HandleMsg::WithdrawFunding { amount } => Request::Withdraw { amount },
    }
}

/// The record after `msg` from `caller`, and the result of the call.
pub open spec fn handle_outcome(s: State, caller: String, msg: HandleMsg) -> (
    State,
    Result<Seq<TransferInstruction>, ContractError>,
) {
    match request_of(msg) {
        Request::Deposit(ev) => receive_outcome(s, caller, ev.from, ev.amount),
        Request::Withdraw { amount } => (s, withdraw_outcome(s, caller, amount)),
    }
}

pub open spec fn balance_query_of(s: State, token: SecretContract) -> BalanceQuery {
    BalanceQuery { holder: s.contract_address, key: s.viewing_key, token }
}

pub open spec fn query_action_of(s: State, msg: QueryMsg) -> QueryAction {
    match msg {
        QueryMsg::AcceptedTokenAvailable {  } => QueryAction::Balance(
            balance_query_of(s, s.accepted_token),
        ),
        QueryMsg::Config {  } => QueryAction::Config(config_response_of(s)),
        QueryMsg::OfferedTokenAvailable {  } => QueryAction::Balance(
            balance_query_of(s, s.offered_token),
        ),
    }
}

/// The configuration record of a new contract created by `sender`, and the calls that
/// subscribe it to the accepted token and give it a view of the offered token.
pub fn init(sender: String, contract_address: String, contract_code_hash: String, msg: InitMsg) -> (r: (
    State,
    Vec<SetupInstruction>,
))
    ensures
        r.0 == init_state(sender, contract_address, msg),
        r.1@ == setup_instructions(contract_code_hash, msg),
{
    let state = State {
        accepted_token: msg.accepted_token.duplicate(),
        admin: sender,
        offered_token: msg.offered_token.duplicate(),
        exchange_rate: msg.exchange_rate,
        contract_address,
        total_raised: 0,
        viewing_key: msg.viewing_key.clone(),
        forward_policy: msg.forward_policy,
        sale_end_time: None,
    };
    let mut setup: Vec<SetupInstruction> = Vec::new();
    setup.push(
        SetupInstruction::RegisterReceive {
            code_hash: contract_code_hash,
            token: msg.accepted_token,
        },
    );
    setup.push(SetupInstruction::SetViewingKey { key: msg.viewing_key, token: msg.offered_token });
    assert(setup@ =~= setup_instructions(contract_code_hash, msg));
    (state, setup)
}

/// Succeeds exactly when the one making this call is the accepted token's ledger.
pub fn authenticate_token(state: &State, caller: &String) -> (r: Result<(), ContractError>)
    ensures
        caller@ == state.accepted_token.address@ ==> r is Ok,
        caller@ != state.accepted_token.address@ ==> r == Err::<(), _>(
            unsupported_token(*state, *caller),
        ),
{
    if *caller == state.accepted_token.address {
        Ok(())
    } else {
        Err(
            ContractError::UnsupportedToken {
                supported: state.accepted_token.address.clone(),
                given: caller.clone(),
            },
        )
    }
}

/// Settles a deposit of `amount` on behalf of `from`, notified by `caller`.
pub fn receive(state: &mut State, caller: &String, from: String, amount: u128) -> (r: Result<
    Vec<TransferInstruction>,
    ContractError,
>)
    ensures
        (*final(state), seq_result(r)) == receive_outcome(*old(state), *caller, from, amount),
{
    if let Err(e) = authenticate_token(state, caller) {
        return Err(e);
    }
    let offered = match amount.checked_mul(state.exchange_rate) {
        Some(v) => v,
        None => {
            return Err(ContractError::Overflow);
        },
    };
    let new_total = match state.total_raised.checked_add(amount) {
        Some(v) => v,
        None => {
            return Err(ContractError::Overflow);
        },
    };
    state.total_raised = new_total;
    let mut messages: Vec<TransferInstruction> = Vec::new();
    messages.push(
        TransferInstruction { token: state.offered_token.duplicate(), recipient: from, amount: offered },
    );
    match state.forward_policy {
        ForwardPolicy::ImmediateForward => {
            messages.push(
                TransferInstruction {
                    token: state.accepted_token.duplicate(),
                    recipient: state.admin.clone(),
                    amount,
                },
            );
        },
        ForwardPolicy::Accrue => {},
    }
    assert(messages@ =~= deposit_transfers(*old(state), from, amount));
    assert(*state == old(state).with_total(new_total));
    Ok(messages)
}

/// Sends `amount` of the accepted token to the admin, when the admin asks for it. No local
/// figure bounds the amount: the token's ledger refuses what the contract does not hold.
pub fn withdraw_funding(state: &State, caller: &String, amount: u128) -> (r: Result<
    Vec<TransferInstruction>,
    ContractError,
>)
    ensures
        seq_result(r) == withdraw_outcome(*state, *caller, amount),
{
    if *caller != state.admin {
        return Err(ContractError::Unauthorized { given: caller.clone() });
    }
    let mut messages: Vec<TransferInstruction> = Vec::new();
    messages.push(
        TransferInstruction {
            token: state.accepted_token.duplicate(),
            recipient: state.admin.clone(),
            amount,
        },
    );
    assert(messages@ =~= withdraw_outcome(*state, *caller, amount)->Ok_0);
    Ok(messages)
}

/// Brings both shapes of deposit notification to one form.
pub fn normalize(msg: HandleMsg) -> (r: Request)
    ensures
        r == request_of(msg),
{
    match msg {
        HandleMsg::Receive { from, amount, msg, .. } => Request::Deposit(
            DepositEvent { from, amount, payload: Some(msg) },
        ),
        HandleMsg::Deposit { from, amount } => Request::Deposit(
            DepositEvent { from, amount, payload: None },
        ),
        HandleMsg::WithdrawFunding { amount } => Request::Withdraw { amount },
    }
}

/// Carries out one state-changing message made by `caller`. On failure the record is
/// left as it was.
pub fn handle(state: &mut State, caller: &String, msg: HandleMsg) -> (r: Result<
    Vec<TransferInstruction>,
    ContractError,
>)
    ensures
        (*final(state), seq_result(r)) == handle_outcome(*old(state), *caller, msg),
{
    match normalize(msg) {
        Request::Deposit(ev) => receive(state, caller, ev.from, ev.amount),
        Request::Withdraw { amount } => withdraw_funding(state, caller, amount),
    }
}

/// Carries out one state-changing message made by `caller` and encodes the resulting
/// transfers as ledger calls. The record changes only when the call succeeds.
pub fn execute(state: &mut State, caller: &String, msg: HandleMsg) -> (r: Result<
    Vec<LedgerMsg>,
    ContractError,
>)
    ensures
        ({
            let (next, out) = handle_outcome(*old(state), *caller, msg);
            &&& *final(state) == next
            &&& out is Err ==> r == Err::<Vec<LedgerMsg>, _>(out->Err_0)
            &&& out is Ok ==> (r matches Ok(msgs) && msgs@.len() == out->Ok_0.len() && forall|
                i: int,
            |
                0 <= i < msgs@.len() ==> msgs@[i] == transfer_call(
                    #[trigger] out->Ok_0[i],
                    RESPONSE_BLOCK_SIZE,
                ))
        }),
{
    let transfers = handle(state, caller, msg)?;
    let msgs = transfer_messages(&transfers, RESPONSE_BLOCK_SIZE);
    Ok(msgs)
}

/// The public part of the configuration.
pub fn public_config(state: &State) -> (r: ConfigResponse)
    ensures
        r == config_response_of(*state),
{
    ConfigResponse {
        accepted_token: state.accepted_token.duplicate(),
        exchange_rate: state.exchange_rate,
        offered_token: state.offered_token.duplicate(),
        admin: state.admin.clone(),
        total_raised: state.total_raised,
    }
}

/// The query that asks `token`'s ledger what the contract holds, under its viewing key.
pub fn balance_query(state: &State, token: &SecretContract) -> (r: BalanceQuery)
    ensures
        r == balance_query_of(*state, *token),
{
    BalanceQuery {
        holder: state.contract_address.clone(),
        key: state.viewing_key.clone(),
        token: token.duplicate(),
    }
}

/// The balance query for the accepted token.
pub fn accepted_token_available(state: &State) -> (r: BalanceQuery)
    ensures
        r == balance_query_of(*state, state.accepted_token),
{
    balance_query(state, &state.accepted_token)
}

/// The balance query for the offered token.
pub fn offered_token_available(state: &State) -> (r: BalanceQuery)
    ensures
        r == balance_query_of(*state, state.offered_token),
{
    balance_query(state, &state.offered_token)
}

/// What answering `msg` takes.
pub fn query(state: &State, msg: QueryMsg) -> (r: QueryAction)
    ensures
        r == query_action_of(*state, msg),
{
    match msg {
        QueryMsg::AcceptedTokenAvailable {  } => QueryAction::Balance(
            accepted_token_available(state),
        ),
        QueryMsg::Config {  } => QueryAction::Config(public_config(state)),
        QueryMsg::OfferedTokenAvailable {  } => QueryAction::Balance(
            offered_token_available(state),
        ),
    }
}

} // verus!
