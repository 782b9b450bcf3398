use vstd::prelude::*;

use secret_cosmwasm_std::{CosmosMsg, HumanAddr, StdError, Uint128};
use secret_toolkit::snip20;

use crate::contract::{
    SetupInstruction, TransferInstruction, REGISTER_BLOCK_SIZE, RESPONSE_BLOCK_SIZE,
};

verus! {

/// An encoded call to a token ledger, ready to hand to the host. The message type's
/// schema bound keeps it from being declared to the verifier, so it is held here, out of
/// the verifier's sight, and only carried through.
#[verifier::external_body]
#[derive(Debug)]
pub struct LedgerMsg {
    pub msg: CosmosMsg,
}

#[verifier::external_type_specification]
#[verifier::external_body]
pub struct ExStdError(StdError);

/// The call that `snip20::transfer_msg` encodes for a recipient, an amount, a block size,
/// and the ledger's code hash and address.
pub uninterp spec fn transfer_msg_of(
    recipient: Seq<char>,
    amount: u128,
    block_size: usize,
    code_hash: Seq<char>,
    address: Seq<char>,
) -> LedgerMsg;

/// The call that `snip20::register_receive_msg` encodes for a subscriber's code hash, a
/// block size, and the ledger's code hash and address.
pub uninterp spec fn register_receive_msg_of(
    code_hash: Seq<char>,
    block_size: usize,
    token_hash: Seq<char>,
    token_address: Seq<char>,
) -> LedgerMsg;

/// The call that `snip20::set_viewing_key_msg` encodes for a key, a block size, and the
/// ledger's code hash and address.
pub uninterp spec fn set_viewing_key_msg_of(
    key: Seq<char>,
    block_size: usize,
    token_hash: Seq<char>,
    token_address: Seq<char>,
) -> LedgerMsg;

/// The ledger call that carries out `t`.
pub open spec fn transfer_call(t: TransferInstruction, block_size: usize) -> LedgerMsg {
    transfer_msg_of(t.recipient@, t.amount, block_size, t.token.contract_hash@, t.token.address@)
}

/// The ledger call that carries out `s`: the subscription unpadded, the viewing key padded
/// like every other message.
pub open spec fn setup_call(s: SetupInstruction) -> LedgerMsg {
    match s {
        SetupInstruction::RegisterReceive { code_hash, token } => register_receive_msg_of(
            code_hash@,
            REGISTER_BLOCK_SIZE,
            token.contract_hash@,
            token.address@,
        ),
        SetupInstruction::SetViewingKey { key, token } => set_viewing_key_msg_of(
            key@,
            RESPONSE_BLOCK_SIZE,
            token.contract_hash@,
            token.address@,
        ),
    }
}

/// Relies on secret_toolkit's `snip20::transfer_msg`: the call that asks the token's
/// ledger to move `t.amount` to `t.recipient`, padded to `block_size`. It only serializes
/// strings and an amount, so it always succeeds, and its result depends on its arguments
/// alone.
#[verifier::external_body]
fn transfer_msg(t: &TransferInstruction, block_size: usize) -> (r: Result<LedgerMsg, StdError>)
    ensures
        r is Ok,
        r->Ok_0 == transfer_msg_of(t.recipient@, t.amount, block_size, t.token.contract_hash@, t.token.address@),
{
    match snip20::transfer_msg(
        HumanAddr(t.recipient.clone()),
        Uint128(t.amount),
        None,
        None,
        block_size,
        t.token.contract_hash.clone(),
        HumanAddr(t.token.address.clone()),
    ) {
        Ok(msg) => Ok(LedgerMsg { msg }),
        Err(e) => Err(e),
    }
}

/// Relies on secret_toolkit's `snip20::register_receive_msg`: the call that subscribes a
/// contract with code hash `code_hash` to the ledger's deposit notifications. It only
/// serializes strings, so it always succeeds, and its result depends on its arguments alone.
#[verifier::external_body]
fn register_receive_msg(
    code_hash: &String,
    block_size: usize,
    token_hash: &String,
    token_address: &String,
) -> (r: Result<LedgerMsg, StdError>)
    ensures
        r is Ok,
        r->Ok_0 == register_receive_msg_of(code_hash@, block_size, token_hash@, token_address@),
{
    match snip20::register_receive_msg(
        code_hash.clone(),
        None,
        block_size,
        token_hash.clone(),
        HumanAddr(token_address.clone()),
    ) {
        Ok(msg) => Ok(LedgerMsg { msg }),
        Err(e) => Err(e),
    }
}

/// Relies on secret_toolkit's `snip20::set_viewing_key_msg`: the call that registers
/// `key` as the viewing key of the calling contract at the ledger. It only serializes
/// strings, so it always succeeds, and its result depends on its arguments alone.
#[verifier::external_body]
fn set_viewing_key_msg(
    key: &String,
    block_size: usize,
    token_hash: &String,
    token_address: &String,
) -> (r: Result<LedgerMsg, StdError>)
    ensures
        r is Ok,
        r->Ok_0 == set_viewing_key_msg_of(key@, block_size, token_hash@, token_address@),
{
    match snip20::set_viewing_key_msg(
        key.clone(),
        None,
        block_size,
        token_hash.clone(),
        HumanAddr(token_address.clone()),
    ) {
        Ok(msg) => Ok(LedgerMsg { msg }),
        Err(e) => Err(e),
    }
}

/// The ledger calls that carry out `transfers`, one each and in the same order.
pub fn transfer_messages(transfers: &Vec<TransferInstruction>, block_size: usize) -> (r: Vec<
    LedgerMsg,
>)
    ensures
        r@.len() == transfers@.len(),
        forall|i: int| 0 <= i < r@.len() ==> r@[i] == transfer_call(#[trigger] transfers@[i], block_size),
{
    let mut msgs: Vec<LedgerMsg> = Vec::new();
    let mut i: usize = 0;
    while i < transfers.len()
        invariant
            i <= transfers@.len(),
            msgs@.len() == i,
            forall|j: int| 0 <= j < i ==> msgs@[j] == transfer_call(#[trigger] transfers@[j], block_size),
        decreases transfers@.len() - i,
    {
        match transfer_msg(&transfers[i], block_size) {
            Ok(m) => msgs.push(m),
            Err(_) => {},
        }
        i = i + 1;
    }
    msgs
}

/// The ledger calls that carry out `setup`, one each and in the same order.
pub fn setup_messages(setup: &Vec<SetupInstruction>) -> (r: Vec<LedgerMsg>)
    ensures
        r@.len() == setup@.len(),
        forall|i: int| 0 <= i < r@.len() ==> r@[i] == setup_call(#[trigger] setup@[i]),
{
    let mut msgs: Vec<LedgerMsg> = Vec::new();
    let mut i: usize = 0;
    while i < setup.len()
        invariant
            i <= setup@.len(),
            msgs@.len() == i,
            forall|j: int| 0 <= j < i ==> msgs@[j] == setup_call(#[trigger] setup@[j]),
        decreases setup@.len() - i,
    {
        let encoded = match &setup[i] {
            SetupInstruction::RegisterReceive { code_hash, token } => register_receive_msg(
                code_hash,
                REGISTER_BLOCK_SIZE,
                &token.contract_hash,
                &token.address,
            ),
            SetupInstruction::SetViewingKey { key, token } => set_viewing_key_msg(
                key,
                RESPONSE_BLOCK_SIZE,
                &token.contract_hash,
                &token.address,
            ),
        };
        match encoded {
            Ok(m) => msgs.push(m),
            Err(_) => {},
        }
        i = i + 1;
    }
    msgs
}

} // verus!
