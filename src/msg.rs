use vstd::prelude::*;

use crate::state::{ForwardPolicy, SecretContract};

verus! {

/// Parameters of the contract's creation.
#[derive(Clone, Debug, PartialEq, Eq)]
pub struct InitMsg {
    pub accepted_token: SecretContract,
    pub offered_token: SecretContract,
    pub exchange_rate: u128,
    pub viewing_key: String,
    pub forward_policy: ForwardPolicy,
}

/// State-changing messages.
#[derive(Clone, Debug, PartialEq, Eq)]
pub enum HandleMsg {
    /// The generic notification of a token ledger that `from` sent `amount` to the contract.
    Receive { sender: String, from: String, amount: u128, msg: Vec<u8> },
    /// The dedicated deposit callback of a token ledger.
    Deposit { from: String, amount: u128 },
    /// The admin takes `amount` of the accepted token out of the contract.
    WithdrawFunding { amount: u128 },
}

/// Read-only messages.
#[derive(Clone, Copy, Debug, PartialEq, Eq)]
pub enum QueryMsg {
    AcceptedTokenAvailable {},
    Config {},
    OfferedTokenAvailable {},
}

/// The payload that a depositor attaches to a transfer.
#[derive(Clone, Copy, Debug, PartialEq, Eq)]
pub enum ReceiveMsg {
    Deposit {},
}

/// The public part of the configuration; the viewing key is never part of it.
#[derive(Clone, Debug, PartialEq, Eq)]
pub struct ConfigResponse {
    pub accepted_token: SecretContract,
    pub exchange_rate: u128,
    pub offered_token: SecretContract,
    pub admin: String,
    pub total_raised: u128,
}

/// What a token ledger reports that the contract holds.
#[derive(Clone, Copy, Debug, PartialEq, Eq)]
pub struct BalanceResponse {
    pub amount: u128,
}

} // verus!
