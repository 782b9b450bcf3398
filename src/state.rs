use vstd::prelude::*;

verus! {

/// Identity of an outside token ledger: its address and the hash of its code.
#[derive(Clone, Debug, PartialEq, Eq)]
pub struct SecretContract {
    pub address: String,
    pub contract_hash: String,
}

/// Per-user record of the data layer.
#[derive(Clone, Copy, Debug, PartialEq, Eq)]
pub struct User {
    pub total_investment: u128,
}

/// What happens to the accepted tokens that a deposit brings in.
#[derive(Clone, Copy, Debug, PartialEq, Eq)]
pub enum ForwardPolicy {
    /// The accepted amount is sent on to the admin in the same step.
    ImmediateForward,
    /// The accepted amount stays with the contract until the admin withdraws it.
    Accrue,
}

/// The contract's single configuration record.
///
/// Everything but `total_raised` is written once, at initialization.
#[derive(Clone, Debug, PartialEq, Eq)]
pub struct State {
    pub accepted_token: SecretContract,
    pub admin: String,
    pub offered_token: SecretContract,
    pub exchange_rate: u128,
    pub contract_address: String,
    pub total_raised: u128,
    pub viewing_key: String,
    pub forward_policy: ForwardPolicy,
    pub sale_end_time: Option<u64>,
}

impl SecretContract {
    /// A copy of this ledger identity.
    pub fn duplicate(&self) -> (r: SecretContract)
        ensures
            r == *self,
    {
        SecretContract { address: self.address.clone(), contract_hash: self.contract_hash.clone() }
    }
}

impl State {
    /// A copy of this record.
    pub fn duplicate(&self) -> (r: State)
        ensures
            r == *self,
    {
        State {
            accepted_token: self.accepted_token.duplicate(),
            admin: self.admin.clone(),
            offered_token: self.offered_token.duplicate(),
            exchange_rate: self.exchange_rate,
            contract_address: self.contract_address.clone(),
            total_raised: self.total_raised,
            viewing_key: self.viewing_key.clone(),
            forward_policy: self.forward_policy,
            sale_end_time: self.sale_end_time,
        }
    }

    /// The record with its running total replaced, every other field kept.
    pub open spec fn with_total(self, total: u128) -> State {
        State { total_raised: total, ..self }
    }

    /// The write-once part of the record agrees with that of `other`.
    pub open spec fn same_terms(self, other: State) -> bool {
        self == other.with_total(self.total_raised)
    }
}

} // verus!
