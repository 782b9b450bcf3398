//! Settlement core of a token-exchange contract: deposits of an accepted token, notified
//! by that token's own ledger, are paid back in an offered token at a fixed rate; the
//! admin may withdraw accepted tokens; balances are asked of the ledgers themselves.

pub mod contract;
pub mod error;
pub mod ledger;
pub mod lemmas;
pub mod msg;
pub mod state;
