use vstd::prelude::*;
use vstd::string::*;

verus! {

/// Why an invocation failed. A failed invocation changes nothing.
#[derive(Clone, Debug, PartialEq, Eq)]
pub enum ContractError {
    /// A deposit notification came from someone other than the accepted token's ledger.
    UnsupportedToken { supported: String, given: String },
    /// A withdrawal was asked for by someone other than the admin.
    Unauthorized { given: String },
    /// The exchange-rate product or the running total would not fit in 128 bits.
    Overflow,
    /// The configuration record has not been written yet.
    ConfigNotFound,
    /// The stored configuration record could not be decoded.
    StorageCorruption { detail: String },
}

pub open spec fn unsupported_token_text(supported: Seq<char>, given: Seq<char>) -> Seq<char> {
    "This token is not supported. Supported: "@ + supported + ", given: "@ + given
}

pub open spec fn storage_corruption_text(detail: Seq<char>) -> Seq<char> {
    "Stored configuration is corrupted: "@ + detail
}

impl ContractError {
    /// The text reported to the caller for this error.
    pub fn message(&self) -> (r: String)
        ensures
            self matches ContractError::UnsupportedToken { supported, given } ==> r@
                == unsupported_token_text(supported@, given@),
            self is Unauthorized ==> r@ == "unauthorized"@,
            self is Overflow ==> r@ == "arithmetic overflow"@,
            self is ConfigNotFound ==> r@ == "configuration not found"@,
            self matches ContractError::StorageCorruption { detail } ==> r@
                == storage_corruption_text(detail@),
    {
        match self {
            ContractError::UnsupportedToken { supported, given } => {
                let mut s = String::from_str("This token is not supported. Supported: ");
                s.append(supported.as_str());
                s.append(", given: ");
                s.append(given.as_str());
                s
            },
            ContractError::Unauthorized { .. } => String::from_str("unauthorized"),
            ContractError::Overflow => String::from_str("arithmetic overflow"),
            ContractError::ConfigNotFound => String::from_str("configuration not found"),
            ContractError::StorageCorruption { detail } => {
                let mut s = String::from_str("Stored configuration is corrupted: ");
                s.append(detail.as_str());
                s
            },
        }
    }
}

} // verus!
