//! Typed failures of the transition handlers.

use vstd::prelude::*;
use vstd::string::*;

verus! {

/// Every way a transition can fail. A failing transition leaves the
/// stored configuration exactly as it was and emits no outbound message.
#[derive(Clone, Copy, Debug, PartialEq, Eq, Structural)]
pub enum ContractError {
    /// The caller of an owner-gated operation is not the configured owner.
    Unauthorized,
    /// A configuration read happened before any configuration was stored.
    NotInitialized,
    /// An identity string handed to `instantiate` is malformed.
    InvalidIdentity,
}

impl ContractError {
    /// A human-readable name for the error, for logs and host responses.
    pub fn message(&self) -> (r: String)
        ensures
            *self == ContractError::Unauthorized ==> r@ == "Unauthorized"@,
            *self == ContractError::NotInitialized ==> r@ == "Not initialized"@,
            *self == ContractError::InvalidIdentity ==> r@ == "Invalid identity"@,
    {
        match self {
            ContractError::Unauthorized => String::from_str("Unauthorized"),
            ContractError::NotInitialized => String::from_str("Not initialized"),
            ContractError::InvalidIdentity => String::from_str("Invalid identity"),
        }
    }
}

} // verus!
