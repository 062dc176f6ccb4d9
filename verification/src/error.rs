//! The ways a request can be refused.

use vstd::prelude::*;

verus! {

/// A refusal about the native funds sent along with a message.
#[derive(Clone, Debug, PartialEq, Eq)]
pub enum PaymentError {
    /// The message carried funds where none are accepted.
    NonPayable {},
}

/// A refusal by the admin check.
#[derive(Clone, Debug, PartialEq, Eq)]
pub enum AdminError {
    /// The caller is not the admin.
    NotAdmin {},
}

/// Why the contract refused a request.
#[derive(Clone, Debug, PartialEq, Eq)]
pub enum ContractError {
    /// A failure reported by the chain (an invalid address, a message that
    /// does not parse), with its text.
    Std(String),
    Payment(PaymentError),
    Admin(AdminError),
    /// A transfer of a zero amount.
    NoFunds {},
    /// A transfer over a channel that is not registered.
    NoSuchChannel { id: String },
    /// An allowance that would lower the gas limit of an allowed token.
    CannotLowerGas {},
}

/// Refuses a message that carries native funds.
pub fn nonpayable(funds: &Vec<crate::env::Coin>) -> (r: Result<(), PaymentError>)
    ensures
        r == (if funds@.len() == 0 { Ok(()) } else { Err(PaymentError::NonPayable {}) }),
{
    if funds.len() == 0 {
        Ok(())
    } else {
        Err(PaymentError::NonPayable {})
    }
}

} // verus!
