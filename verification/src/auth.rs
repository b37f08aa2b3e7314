//! Whose consent a call carries.

use crate::book::{Call, CreditBook};
use crate::types::{Address, ContractError};
use vstd::prelude::*;

verus! {

/// The administrator.
pub fn require_admin(book: &CreditBook) -> (result: Result<Address, ContractError>)
    ensures
        result == (match book@.admin {
            Some(admin) => Ok(admin),
            None => Err(ContractError::AdminNotSet),
        }),
{
    match book.admin {
        Some(admin) => Ok(admin),
        None => Err(ContractError::AdminNotSet),
    }
}

/// The administrator, who has to have authorized the call.
pub fn require_admin_auth(book: &CreditBook, call: &Call) -> (result: Result<
    Address,
    ContractError,
>)
    ensures
        result == (match book@.admin_auth_refusal(call@) {
            None => Ok(book@.admin->0),
            Some(reason) => Err(reason),
        }),
{
    match require_admin(book) {
        Err(reason) => Err(reason),
        Ok(admin) => match require_auth(call, admin) {
            Err(reason) => Err(reason),
            Ok(_) => Ok(admin),
        },
    }
}

/// `party` has to have authorized the call.
pub fn require_auth(call: &Call, party: Address) -> (result: Result<(), ContractError>)
    ensures
        result == (if call@.signers.contains(party) {
            Ok(())
        } else {
            Err(ContractError::MissingAuthorization)
        }),
{
    if call.is_authorized_by(party) {
        Ok(())
    } else {
        Err(ContractError::MissingAuthorization)
    }
}

} // verus!
