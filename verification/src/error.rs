//! The errors a call can end in.
//!
//! Every error is terminal for the call that raised it: the call has written
//! nothing, and nothing is retried.

use cosmwasm_std::StdError;
use vstd::prelude::*;

verus! {

/// `cosmwasm_std::StdError`, the error of the layer below: of the storage,
/// and of the validation of addresses. The library only carries such a value
/// from there to the caller and never looks inside it.
#[verifier::external_type_specification]
#[verifier::external_body]
pub struct ExStdError(StdError);

/// Why a call was refused.
#[derive(Debug, PartialEq)]
pub enum ContractError {
    /// The layer below failed; its error is passed on as it came.
    Std(StdError),
    /// The name is already bound. Carries the name as the caller wrote it.
    NameTaken { name: String },
    /// The caller is not the privileged identity. Carries the caller.
    NotOwner { caller: String },
}

/// What a `ContractError` says, with its texts as sequences of characters.
pub enum ContractErrorView {
    Std(StdError),
    NameTaken { name: Seq<char> },
    NotOwner { caller: Seq<char> },
}

impl View for ContractError {
    type V = ContractErrorView;

    open spec fn view(&self) -> ContractErrorView {
        match *self {
            ContractError::Std(e) => ContractErrorView::Std(e),
            ContractError::NameTaken { name } => ContractErrorView::NameTaken { name: name@ },
            ContractError::NotOwner { caller } => ContractErrorView::NotOwner { caller: caller@ },
        }
    }
}

} // verus!
