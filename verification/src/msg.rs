//! The messages of the three entry points, and the payloads they answer
//! with.

use crate::error::ContractError;
use cosmwasm_std::StdError;
use vstd::prelude::*;
use vstd::string::StringSliceAdditionalSpecFns;

verus! {

/// Creates a gated service: only `minter` may register names in it.
#[derive(Debug, Clone, PartialEq, Eq)]
pub struct InstantiateMsg {
    pub minter: String,
}

/// The state-changing requests of a gated service.
#[derive(Debug, Clone, PartialEq, Eq)]
pub enum ExecuteMsg {
    /// Binds `name` to `owner`.
    Register { name: String, owner: String },
}

/// The read-only requests.
#[derive(Debug, Clone, PartialEq, Eq)]
pub enum QueryMsg {
    /// Asks who owns `name`.
    ResolveRecord { name: String },
}

/// The answer to `QueryMsg::ResolveRecord`: the owner of the name, or `None`
/// where the name is not bound.
#[derive(Debug, Clone, PartialEq, Eq)]
pub struct ResolveRecordResponse {
    pub address: Option<String>,
}

/// Payload attached to the result of a state-changing call of the token
/// collection: the number of tokens the collection holds once the call has
/// been applied.
#[derive(Debug, Clone, Copy, PartialEq, Eq, Structural)]
pub struct ExecuteMsgResponse {
    pub num_tokens: u64,
}

/// The decimal digits of a number as ASCII bytes, most significant first,
/// without leading zeros: one `0` for zero.
pub open spec fn decimal_digits(value: nat) -> Seq<u8>
    decreases value,
{
    if value < 10 {
        seq![(0x30 + value) as u8]
    } else {
        decimal_digits(value / 10).push((0x30 + value % 10) as u8)
    }
}

/// The JSON text of an `ExecuteMsgResponse`: an object with the one member
/// `num_tokens`, a number.
pub open spec fn num_tokens_json(num_tokens: u64) -> Seq<u8> {
    "{\"num_tokens\":".spec_bytes() + decimal_digits(num_tokens as nat) + "}".spec_bytes()
}

/// `cosmwasm_std::to_json_vec` on a `u64`: the number in decimal digits. The
/// serializer writes the digits into a growing buffer and has no way to fail
/// on a number.
#[verifier::external_body]
fn u64_to_json_vec(value: u64) -> (json: Result<Vec<u8>, StdError>)
    ensures
        json is Ok,
        json matches Ok(digits) ==> digits@ == decimal_digits(value as nat),
{
    cosmwasm_std::to_json_vec(&value)
}

impl ExecuteMsgResponse {
    /// The payload as JSON bytes.
    pub fn to_json_vec(&self) -> (json: Result<Vec<u8>, ContractError>)
        ensures
            json matches Ok(bytes) && bytes@ == num_tokens_json(self.num_tokens),
    {
        match u64_to_json_vec(self.num_tokens) {
            Ok(digits) => {
                let mut bytes: Vec<u8> = Vec::new();
                bytes.extend_from_slice("{\"num_tokens\":".as_bytes());
                bytes.extend_from_slice(digits.as_slice());
                bytes.extend_from_slice("}".as_bytes());
                assert(bytes@ =~= num_tokens_json(self.num_tokens));
                Ok(bytes)
            },
            Err(error) => Err(ContractError::Std(error)),
        }
    }
}

} // verus!
