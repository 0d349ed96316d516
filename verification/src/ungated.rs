//! The entry points of the ungated service: anybody registers a name for
//! itself. There is no gate and no privileged identity; the collision policy
//! is the one of the gated service.

use crate::contract::reply_view;
use crate::error::ContractError;
use crate::model::name_key;
use crate::model::register_reply;
use crate::model::registration_response;
use crate::model::service_of;
use crate::response::empty_response;
use crate::response::Event;
use crate::response::MessageInfo;
use crate::response::Response;
use crate::state::has;
use crate::state::save;
use crate::state::NameRecord;
use cosmwasm_std::MemoryStorage;
use vstd::prelude::*;

verus! {

/// Creates an ungated service. There is nothing to set up.
#[derive(Debug, Clone, PartialEq, Eq)]
pub struct InstantiateMsg {}

/// The state-changing requests of an ungated service.
#[derive(Debug, Clone, PartialEq, Eq)]
pub enum ExecuteMsg {
    /// Binds `name` to the caller.
    Register { name: String },
}

/// Creates the service: an empty success, and nothing is written.
pub fn instantiate(info: &MessageInfo, msg: InstantiateMsg) -> (reply: Result<
    Response,
    ContractError,
>)
    ensures
        reply matches Ok(response) && response@ == empty_response(),
{
    Ok(Response::new())
}

/// Registers `name` for the caller in `info`.
///
/// A name that is bound already stays with its owner, and the call is
/// refused with `NameTaken`, having written nothing. Otherwise the name is
/// bound to the caller and the reply holds the one audit event of the
/// registration, with the caller as owner.
pub fn execute_register(storage: &mut MemoryStorage, info: &MessageInfo, name: String) -> (reply:
    Result<Response, ContractError>)
    ensures
        service_of(*final(storage)) == service_of(*old(storage)).register_self(
            info.sender@,
            name_key(name@),
        ),
        reply_view(reply) == register_reply(
            service_of(*old(storage)).verdict_ungated(name_key(name@)),
            info.sender@,
            name@,
            info.sender@,
        ),
        reply is Err ==> *final(storage) == *old(storage),
{
    if has(storage, name.as_str().as_bytes()) {
        return Err(ContractError::NameTaken { name });
    }
    let record = NameRecord { owner: info.sender.clone() };
    match save(storage, name.as_str().as_bytes(), &record) {
        Ok(()) => {},
        Err(error) => {
            return Err(ContractError::Std(error));
        },
    }
    let event = Event::new("name-register").add_attribute("name", name.as_str()).add_attribute(
        "owner",
        record.owner.as_str(),
    );
    let response = Response::new().add_event(event);
    proof {
        let expected = registration_response(name@, record.owner@);
        assert(event@.attributes =~= expected.events[0].attributes);
        assert(response@.events =~= expected.events);
    }
    Ok(response)
}

/// Carries out a state-changing request.
pub fn execute(storage: &mut MemoryStorage, info: &MessageInfo, msg: ExecuteMsg) -> (reply: Result<
    Response,
    ContractError,
>)
    ensures
        msg matches ExecuteMsg::Register { name } ==> {
            &&& service_of(*final(storage)) == service_of(*old(storage)).register_self(
                info.sender@,
                name_key(name@),
            )
            &&& reply_view(reply) == register_reply(
                service_of(*old(storage)).verdict_ungated(name_key(name@)),
                info.sender@,
                name@,
                info.sender@,
            )
        },
        reply is Err ==> *final(storage) == *old(storage),
{
    match msg {
        ExecuteMsg::Register { name } => execute_register(storage, info, name),
    }
}

} // verus!
