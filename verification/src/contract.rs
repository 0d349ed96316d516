//! The entry points of the gated service: create it, register a name,
//! resolve a name.
//!
//! Each entry point checks everything before it writes anything, so a call
//! that fails has written nothing.

use crate::error::ContractError;
use crate::error::ContractErrorView;
use crate::gate::assert_owner;
use crate::gate::initialize_owner;
use crate::gate::valid_address;
use crate::model::fresh;
use crate::model::name_key;
use crate::model::register_reply;
use crate::model::registration_response;
use crate::model::service_of;
use crate::msg::ExecuteMsg;
use crate::msg::InstantiateMsg;
use crate::msg::QueryMsg;
use crate::msg::ResolveRecordResponse;
use crate::response::empty_response;
use crate::response::Event;
use crate::response::MessageInfo;
use crate::response::Response;
use crate::response::ResponseView;
use crate::state::has;
use crate::state::may_load;
use crate::state::save;
use crate::state::NameRecord;
use cosmwasm_std::MemoryStorage;
use cosmwasm_std::StdError;
use vstd::prelude::*;

verus! {

/// A reply with its texts as sequences of characters.
pub open spec fn reply_view(reply: Result<Response, ContractError>) -> Result<
    ResponseView,
    ContractErrorView,
> {
    match reply {
        Ok(response) => Ok(response@),
        Err(error) => Err(error@),
    }
}

/// The address of an answer as a sequence of characters.
pub open spec fn address_view(answer: ResolveRecordResponse) -> Option<Seq<char>> {
    match answer.address {
        Some(address) => Some(address@),
        None => None,
    }
}

/// A storage without data. The service it holds is the fresh one: no
/// privileged identity, no name bound.
pub fn fresh_storage() -> (storage: MemoryStorage)
    ensures
        service_of(storage) == fresh(),
{
    MemoryStorage::new()
}

/// The reply of `instantiate`, given how setting the privileged identity
/// went: an empty success, or the error passed on.
pub fn instantiate_reply(outcome: Result<(), StdError>) -> (reply: Result<Response, ContractError>)
    ensures
        outcome is Ok ==> reply_view(reply) == Ok::<ResponseView, ContractErrorView>(
            empty_response(),
        ),
        outcome matches Err(error) ==> reply_view(reply) == Err::<
            ResponseView,
            ContractErrorView,
        >(ContractErrorView::Std(error)),
{
    match outcome {
        Ok(()) => Ok(Response::new()),
        Err(error) => Err(ContractError::Std(error)),
    }
}

/// Creates the service: sets the authorization gate to the minter that the
/// message names.
///
/// The call succeeds exactly where the minter is a valid address: it then
/// holds the minter as its privileged identity, and the reply is an empty
/// success. Otherwise the reply is the error that refused the address and the
/// storage is as it was. No name record changes either way.
pub fn instantiate(storage: &mut MemoryStorage, info: &MessageInfo, msg: InstantiateMsg) -> (reply:
    Result<Response, ContractError>)
    ensures
        reply is Ok <==> valid_address(msg.minter@),
        service_of(*final(storage)) == service_of(*old(storage)).instantiate(msg.minter@),
        reply matches Ok(response) ==> response@ == empty_response(),
        reply matches Err(error) ==> error@ is Std && *final(storage) == *old(storage),
{
    let outcome = initialize_owner(storage, msg.minter.as_str());
    instantiate_reply(outcome)
}

/// Registers `name` for `owner` on behalf of the caller in `info`.
///
/// The authorization gate is asked first: a caller who is not the minter is
/// refused with `NotOwner`, whether or not the name is free. Then the name: a
/// name that is bound already stays with its owner, and the call is refused
/// with `NameTaken`. Otherwise the name is bound to the owner and the reply
/// holds the one audit event of the registration. A refused call has written
/// nothing.
pub fn execute_register(
    storage: &mut MemoryStorage,
    info: &MessageInfo,
    name: String,
    owner: String,
) -> (reply: Result<Response, ContractError>)
    ensures
        service_of(*final(storage)) == service_of(*old(storage)).register(
            info.sender@,
            name_key(name@),
            owner@,
        ),
        reply_view(reply) == register_reply(
            service_of(*old(storage)).verdict_gated(info.sender@, name_key(name@)),
            info.sender@,
            name@,
            owner@,
        ),
        reply is Err ==> *final(storage) == *old(storage),
{
    if assert_owner(storage, info.sender.as_str()).is_err() {
        return Err(ContractError::NotOwner { caller: info.sender.clone() });
    }
    if has(storage, name.as_str().as_bytes()) {
        return Err(ContractError::NameTaken { name });
    }
    let record = NameRecord { owner };
    match save(storage, name.as_str().as_bytes(), &record) {
        Ok(()) => {},
        Err(error) => {
            return Err(ContractError::Std(error));
        },
    }
    let event = Event::new("name-register").add_attribute("name", name.as_str()).add_attribute(
        "owner",
        record.owner.as_str(),
    );
    let response = Response::new().add_event(event);
    proof {
        let expected = registration_response(name@, record.owner@);
        assert(event@.attributes =~= expected.events[0].attributes);
        assert(response@.events =~= expected.events);
    }
    Ok(response)
}

/// Carries out a state-changing request.
pub fn execute(storage: &mut MemoryStorage, info: &MessageInfo, msg: ExecuteMsg) -> (reply: Result<
    Response,
    ContractError,
>)
    ensures
        msg matches ExecuteMsg::Register { name, owner } ==> {
            &&& service_of(*final(storage)) == service_of(*old(storage)).register(
                info.sender@,
                name_key(name@),
                owner@,
            )
            &&& reply_view(reply) == register_reply(
                service_of(*old(storage)).verdict_gated(info.sender@, name_key(name@)),
                info.sender@,
                name@,
                owner@,
            )
        },
        reply is Err ==> *final(storage) == *old(storage),
{
    match msg {
        ExecuteMsg::Register { name, owner } => execute_register(storage, info, name, owner),
    }
}

/// Resolves `name` to its owner. No gate is asked. A name that is not bound
/// resolves to `None`: that is an answer, not a failure. The call fails only
/// where something is stored under the name that cannot be read.
pub fn query_resolve_record(storage: &MemoryStorage, name: String) -> (answer: Result<
    ResolveRecordResponse,
    ContractError,
>)
    ensures
        answer is Err <==> service_of(*storage).unreadable_at(name_key(name@)),
        answer matches Ok(found) ==> address_view(found) == service_of(*storage).resolve(
            name_key(name@),
        ),
        answer matches Err(error) ==> error@ is Std,
{
    match may_load(storage, name.as_str().as_bytes()) {
        Ok(Some(record)) => Ok(ResolveRecordResponse { address: Some(record.owner) }),
        Ok(None) => Ok(ResolveRecordResponse { address: None }),
        Err(error) => Err(ContractError::Std(error)),
    }
}

/// Answers a read-only request.
pub fn query(storage: &MemoryStorage, msg: QueryMsg) -> (answer: Result<
    ResolveRecordResponse,
    ContractError,
>)
    ensures
        msg matches QueryMsg::ResolveRecord { name } ==> {
            &&& answer is Err <==> service_of(*storage).unreadable_at(name_key(name@))
            &&& answer matches Ok(found) ==> address_view(found) == service_of(*storage).resolve(
                name_key(name@),
            )
        },
        answer matches Err(error) ==> error@ is Std,
{
    match msg {
        QueryMsg::ResolveRecord { name } => query_resolve_record(storage, name),
    }
}

} // verus!
