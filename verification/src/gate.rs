//! The authorization gate: at most one privileged identity, the minter, set
//! when the service is created, and asked on every gated write.
//!
//! `cw_ownable` keeps the privileged identity in the storage of the service.
//! It is reached through `cw721::state::MINTER`. This module names the
//! identity that the storage records and states what the two operations on
//! it do.

use crate::state::map_entries;
use crate::state::name_entries;
use cosmwasm_std::MemoryStorage;
use cosmwasm_std::StdError;
use cw721::OwnershipError;
use vstd::prelude::*;

verus! {

/// `cw_ownable::OwnershipError`, the error of the ownership check. The
/// library tells only failure from success.
#[verifier::external_type_specification]
#[verifier::external_body]
pub struct ExOwnershipError(OwnershipError);

/// The identity that `cw721::state::MINTER` records as owner in `storage`:
/// `None` where the ownership was never set, cannot be read, or names no
/// owner.
pub uninterp spec fn minter_of(storage: MemoryStorage) -> Option<Seq<char>>;

/// Whether `cosmwasm_std::testing::MockApi`, with its default prefix, takes
/// the text for a valid address: whether its `addr_validate` returns `Ok` on
/// it.
pub uninterp spec fn valid_address(text: Seq<char>) -> bool;

/// `cw_ownable::OwnershipStore::initialize_owner` on `cw721::state::MINTER`,
/// with the default `MockApi`. It asks the api whether the candidate is a
/// valid address. If not, it fails and has written nothing. If so, it records
/// the candidate, as written, as the owner, replacing what was recorded, and
/// returns `Ok`. It writes under its own key only: every map holds afterwards
/// what it held before.
#[verifier::external_body]
fn minter_initialize(storage: &mut MemoryStorage, candidate: &str) -> (outcome: Result<
    (),
    StdError,
>)
    ensures
        outcome is Ok <==> valid_address(candidate@),
        outcome is Ok ==> minter_of(*final(storage)) == Some(candidate@),
        outcome is Err ==> *final(storage) == *old(storage),
        forall|namespace: Seq<char>| #[trigger]
            map_entries(*final(storage), namespace) == map_entries(*old(storage), namespace),
{
    let api = cosmwasm_std::testing::MockApi::default();
    cw721::state::MINTER.initialize_owner(storage, &api, Some(candidate)).map(|_| ())
}

/// `cw_ownable::OwnershipStore::assert_owner` on `cw721::state::MINTER`, with
/// the sender taken as an address without validation. It succeeds exactly
/// where an owner is recorded and the sender is that owner.
#[verifier::external_body]
fn minter_assert(storage: &MemoryStorage, sender: &str) -> (verdict: Result<(), OwnershipError>)
    ensures
        verdict is Ok <==> minter_of(*storage) == Some(sender@),
{
    cw721::state::MINTER.assert_owner(storage, &cosmwasm_std::Addr::unchecked(sender))
}

/// The two states of the authorization gate.
pub enum Gate {
    /// No privileged identity: nobody passes.
    Uninitialized,
    /// One privileged identity: it passes, and nobody else.
    Initialized { identity: Seq<char> },
}

impl Gate {
    /// Whether the caller passes.
    pub open spec fn admits(self, caller: Seq<char>) -> bool {
        self == (Gate::Initialized { identity: caller })
    }
}

/// The state of the authorization gate that a storage records.
pub open spec fn gate_of(storage: MemoryStorage) -> Gate {
    match minter_of(storage) {
        Some(identity) => Gate::Initialized { identity },
        None => Gate::Uninitialized,
    }
}

/// The failure of the ownership check. It says that the caller is not the
/// owner, and nothing more.
#[derive(Debug, Clone, Copy, PartialEq, Eq)]
pub struct NotOwner;

/// Sets the privileged identity. It succeeds exactly where the candidate is
/// a valid address, and then the authorization gate is initialized with the
/// candidate, whatever state it was in. Where it fails the storage is as it
/// was. The name records are untouched either way.
pub fn initialize_owner(storage: &mut MemoryStorage, candidate: &str) -> (outcome: Result<
    (),
    StdError,
>)
    ensures
        outcome is Ok <==> valid_address(candidate@),
        outcome is Ok ==> gate_of(*final(storage)) == (Gate::Initialized { identity: candidate@ }),
        outcome is Err ==> *final(storage) == *old(storage),
        name_entries(*final(storage)) == name_entries(*old(storage)),
{
    minter_initialize(storage, candidate)
}

/// Asks whether the caller is the privileged identity. A pure read: it
/// succeeds exactly where the authorization gate is initialized with the
/// caller.
pub fn assert_owner(storage: &MemoryStorage, caller: &str) -> (verdict: Result<(), NotOwner>)
    ensures
        verdict is Ok <==> gate_of(*storage).admits(caller@),
{
    match minter_assert(storage, caller) {
        Ok(()) => Ok(()),
        Err(_) => Err(NotOwner),
    }
}

} // verus!
