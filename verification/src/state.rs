//! The persistent mapping store: one record per name, keyed by the raw bytes
//! of the name, kept in the storage of one service instance.
//!
//! The storage itself and the typed map over it belong to `cosmwasm_std` and
//! `cw_storage_plus`. This module declares the storage type, names what the
//! map holds, and states what the four map operations do to it. Everything
//! above this module is proved from those statements.

use crate::gate::minter_of;
use cosmwasm_std::MemoryStorage;
use cosmwasm_std::StdError;
use vstd::prelude::*;

verus! {

/// `cosmwasm_std::MemoryStorage`, the key-value storage of one service
/// instance. Nothing inside it is visible to the proofs: what it holds is
/// spoken of through `map_entries` and `minter_of` only.
#[verifier::external_type_specification]
#[verifier::external_body]
pub struct ExMemoryStorage(MemoryStorage);

/// What the text-valued `cw_storage_plus::Map` under `namespace` holds in
/// `storage`: every key that has data, with the text that the data reads as,
/// or with `None` where the data cannot be read as a text.
pub uninterp spec fn map_entries(storage: MemoryStorage, namespace: Seq<char>) -> Map<
    Seq<u8>,
    Option<Seq<char>>,
>;

/// The namespace under which the name records are kept.
pub const NAME_RESOLVER: &'static str = "name_resolver";

/// The sole persisted entity per name: who owns it.
#[derive(Debug, Clone, PartialEq, Eq)]
pub struct NameRecord {
    pub owner: String,
}

/// The name records of a storage: every stored name with its owner, or with
/// `None` where what is stored under the name cannot be read.
pub open spec fn name_entries(storage: MemoryStorage) -> Map<Seq<u8>, Option<Seq<char>>> {
    map_entries(storage, NAME_RESOLVER@)
}

/// `cosmwasm_std::MemoryStorage::new`: a storage without data. No map holds
/// an entry in it and no minter is recorded.
pub assume_specification[ MemoryStorage::new ]() -> (storage: MemoryStorage)
    ensures
        forall|namespace: Seq<char>| #[trigger] map_entries(storage, namespace) == no_entries(),
        minter_of(storage) is None,
;

/// The map without entries.
pub open spec fn no_entries() -> Map<Seq<u8>, Option<Seq<char>>> {
    Map::empty()
}

/// `cw_storage_plus::Map::has` on a map from byte keys to texts: whether any
/// data is stored under the key. The data is not read. A namespace longer
/// than 65535 bytes makes the outside function panic.
#[verifier::external_body]
fn map_has(storage: &MemoryStorage, namespace: &'static str, key: &[u8]) -> (found: bool)
    requires
        namespace.len() <= 0xFFFF,
    ensures
        found == map_entries(*storage, namespace@).contains_key(key@),
{
    cw_storage_plus::Map::<&[u8], String>::new(namespace).has(storage, key)
}

/// `cw_storage_plus::Map::may_load` on a map from byte keys to texts:
/// `Ok(None)` where no data is stored under the key, the text where the data
/// reads as one, and an error where data is there and does not.
#[verifier::external_body]
fn map_may_load(storage: &MemoryStorage, namespace: &'static str, key: &[u8]) -> (loaded: Result<
    Option<String>,
    StdError,
>)
    requires
        namespace.len() <= 0xFFFF,
    ensures
        loaded matches Ok(Some(text)) ==> map_entries(*storage, namespace@).contains_key(key@)
            && map_entries(*storage, namespace@)[key@] == Some(text@),
        loaded matches Ok(None) ==> !map_entries(*storage, namespace@).contains_key(key@),
        loaded is Err ==> map_entries(*storage, namespace@).contains_key(key@) && map_entries(
            *storage,
            namespace@,
        )[key@] is None,
{
    cw_storage_plus::Map::<&[u8], String>::new(namespace).may_load(storage, key)
}

/// `cw_storage_plus::Map::load` on a map from byte keys to texts: the text
/// where data is stored under the key and reads as one, an error where no
/// data is there or it does not.
#[verifier::external_body]
fn map_load(storage: &MemoryStorage, namespace: &'static str, key: &[u8]) -> (loaded: Result<
    String,
    StdError,
>)
    requires
        namespace.len() <= 0xFFFF,
    ensures
        loaded matches Ok(text) ==> map_entries(*storage, namespace@).contains_key(key@)
            && map_entries(*storage, namespace@)[key@] == Some(text@),
        loaded is Err ==> !map_entries(*storage, namespace@).contains_key(key@) || map_entries(
            *storage,
            namespace@,
        )[key@] is None,
{
    cw_storage_plus::Map::<&[u8], String>::new(namespace).load(storage, key)
}

/// `cw_storage_plus::Map::save` on a map from byte keys to texts. It writes
/// the text as a JSON string under the key, replacing what was there: the
/// map then holds the text under the key, and what it held under other keys.
/// The storage key it writes to begins with the length of the namespace in
/// two bytes, so it is not the key of the minter, which is as before.
/// Writing a text as JSON cannot fail, and a JSON string is never empty, so
/// the call returns `Ok`.
#[verifier::external_body]
fn map_save(
    storage: &mut MemoryStorage,
    namespace: &'static str,
    key: &[u8],
    text: &String,
) -> (saved: Result<(), StdError>)
    requires
        namespace.len() <= 0xFFFF,
    ensures
        saved is Ok,
        map_entries(*final(storage), namespace@) == map_entries(*old(storage), namespace@).insert(
            key@,
            Some(text@),
        ),
        minter_of(*final(storage)) == minter_of(*old(storage)),
{
    cw_storage_plus::Map::<&[u8], String>::new(namespace).save(storage, key, text)
}

/// The namespace of the name records fits the two bytes that hold its length
/// in a storage key.
proof fn lemma_namespace_fits()
    ensures
        NAME_RESOLVER.len() <= 0xFFFF,
{
    reveal_strlit("name_resolver");
    assert(vstd::utf8::is_ascii_chars(NAME_RESOLVER@));
    vstd::utf8::is_ascii_chars_encode_utf8(NAME_RESOLVER@);
}

/// Whether a record is stored under the name. The record is not read.
pub fn has(storage: &MemoryStorage, name: &[u8]) -> (found: bool)
    ensures
        found == name_entries(*storage).contains_key(name@),
{
    proof {
        lemma_namespace_fits();
    }
    map_has(storage, NAME_RESOLVER, name)
}

/// The record stored under the name, or `None` where there is none: a
/// missing name is an answer, not an error. Fails only where something is
/// stored under the name that cannot be read.
pub fn may_load(storage: &MemoryStorage, name: &[u8]) -> (loaded: Result<
    Option<NameRecord>,
    StdError,
>)
    ensures
        loaded matches Ok(Some(record)) ==> name_entries(*storage).contains_key(name@)
            && name_entries(*storage)[name@] == Some(record.owner@),
        loaded matches Ok(None) ==> !name_entries(*storage).contains_key(name@),
        loaded is Err ==> name_entries(*storage).contains_key(name@) && name_entries(
            *storage,
        )[name@] is None,
{
    proof {
        lemma_namespace_fits();
    }
    match map_may_load(storage, NAME_RESOLVER, name) {
        Ok(Some(owner)) => Ok(Some(NameRecord { owner })),
        Ok(None) => Ok(None),
        Err(error) => Err(error),
    }
}

/// The record stored under the name. Fails where there is none, and where
/// what is stored cannot be read.
pub fn load(storage: &MemoryStorage, name: &[u8]) -> (loaded: Result<NameRecord, StdError>)
    ensures
        loaded matches Ok(record) ==> name_entries(*storage).contains_key(name@)
            && name_entries(*storage)[name@] == Some(record.owner@),
        loaded is Err ==> !name_entries(*storage).contains_key(name@) || name_entries(
            *storage,
        )[name@] is None,
{
    proof {
        lemma_namespace_fits();
    }
    match map_load(storage, NAME_RESOLVER, name) {
        Ok(owner) => Ok(NameRecord { owner }),
        Err(error) => Err(error),
    }
}

/// Stores the record under the name, replacing a record that was there. No
/// other name changes, nor does the recorded minter.
pub fn save(storage: &mut MemoryStorage, name: &[u8], record: &NameRecord) -> (saved: Result<
    (),
    StdError,
>)
    ensures
        saved is Ok,
        name_entries(*final(storage)) == name_entries(*old(storage)).insert(
            name@,
            Some(record.owner@),
        ),
        minter_of(*final(storage)) == minter_of(*old(storage)),
{
    proof {
        lemma_namespace_fits();
    }
    map_save(storage, NAME_RESOLVER, name, &record.owner)
}

} // verus!
