//! The boundary to the chain: the storage and the address checker that a
//! call is lent, and the few calls that the handlers make on them.
//!
//! Nothing in this file is proved. Each function here makes one call into
//! `cw-storage-plus`, `cw2` or `cosmwasm-std`, and its contract says what
//! that crate's source shows of the call. Everything else in the library is
//! proved from these contracts.

use vstd::prelude::*;
use crate::model::{is_after, LedgerState};
use crate::state::Record;

verus! {

/// What the chain lends to one call: the contract's storage and the
/// checker of addresses. Both are trait objects of `cosmwasm-std`, so the
/// verifier sees neither; what the storage holds and what the checker
/// accepts is spoken of through [`state_of`].
///
/// A caller that may only read hands in a storage whose writing methods are
/// never reached: the reading handlers take `&Host`, and no function that
/// writes can be called through it.
#[verifier::external_body]
pub struct Host<'a> {
    pub storage: &'a mut dyn cosmwasm_std::Storage,
    pub api: &'a dyn cosmwasm_std::Api,
}

/// `cosmwasm_std::StdError`, the error of the storage layer. The library
/// hands such an error on as it came and never looks inside.
#[verifier::external_type_specification]
#[verifier::external_body]
pub struct ExStdError(cosmwasm_std::StdError);

/// The key of the owner's address.
pub const CONFIG_KEY: &'static str = "config";

/// The key of the counter of allocated ids.
pub const SEQUENCE_KEY: &'static str = "entry_seq";

/// The namespace of the entries.
pub const LIST_NAMESPACE: &'static str = "list";

/// The owner's address as `Item::load` reads it under [`CONFIG_KEY`];
/// `None` where that load fails.
pub uninterp spec fn stored_owner(host: Host) -> Option<Seq<char>>;

/// The counter as `Item::load` reads it under [`SEQUENCE_KEY`]; `None`
/// where that load fails.
pub uninterp spec fn stored_sequence(host: Host) -> Option<u64>;

/// The records that `Map::may_load` finds in [`LIST_NAMESPACE`], by id.
pub uninterp spec fn stored_entries(host: Host) -> Map<u64, Record>;

/// The ids under whose key in [`LIST_NAMESPACE`] the storage holds
/// something, whether `Map::may_load` can parse it or not.
pub uninterp spec fn occupied_ids(host: Host) -> Set<u64>;

/// Whether the storage holds a key in [`LIST_NAMESPACE`] that is not the
/// key of an id, that is, whose part behind the namespace is not eight
/// bytes long.
pub uninterp spec fn has_stray_keys(host: Host) -> bool;

/// The strings for which the host's `Api::addr_validate` returns `Ok`.
/// The trait asks of an implementation that the same string gets the same
/// answer, whatever the state of the chain.
pub uninterp spec fn accepted_addresses(host: Host) -> Set<Seq<char>>;

/// The contract name and version as `cw2` keeps them; `None` where none
/// can be read.
pub uninterp spec fn stored_version(host: Host) -> Option<(Seq<char>, Seq<char>)>;

/// All that the library reads of the host.
pub open spec fn state_of(host: Host) -> LedgerState {
    LedgerState {
        version: stored_version(host),
        owner: stored_owner(host),
        sequence: stored_sequence(host),
        entries: stored_entries(host),
        occupied: occupied_ids(host),
        stray_keys: has_stray_keys(host),
        addresses: accepted_addresses(host),
    }
}

/// `cw2::set_contract_version`: writes the two strings under cw2's own key
/// `contract_info` and touches no other key. The value is a struct of two
/// strings, for which the JSON encoder has no failing path, so the call
/// returns `Ok`.
#[verifier::external_body]
pub(crate) fn save_contract_version(host: &mut Host, name: &str, version: &str) -> (r: Result<
    (),
    cosmwasm_std::StdError,
>)
    ensures
        r is Ok,
        stored_version(*final(host)) == Some((name@, version@)),
        state_of(*final(host)) == (LedgerState {
            version: stored_version(*final(host)),
            ..state_of(*old(host))
        }),
{
    cw2::set_contract_version(&mut *host.storage, name, version)
}

/// `Item::load` on the owner's address. It is `Ok` exactly where
/// [`stored_owner`] is `Some`, and then holds that address.
#[verifier::external_body]
pub(crate) fn load_owner(host: &Host) -> (r: Result<String, cosmwasm_std::StdError>)
    ensures
        match r {
            Ok(owner) => stored_owner(*host) == Some(owner@),
            Err(_) => stored_owner(*host) is None,
        },
{
    cw_storage_plus::Item::<String>::new(CONFIG_KEY).load(&*host.storage)
}

/// `Item::save` on the owner's address: writes the address under
/// [`CONFIG_KEY`] and touches no other key. A string always encodes, so the
/// call returns `Ok`, and a later load reads the same string.
#[verifier::external_body]
pub(crate) fn save_owner(host: &mut Host, owner: &String) -> (r: Result<
    (),
    cosmwasm_std::StdError,
>)
    ensures
        r is Ok,
        state_of(*final(host)) == (LedgerState { owner: Some(owner@), ..state_of(*old(host)) }),
{
    cw_storage_plus::Item::<String>::new(CONFIG_KEY).save(&mut *host.storage, owner)
}

/// `Item::load` on the counter. It is `Ok` exactly where
/// [`stored_sequence`] is `Some`, and then holds that number.
#[verifier::external_body]
pub(crate) fn load_sequence(host: &Host) -> (r: Result<u64, cosmwasm_std::StdError>)
    ensures
        match r {
            Ok(value) => stored_sequence(*host) == Some(value),
            Err(_) => stored_sequence(*host) is None,
        },
{
    cw_storage_plus::Item::<u64>::new(SEQUENCE_KEY).load(&*host.storage)
}

/// `Item::save` on the counter: writes the number under [`SEQUENCE_KEY`]
/// and touches no other key. An integer always encodes, so the call returns
/// `Ok`.
#[verifier::external_body]
pub(crate) fn save_sequence(host: &mut Host, value: u64) -> (r: Result<
    (),
    cosmwasm_std::StdError,
>)
    ensures
        r is Ok,
        state_of(*final(host)) == (LedgerState { sequence: Some(value), ..state_of(*old(host)) }),
{
    cw_storage_plus::Item::<u64>::new(SEQUENCE_KEY).save(&mut *host.storage, &value)
}

/// `Map::may_load` on the entries. `Ok(None)` says that the storage holds
/// nothing under the id's key. `Ok(Some(..))` comes exactly for an id of
/// [`stored_entries`], and holds the record stored there. `Err` says that
/// something is under the key that does not parse as a record.
#[verifier::external_body]
pub(crate) fn load_entry(host: &Host, id: u64) -> (r: Result<
    Option<(String, u8, u8)>,
    cosmwasm_std::StdError,
>)
    ensures
        match r {
            Ok(Some(record)) => {
                &&& occupied_ids(*host).contains(id)
                &&& stored_entries(*host).contains_key(id)
                &&& stored_entries(*host)[id] == record@
            },
            Ok(None) => {
                &&& !occupied_ids(*host).contains(id)
                &&& !stored_entries(*host).contains_key(id)
            },
            Err(_) => {
                &&& occupied_ids(*host).contains(id)
                &&& !stored_entries(*host).contains_key(id)
            },
        },
{
    cw_storage_plus::Map::<u64, (String, u8, u8)>::new(LIST_NAMESPACE).may_load(
        &*host.storage,
        id,
    )
}

/// `Map::save` on the entries: writes the record under the id's key in
/// [`LIST_NAMESPACE`], over what was there, and touches no other key. A
/// tuple of a string and two integers always encodes, so the call returns
/// `Ok`, and a later load reads the same record.
#[verifier::external_body]
pub(crate) fn save_entry(host: &mut Host, id: u64, record: &(String, u8, u8)) -> (r: Result<
    (),
    cosmwasm_std::StdError,
>)
    ensures
        r is Ok,
        state_of(*final(host)) == (LedgerState {
            entries: stored_entries(*old(host)).insert(id, record@),
            occupied: occupied_ids(*old(host)).insert(id),
            ..state_of(*old(host))
        }),
{
    cw_storage_plus::Map::<u64, (String, u8, u8)>::new(LIST_NAMESPACE).save(
        &mut *host.storage,
        id,
        record,
    )
}

/// `Map::remove` on the entries: deletes the id's key in
/// [`LIST_NAMESPACE`], if it is there, and touches no other key.
#[verifier::external_body]
pub(crate) fn remove_entry(host: &mut Host, id: u64)
    ensures
        state_of(*final(host)) == (LedgerState {
            entries: stored_entries(*old(host)).remove(id),
            occupied: occupied_ids(*old(host)).remove(id),
            ..state_of(*old(host))
        }),
{
    cw_storage_plus::Map::<u64, (String, u8, u8)>::new(LIST_NAMESPACE).remove(
        &mut *host.storage,
        id,
    )
}

/// The first item of `Map::range`, ascending, from the exclusive lower
/// bound `after` (or from the start): the entry with the least id behind the
/// bound. `Ok(None)` says that no key lies behind the bound. `Err` says
/// that the next key is not the key of an id or that what is under it does
/// not parse as a record. So it is `Ok` where the namespace has no stray
/// key and every occupied id holds a record; nothing more is claimed of
/// when it is `Err`.
#[verifier::external_body]
pub(crate) fn next_entry_after(host: &Host, after: Option<u64>) -> (r: Result<
    Option<(u64, (String, u8, u8))>,
    cosmwasm_std::StdError,
>)
    ensures
        match r {
            Ok(Some((id, record))) => {
                &&& is_after(id, after)
                &&& stored_entries(*host).contains_key(id)
                &&& stored_entries(*host)[id] == record@
                &&& forall|k: u64|
                    is_after(k, after) && k < id ==> !#[trigger] stored_entries(
                        *host,
                    ).contains_key(k)
            },
            Ok(None) => forall|k: u64|
                is_after(k, after) ==> !#[trigger] stored_entries(*host).contains_key(k),
            Err(_) => true,
        },
        !has_stray_keys(*host) && (forall|k: u64| #[trigger]
            occupied_ids(*host).contains(k) ==> stored_entries(*host).contains_key(k)) ==> r is Ok,
{
    cw_storage_plus::Map::<u64, (String, u8, u8)>::new(LIST_NAMESPACE).range(
        &*host.storage,
        after.map(cw_storage_plus::Bound::exclusive),
        None,
        cosmwasm_std::Order::Ascending,
    ).next().transpose()
}

/// `Api::addr_validate`: `Some` exactly for the strings that the chain
/// takes for addresses. The address it hands back is then the string that
/// went in (the trait documents this, and both implementations in
/// `cosmwasm-std` return `Addr::unchecked(input)`).
#[verifier::external_body]
pub(crate) fn validate_address(host: &Host, input: &str) -> (r: Option<String>)
    ensures
        r is Some <==> accepted_addresses(*host).contains(input@),
        r matches Some(address) ==> address@ == input@,
{
    match host.api.addr_validate(input) {
        Ok(address) => Some(address.into_string()),
        Err(_) => None,
    }
}

} // verus!
