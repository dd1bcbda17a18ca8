//! The handlers: set-up, the four changing calls behind the ownership
//! check, and the two reading calls.

use vstd::prelude::*;
use crate::error::ContractError;
use crate::host::{load_entry, load_owner, load_sequence, next_entry_after, remove_entry};
use crate::host::{save_contract_version, save_entry, save_owner, save_sequence};
use crate::host::{occupied_ids, state_of, stored_entries, validate_address, Host};
use crate::model::{create_post, cursor_after, delete_post, effective_limit, entry_post};
use crate::model::{execute_post, guard, instantiate_post};
use crate::model::{instantiate_validated_post, is_after, is_run, list_parses, list_post};
use crate::model::query_post;
use crate::model::{text_of, transfer_post, transfer_validated_post, unreadable, update_post};
use crate::model::{Guard, LedgerState, CONTRACT_NAME, CONTRACT_VERSION, DEFAULT_LIMIT, MAX_LIMIT};
use crate::msg::{EntryResponse, ExecuteMsg, InstantiateMsg, ListResponse, MessageInfo};
use crate::msg::{QueryMsg, QueryResponse, Response};
use crate::state::{entry_of, Entry, Priority, Record, Status};

verus! {

/// The owner that a set-up chooses, given the owner that was asked for
/// and what the chain said of it: the caller where none was asked for, the
/// address that the chain gave where it took the wish, and no one where it
/// did not.
pub fn initial_owner(sender: String, wish: Option<String>, validated: Option<String>) -> (r: Result<
    String,
    ContractError,
>)
    ensures
        match (wish, validated) {
            (None, _) => r matches Ok(owner) && owner@ == sender@,
            (Some(_), Some(address)) => r matches Ok(owner) && owner@ == address@,
            (Some(_), None) => r == Err::<String, ContractError>(
                ContractError::InvalidIdentity {  },
            ),
        },
{
    match wish {
        None => Ok(sender),
        Some(_) => match validated {
            Some(address) => Ok(address),
            None => Err(ContractError::InvalidIdentity {  }),
        },
    }
}

/// Sets the list up with `validated` as what the chain said of the owner
/// that `wish` asks for: registers name and version, stores the owner that
/// [`initial_owner`] chooses and puts the counter to 0. Where the chain
/// did not take the wish, the call fails and writes nothing.
pub fn instantiate_validated(
    host: &mut Host,
    info: MessageInfo,
    wish: Option<String>,
    validated: Option<String>,
) -> (r: Result<Response, ContractError>)
    ensures
        instantiate_validated_post(
            state_of(*old(host)),
            state_of(*final(host)),
            info.sender@,
            text_of(wish),
            text_of(validated),
            r,
        ),
{
    let owner = match initial_owner(info.sender, wish, validated) {
        Ok(owner) => owner,
        Err(e) => {
            return Err(e);
        },
    };
    match save_contract_version(host, CONTRACT_NAME, CONTRACT_VERSION) {
        Ok(()) => {},
        Err(e) => {
            return Err(ContractError::Std(e));
        },
    }
    match save_owner(host, &owner) {
        Ok(()) => {},
        Err(e) => {
            return Err(ContractError::Std(e));
        },
    }
    match save_sequence(host, 0) {
        Ok(()) => {},
        Err(e) => {
            return Err(ContractError::Std(e));
        },
    }
    Ok(Response::Instantiated { owner })
}

/// Sets the list up. Without an owner in the message the caller becomes
/// the owner. With one, the chain is asked about it: an address that it
/// takes becomes the owner, and for one that it does not take the call
/// fails and writes nothing.
pub fn instantiate(host: &mut Host, info: MessageInfo, msg: InstantiateMsg) -> (r: Result<
    Response,
    ContractError,
>)
    ensures
        instantiate_post(
            state_of(*old(host)),
            state_of(*final(host)),
            info.sender@,
            text_of(msg.owner),
            r,
        ),
{
    let validated = match &msg.owner {
        Some(address) => validate_address(host, address.as_str()),
        None => None,
    };
    instantiate_validated(host, info, msg.owner, validated)
}

/// The ownership check that stands before every changing call: passes the
/// stored owner and turns everyone else away.
pub fn check_owner(host: &Host, sender: &String) -> (r: Result<(), ContractError>)
    ensures
        match guard(state_of(*host), sender@) {
            Guard::Pass => r is Ok,
            Guard::NoOwner => r matches Err(ContractError::Std(_)),
            Guard::NotOwner => r == Err::<(), ContractError>(ContractError::Unauthorized {  }),
        },
{
    match load_owner(host) {
        Ok(owner) => {
            if *sender == owner {
                Ok(())
            } else {
                Err(ContractError::Unauthorized {  })
            }
        },
        Err(e) => Err(ContractError::Std(e)),
    }
}

/// Carries out a changing call after the ownership check.
pub fn execute(host: &mut Host, info: MessageInfo, msg: ExecuteMsg) -> (r: Result<
    Response,
    ContractError,
>)
    ensures
        execute_post(state_of(*old(host)), state_of(*final(host)), info.sender@, msg, r),
{
    match msg {
        ExecuteMsg::NewEntry { description, priority } => execute_create_new_entry(
            host,
            info,
            description,
            priority,
        ),
        ExecuteMsg::UpdateEntry { id, description, status, priority } => execute_update_entry(
            host,
            info,
            id,
            description,
            status,
            priority,
        ),
        ExecuteMsg::DeleteEntry { id } => execute_delete_entry(host, info, id),
        ExecuteMsg::TransferOwnerShip { new_owner } => transfer_ownership(host, info, new_owner),
    }
}

/// Creates an entry: allocates the id behind the counter and stores the
/// description under it, with the first status and the given priority, or
/// none.
pub fn execute_create_new_entry(
    host: &mut Host,
    info: MessageInfo,
    description: String,
    priority: Option<Priority>,
) -> (r: Result<Response, ContractError>)
    ensures
        create_post(
            state_of(*old(host)),
            state_of(*final(host)),
            info.sender@,
            description@,
            priority,
            r,
        ),
{
    match check_owner(host, &info.sender) {
        Ok(()) => {},
        Err(e) => {
            return Err(e);
        },
    }
    let last = match load_sequence(host) {
        Ok(last) => last,
        Err(e) => {
            return Err(ContractError::Std(e));
        },
    };
    if last == u64::MAX {
        return Err(ContractError::SequenceExhausted {  });
    }
    let id = last + 1;
    match save_sequence(host, id) {
        Ok(()) => {},
        Err(e) => {
            return Err(ContractError::Std(e));
        },
    }
    let new_entry = Entry {
        id,
        description,
        status: Status::Todo,
        priority: match priority {
            Some(p) => p,
            None => Priority::Unset,
        },
    };
    let record = new_entry.to_record();
    match save_entry(host, id, &record) {
        Ok(()) => {},
        Err(e) => {
            return Err(ContractError::Std(e));
        },
    }
    Ok(Response::EntryCreated { id })
}

/// Reads the entry stored under `id`.
fn read_entry(host: &Host, id: u64) -> (r: Result<Entry, ContractError>)
    ensures
        match r {
            Ok(entry) => {
                &&& state_of(*host).occupied.contains(id)
                &&& state_of(*host).entries.contains_key(id)
                &&& entry_of(id, state_of(*host).entries[id]) == Some(entry@)
            },
            Err(_) => {
                &&& !(state_of(*host).entries.contains_key(id) && entry_of(
                    id,
                    state_of(*host).entries[id],
                ) is Some)
                &&& unreadable(state_of(*host), id, r)
            },
        },
{
    match load_entry(host, id) {
        Ok(Some(record)) => match Entry::from_record(id, record) {
            Some(entry) => Ok(entry),
            None => Err(ContractError::CorruptEntry { id }),
        },
        Ok(None) => Err(ContractError::NotFound { id }),
        Err(e) => Err(ContractError::Std(e)),
    }
}

/// Changes an entry: each of description, status and priority is replaced
/// where a value is given and kept where none is.
pub fn execute_update_entry(
    host: &mut Host,
    info: MessageInfo,
    id: u64,
    description: Option<String>,
    status: Option<Status>,
    priority: Option<Priority>,
) -> (r: Result<Response, ContractError>)
    ensures
        update_post(
            state_of(*old(host)),
            state_of(*final(host)),
            info.sender@,
            id,
            text_of(description),
            status,
            priority,
            r,
        ),
{
    match check_owner(host, &info.sender) {
        Ok(()) => {},
        Err(e) => {
            return Err(e);
        },
    }
    let entry = match read_entry(host, id) {
        Ok(entry) => entry,
        Err(e) => {
            return Err(e);
        },
    };
    let updated_entry = Entry {
        id,
        description: match description {
            Some(d) => d,
            None => entry.description,
        },
        status: match status {
            Some(s) => s,
            None => entry.status,
        },
        priority: match priority {
            Some(p) => p,
            None => entry.priority,
        },
    };
    let record = updated_entry.to_record();
    match save_entry(host, id, &record) {
        Ok(()) => {},
        Err(e) => {
            return Err(ContractError::Std(e));
        },
    }
    assert(state_of(*old(host)).occupied.insert(id) =~= state_of(*old(host)).occupied);
    Ok(Response::EntryUpdated { id })
}

/// Deletes the entry under `id`, if there is one.
pub fn execute_delete_entry(host: &mut Host, info: MessageInfo, id: u64) -> (r: Result<
    Response,
    ContractError,
>)
    ensures
        delete_post(state_of(*old(host)), state_of(*final(host)), info.sender@, id, r),
{
    match check_owner(host, &info.sender) {
        Ok(()) => {},
        Err(e) => {
            return Err(e);
        },
    }
    remove_entry(host, id);
    Ok(Response::EntryDeleted { id })
}

/// Stores the address that the chain gave as the new owner, or fails
/// where it gave none. The ownership check has passed before.
fn hand_over(host: &mut Host, validated: Option<String>) -> (r: Result<Response, ContractError>)
    ensures
        match validated {
            Some(address) => {
                &&& r matches Ok(Response::OwnershipTransferred { new_owner })
                &&& new_owner@ == address@
                &&& state_of(*final(host)) == (LedgerState {
                    owner: Some(address@),
                    ..state_of(*old(host))
                })
            },
            None => {
                &&& state_of(*final(host)) == state_of(*old(host))
                &&& r == Err::<Response, ContractError>(ContractError::InvalidIdentity {  })
            },
        },
{
    let new_owner = match validated {
        Some(address) => address,
        None => {
            return Err(ContractError::InvalidIdentity {  });
        },
    };
    match save_owner(host, &new_owner) {
        Ok(()) => {},
        Err(e) => {
            return Err(ContractError::Std(e));
        },
    }
    Ok(Response::OwnershipTransferred { new_owner })
}

/// Hands the list over with `validated` as what the chain said of the new
/// owner's address: for the owner, the address becomes the owner, or the
/// call fails where there is none.
pub fn transfer_ownership_validated(
    host: &mut Host,
    info: MessageInfo,
    validated: Option<String>,
) -> (r: Result<Response, ContractError>)
    ensures
        transfer_validated_post(
            state_of(*old(host)),
            state_of(*final(host)),
            info.sender@,
            text_of(validated),
            r,
        ),
{
    match check_owner(host, &info.sender) {
        Ok(()) => {},
        Err(e) => {
            return Err(e);
        },
    }
    hand_over(host, validated)
}

/// Hands the list over to `new_owner`: for the owner, the chain is asked
/// whether the string is an address, and it becomes the owner if it is.
pub fn transfer_ownership(host: &mut Host, info: MessageInfo, new_owner: String) -> (r: Result<
    Response,
    ContractError,
>)
    ensures
        transfer_post(state_of(*old(host)), state_of(*final(host)), info.sender@, new_owner@, r),
{
    match check_owner(host, &info.sender) {
        Ok(()) => {},
        Err(e) => {
            return Err(e);
        },
    }
    let validated = validate_address(host, new_owner.as_str());
    hand_over(host, validated)
}

/// Answers a reading call.
pub fn query(host: &Host, msg: QueryMsg) -> (r: Result<QueryResponse, ContractError>)
    ensures
        query_post(state_of(*host), msg, r),
{
    match msg {
        QueryMsg::QueryEntry { id } => match query_entry(host, id) {
            Ok(response) => Ok(QueryResponse::Entry(response)),
            Err(e) => Err(e),
        },
        QueryMsg::QueryList { start_after, limit } => match query_list(host, start_after, limit) {
            Ok(response) => Ok(QueryResponse::List(response)),
            Err(e) => Err(e),
        },
    }
}

/// Returns the entry stored under `id`.
pub fn query_entry(host: &Host, id: u64) -> (r: Result<EntryResponse, ContractError>)
    ensures
        entry_post(state_of(*host), id, r),
{
    match read_entry(host, id) {
        Ok(entry) => Ok(
            EntryResponse {
                id: entry.id,
                description: entry.description,
                status: entry.status,
                priority: entry.priority,
            },
        ),
        Err(e) => Err(e),
    }
}

/// The page size of a listing: what was asked for, or the default, and
/// never more than the maximum.
pub fn page_size(limit: Option<u32>) -> (size: u32)
    ensures
        size == effective_limit(limit),
        size <= MAX_LIMIT,
        limit is None ==> size == DEFAULT_LIMIT,
        limit matches Some(l) ==> size <= l,
{
    match limit {
        Some(l) => if l < MAX_LIMIT {
            l
        } else {
            MAX_LIMIT
        },
        None => DEFAULT_LIMIT,
    }
}

/// Lists the entries with an id above `start_after` (or from the start),
/// in ascending order of id, as many as the page size allows.
pub fn query_list(host: &Host, start_after: Option<u64>, limit: Option<u32>) -> (r: Result<
    ListResponse,
    ContractError,
>)
    ensures
        list_post(state_of(*host), start_after, limit, r),
        r matches Ok(response) ==> response.entries.len() <= effective_limit(limit),
{
    let size = page_size(limit);
    let mut entries: Vec<Entry> = Vec::new();
    let mut cursor = start_after;
    let mut taken: u32 = 0;
    let mut exhausted = false;
    let ghost stored = state_of(*host).entries;
    while taken < size && !exhausted
        invariant
            stored == state_of(*host).entries,
            size == effective_limit(limit),
            taken <= size,
            taken == entries.len(),
            cursor == cursor_after(start_after, entries@.map_values(|e: Entry| e.id)),
            is_run(stored, start_after, entries@.map_values(|e: Entry| e.id)),
            forall|i: int|
                0 <= i < entries.len() ==> entry_of(entries[i].id, stored[entries[i].id]) == Some(
                    #[trigger] entries[i]@,
                ),
            exhausted ==> forall|k: u64|
                is_after(k, cursor) ==> !#[trigger] stored.contains_key(k),
        decreases size - taken, if exhausted { 0int } else { 1int },
    {
        match next_entry_after(host, cursor) {
            Ok(Some((id, record))) => {
                let ghost ids = entries@.map_values(|e: Entry| e.id);
                match Entry::from_record(id, record) {
                    Some(entry) => {
                        entries.push(entry);
                        cursor = Some(id);
                        taken = taken + 1;
                        proof {
                            let new_ids = entries@.map_values(|e: Entry| e.id);
                            assert(new_ids =~= ids.push(id));
                            lemma_run_extends(stored, start_after, ids, id);
                        }
                    },
                    None => {
                        proof {
                            lemma_run_extends(stored, start_after, ids, id);
                            assert forall|i: int| 0 <= i < ids.len() implies entry_of(
                                #[trigger] ids[i],
                                stored[ids[i]],
                            ) is Some by {
                                assert(entries[i]@.id == ids[i]);
                            }
                            assert(is_run(stored, start_after, ids.push(id)));
                        }
                        return Err(ContractError::CorruptEntry { id });
                    },
                }
            },
            Ok(None) => {
                exhausted = true;
            },
            Err(e) => {
                proof {
                    if list_parses(state_of(*host)) {
                        assert forall|k: u64| #[trigger]
                            occupied_ids(*host).contains(k) implies stored_entries(
                            *host,
                        ).contains_key(k) by {
                            assert(state_of(*host).occupied.contains(k));
                        }
                    }
                }
                return Err(ContractError::Std(e));
            },
        }
    }
    Ok(ListResponse { entries })
}

/// A run grows by the least stored id behind its end.
proof fn lemma_run_extends(
    entries: Map<u64, Record>,
    start_after: Option<u64>,
    ids: Seq<u64>,
    id: u64,
)
    requires
        is_run(entries, start_after, ids),
        entries.contains_key(id),
        is_after(id, cursor_after(start_after, ids)),
        forall|k: u64|
            is_after(k, cursor_after(start_after, ids)) && k < id
                ==> !#[trigger] entries.contains_key(k),
    ensures
        is_run(entries, start_after, ids.push(id)),
{
    let grown = ids.push(id);
    if ids.len() > 0 {
        assert(entries.contains_key(ids[ids.len() - 1]));
    }
    assert forall|k: u64|
        grown.len() > 0 && is_after(k, start_after) && k <= grown.last()
            && #[trigger] entries.contains_key(k) implies grown.contains(k) by {
        if k == id {
            assert(grown[grown.len() - 1] == k);
        } else if ids.len() > 0 && k <= ids.last() {
            assert(ids.contains(k));
            let i = choose|i: int| 0 <= i < ids.len() && ids[i] == k;
            assert(grown[i] == k);
        } else {
            assert(is_after(k, cursor_after(start_after, ids)) && k < id);
        }
    }
    assert forall|i: int, j: int| 0 <= i < j < grown.len() implies grown[i] < grown[j] by {
        if j == ids.len() {
            assert(ids[i] <= ids.last()) by {
                if i < ids.len() - 1 {
                    assert(ids[i] < ids[ids.len() - 1]);
                }
            }
        }
    }
}

} // verus!
