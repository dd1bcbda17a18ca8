//! The list as contracts speak of it: what the chain lends to a call, as
//! plain mathematical values, and what each call makes of it.
//!
//! Every handler's contract is one of the predicates below, between the
//! state before the call, the state after it and the result. The laws of
//! the library are proved from these predicates alone.

use vstd::prelude::*;
use crate::error::ContractError;
use crate::msg::{EntryResponse, ExecuteMsg, ListResponse, QueryMsg, QueryResponse, Response};
use crate::state::{entry_of, priority_code, record_of, status_code};
use crate::state::{EntryView, Priority, Record, Status};

verus! {

/// What the chain lends to a call, as far as the library reads it: what
/// the storage holds under the library's keys, and which strings the chain
/// takes for addresses.
pub struct LedgerState {
    /// The contract name and version, once they are written.
    pub version: Option<(Seq<char>, Seq<char>)>,
    /// The owner's address, once it is written.
    pub owner: Option<Seq<char>>,
    /// The last id that was allocated, once the counter is written.
    pub sequence: Option<u64>,
    /// The stored records that can be read, by id.
    pub entries: Map<u64, Record>,
    /// The ids under which the storage holds something, whether it can be
    /// read as a record or not.
    pub occupied: Set<u64>,
    /// Whether the list's namespace holds a key that is not the key of an
    /// id.
    pub stray_keys: bool,
    /// The strings that the chain takes for addresses.
    pub addresses: Set<Seq<char>>,
}

/// All that the storage holds in the list's namespace can be read: every
/// key is the key of an id, and what is under it is a record. It is so for
/// a storage that only this library has written to.
pub open spec fn list_parses(state: LedgerState) -> bool {
    &&& !state.stray_keys
    &&& forall|id: u64| #[trigger] state.occupied.contains(id) ==> state.entries.contains_key(id)
}

/// The name under which the contract registers itself.
pub const CONTRACT_NAME: &'static str = "crates.io:todo-list-smartcontract";

/// The version under which the contract registers itself.
pub const CONTRACT_VERSION: &'static str = "0.1.0";

/// The page size of a listing that asks for none.
pub const DEFAULT_LIMIT: u32 = 10;

/// The largest page size; a listing that asks for more gets this.
pub const MAX_LIMIT: u32 = 30;

/// What the ownership check makes of a caller.
pub enum Guard {
    /// The caller is the owner.
    Pass,
    /// No owner can be read from the storage.
    NoOwner,
    /// The caller is someone else.
    NotOwner,
}

/// The ownership check: the caller passes exactly if it is the stored owner.
pub open spec fn guard(state: LedgerState, sender: Seq<char>) -> Guard {
    match state.owner {
        None => Guard::NoOwner,
        Some(owner) => if owner == sender {
            Guard::Pass
        } else {
            Guard::NotOwner
        },
    }
}

/// What a changing call does for a caller that does not pass the check:
/// it fails, as unauthorized where an owner is stored, and changes nothing.
pub open spec fn turned_away(
    pre: LedgerState,
    post: LedgerState,
    sender: Seq<char>,
    r: Result<Response, ContractError>,
) -> bool {
    &&& post == pre
    &&& match guard(pre, sender) {
        Guard::NoOwner => r matches Err(ContractError::Std(_)),
        Guard::NotOwner => r == Err::<Response, ContractError>(ContractError::Unauthorized {  }),
        Guard::Pass => false,
    }
}

/// What the chain says of a string: the address that it takes it for,
/// which is the string itself, or nothing.
pub open spec fn chain_answer(state: LedgerState, text: Seq<char>) -> Option<Seq<char>> {
    if state.addresses.contains(text) {
        Some(text)
    } else {
        None
    }
}

/// A set-up, given the owner that was asked for and what the chain said of
/// it. Without a wish the caller becomes the owner; with a wish that the
/// chain took, the address that it gave. The set-up then registers name
/// and version, stores the owner and puts the counter to 0. With a wish
/// that the chain did not take it fails and writes nothing.
pub open spec fn instantiate_validated_post(
    pre: LedgerState,
    post: LedgerState,
    sender: Seq<char>,
    wish: Option<Seq<char>>,
    validated: Option<Seq<char>>,
    r: Result<Response, ContractError>,
) -> bool {
    if wish is Some && validated is None {
        &&& post == pre
        &&& r == Err::<Response, ContractError>(ContractError::InvalidIdentity {  })
    } else {
        let chosen = if wish is Some {
            validated->0
        } else {
            sender
        };
        &&& r matches Ok(Response::Instantiated { owner })
        &&& owner@ == chosen
        &&& post == (LedgerState {
            version: Some((CONTRACT_NAME@, CONTRACT_VERSION@)),
            owner: Some(chosen),
            sequence: Some(0u64),
            ..pre
        })
    }
}

/// A set-up: the chain is asked about the owner that the message wishes
/// for, if it wishes for one, and the call does what
/// [`instantiate_validated_post`] says of the answer.
pub open spec fn instantiate_post(
    pre: LedgerState,
    post: LedgerState,
    sender: Seq<char>,
    wish: Option<Seq<char>>,
    r: Result<Response, ContractError>,
) -> bool {
    instantiate_validated_post(
        pre,
        post,
        sender,
        wish,
        match wish {
            Some(address) => chain_answer(pre, address),
            None => None,
        },
        r,
    )
}

/// The record of a new entry: the description, the first status, and the
/// priority that was given or none.
pub open spec fn new_record(description: Seq<char>, priority: Option<Priority>) -> Record {
    (
        description,
        status_code(Status::Todo),
        priority_code(
            match priority {
                Some(p) => p,
                None => Priority::Unset,
            },
        ),
    )
}

/// A creation: the owner gets the id behind the counter, the counter moves
/// to it, and the new record is stored under it. Nothing else changes.
pub open spec fn create_post(
    pre: LedgerState,
    post: LedgerState,
    sender: Seq<char>,
    description: Seq<char>,
    priority: Option<Priority>,
    r: Result<Response, ContractError>,
) -> bool {
    match guard(pre, sender) {
        Guard::Pass => match pre.sequence {
            None => post == pre && r matches Err(ContractError::Std(_)),
            Some(last) => if last == u64::MAX {
                &&& post == pre
                &&& r == Err::<Response, ContractError>(ContractError::SequenceExhausted {  })
            } else {
                let id = (last + 1) as u64;
                &&& r == Ok::<Response, ContractError>(Response::EntryCreated { id })
                &&& post == (LedgerState {
                    sequence: Some(id),
                    entries: pre.entries.insert(id, new_record(description, priority)),
                    occupied: pre.occupied.insert(id),
                    ..pre
                })
            },
        },
        _ => turned_away(pre, post, sender, r),
    }
}

/// An entry after a patch: each field is the given value, where one is
/// given, else what it was. The id stays.
pub open spec fn patched(
    entry: EntryView,
    description: Option<Seq<char>>,
    status: Option<Status>,
    priority: Option<Priority>,
) -> EntryView {
    EntryView {
        id: entry.id,
        description: match description {
            Some(d) => d,
            None => entry.description,
        },
        status: match status {
            Some(s) => s,
            None => entry.status,
        },
        priority: match priority {
            Some(p) => p,
            None => entry.priority,
        },
    }
}

/// What reading the record under `id` fails with, where it fails:
/// nothing is stored under the id; or what is stored there is no record,
/// and the storage layer says so; or it is a record with a code that
/// stands for nothing.
pub open spec fn unreadable<T>(state: LedgerState, id: u64, r: Result<T, ContractError>) -> bool {
    if state.entries.contains_key(id) {
        &&& entry_of(id, state.entries[id]) is None
        &&& r matches Err(ContractError::CorruptEntry { id: corrupt })
        &&& corrupt == id
    } else if state.occupied.contains(id) {
        r matches Err(ContractError::Std(_))
    } else {
        r matches Err(ContractError::NotFound { id: missing }) && missing == id
    }
}

/// An update: for the owner, the stored entry is patched and stored again
/// under the same id. Nothing else changes. Where the entry cannot be
/// read, nothing changes at all.
pub open spec fn update_post(
    pre: LedgerState,
    post: LedgerState,
    sender: Seq<char>,
    id: u64,
    description: Option<Seq<char>>,
    status: Option<Status>,
    priority: Option<Priority>,
    r: Result<Response, ContractError>,
) -> bool {
    match guard(pre, sender) {
        Guard::Pass => if pre.entries.contains_key(id) && entry_of(id, pre.entries[id]) is Some {
            let entry = entry_of(id, pre.entries[id])->0;
            &&& r == Ok::<Response, ContractError>(Response::EntryUpdated { id })
            &&& post == (LedgerState {
                entries: pre.entries.insert(
                    id,
                    record_of(patched(entry, description, status, priority)),
                ),
                ..pre
            })
        } else {
            post == pre && unreadable(pre, id, r)
        },
        _ => turned_away(pre, post, sender, r),
    }
}

/// A deletion: for the owner it succeeds, and the id holds nothing
/// afterwards, whether it held something before or not. Nothing else
/// changes.
pub open spec fn delete_post(
    pre: LedgerState,
    post: LedgerState,
    sender: Seq<char>,
    id: u64,
    r: Result<Response, ContractError>,
) -> bool {
    match guard(pre, sender) {
        Guard::Pass => {
            &&& r == Ok::<Response, ContractError>(Response::EntryDeleted { id })
            &&& post == (LedgerState {
                entries: pre.entries.remove(id),
                occupied: pre.occupied.remove(id),
                ..pre
            })
        },
        _ => turned_away(pre, post, sender, r),
    }
}

/// A hand-over, given what the chain said of the new owner's address: for
/// the owner, an address that the chain took becomes the owner; one that it
/// did not take is refused and nothing changes.
pub open spec fn transfer_validated_post(
    pre: LedgerState,
    post: LedgerState,
    sender: Seq<char>,
    validated: Option<Seq<char>>,
    r: Result<Response, ContractError>,
) -> bool {
    match guard(pre, sender) {
        Guard::Pass => match validated {
            Some(address) => {
                &&& r matches Ok(Response::OwnershipTransferred { new_owner })
                &&& new_owner@ == address
                &&& post == (LedgerState { owner: Some(address), ..pre })
            },
            None => {
                &&& post == pre
                &&& r == Err::<Response, ContractError>(ContractError::InvalidIdentity {  })
            },
        },
        _ => turned_away(pre, post, sender, r),
    }
}

/// A hand-over: for the owner, the chain is asked about the string, and
/// the call does what [`transfer_validated_post`] says of the answer.
pub open spec fn transfer_post(
    pre: LedgerState,
    post: LedgerState,
    sender: Seq<char>,
    new_owner: Seq<char>,
    r: Result<Response, ContractError>,
) -> bool {
    transfer_validated_post(pre, post, sender, chain_answer(pre, new_owner), r)
}

/// The view of an optional string.
pub open spec fn text_of(text: Option<String>) -> Option<Seq<char>> {
    match text {
        Some(t) => Some(t@),
        None => None,
    }
}

/// A changing call: what its message asks for.
pub open spec fn execute_post(
    pre: LedgerState,
    post: LedgerState,
    sender: Seq<char>,
    msg: ExecuteMsg,
    r: Result<Response, ContractError>,
) -> bool {
    match msg {
        ExecuteMsg::NewEntry { description, priority } => create_post(
            pre,
            post,
            sender,
            description@,
            priority,
            r,
        ),
        ExecuteMsg::UpdateEntry { id, description, status, priority } => update_post(
            pre,
            post,
            sender,
            id,
            text_of(description),
            status,
            priority,
            r,
        ),
        ExecuteMsg::DeleteEntry { id } => delete_post(pre, post, sender, id, r),
        ExecuteMsg::TransferOwnerShip { new_owner } => transfer_post(
            pre,
            post,
            sender,
            new_owner@,
            r,
        ),
    }
}

/// Reading one entry: the entry stored under the id, with that id.
pub open spec fn entry_post(
    state: LedgerState,
    id: u64,
    r: Result<EntryResponse, ContractError>,
) -> bool {
    if state.entries.contains_key(id) && entry_of(id, state.entries[id]) is Some {
        r matches Ok(response) && Some(response@) == entry_of(id, state.entries[id])
    } else {
        unreadable(state, id, r)
    }
}

/// Whether `id` lies behind the lower bound of a listing.
pub open spec fn is_after(id: u64, bound: Option<u64>) -> bool {
    match bound {
        Some(b) => id > b,
        None => true,
    }
}

/// The page size that a listing works with: what was asked for, or
/// [`DEFAULT_LIMIT`], and never more than [`MAX_LIMIT`].
pub open spec fn effective_limit(limit: Option<u32>) -> nat {
    match limit {
        Some(l) => if l < MAX_LIMIT {
            l as nat
        } else {
            MAX_LIMIT as nat
        },
        None => DEFAULT_LIMIT as nat,
    }
}

/// `ids` are the first stored ids behind the bound, in ascending order and
/// with none left out between them.
pub open spec fn is_run(entries: Map<u64, Record>, start_after: Option<u64>, ids: Seq<u64>) -> bool {
    &&& forall|i: int|
        0 <= i < ids.len() ==> entries.contains_key(#[trigger] ids[i]) && is_after(
            ids[i],
            start_after,
        )
    &&& forall|i: int, j: int| 0 <= i < j < ids.len() ==> ids[i] < ids[j]
    &&& forall|k: u64|
        ids.len() > 0 && is_after(k, start_after) && k <= ids.last() && #[trigger] entries.contains_key(
            k,
        ) ==> ids.contains(k)
}

/// The bound behind which a listing goes on after `ids`.
pub open spec fn cursor_after(start_after: Option<u64>, ids: Seq<u64>) -> Option<u64> {
    if ids.len() == 0 {
        start_after
    } else {
        Some(ids.last())
    }
}

/// `ids` are the page of a listing: a run of at most `limit` ids that
/// stops short of `limit` only where no stored id is left behind it.
pub open spec fn is_page(
    entries: Map<u64, Record>,
    start_after: Option<u64>,
    limit: nat,
    ids: Seq<u64>,
) -> bool {
    &&& is_run(entries, start_after, ids)
    &&& ids.len() <= limit
    &&& ids.len() < limit ==> forall|k: u64|
        is_after(k, cursor_after(start_after, ids)) ==> !#[trigger] entries.contains_key(k)
}

/// The record under `id` is the first of the page that cannot be read:
/// fewer than `limit` ids come before it, and their records can.
pub open spec fn first_corrupt_of_page(
    entries: Map<u64, Record>,
    start_after: Option<u64>,
    limit: nat,
    id: u64,
) -> bool {
    exists|ids: Seq<u64>|
        {
            &&& #[trigger] is_run(entries, start_after, ids.push(id))
            &&& ids.len() < limit
            &&& forall|i: int|
                0 <= i < ids.len() ==> entry_of(#[trigger] ids[i], entries[ids[i]]) is Some
            &&& entry_of(id, entries[id]) is None
        }
}

/// A listing: the page behind the bound, each entry read from the record
/// under its id. It fails on the first record of the page with a code that
/// stands for nothing and, where the list does not parse, where the storage
/// layer fails to walk the records.
pub open spec fn list_post(
    state: LedgerState,
    start_after: Option<u64>,
    limit: Option<u32>,
    r: Result<ListResponse, ContractError>,
) -> bool {
    match r {
        Ok(response) => {
            &&& is_page(state.entries, start_after, effective_limit(limit), response.ids())
            &&& forall|i: int|
                0 <= i < response.entries.len() ==> entry_of(
                    response.entries[i].id,
                    state.entries[response.entries[i].id],
                ) == Some(#[trigger] response.entries[i]@)
        },
        Err(ContractError::CorruptEntry { id }) => first_corrupt_of_page(
            state.entries,
            start_after,
            effective_limit(limit),
            id,
        ),
        Err(ContractError::Std(_)) => !list_parses(state),
        Err(_) => false,
    }
}

/// A reading call: what its message asks for.
pub open spec fn query_post(
    state: LedgerState,
    msg: QueryMsg,
    r: Result<QueryResponse, ContractError>,
) -> bool {
    match msg {
        QueryMsg::QueryEntry { id } => match r {
            Ok(QueryResponse::Entry(response)) => entry_post(
                state,
                id,
                Ok::<EntryResponse, ContractError>(response),
            ),
            Ok(_) => false,
            Err(e) => entry_post(state, id, Err::<EntryResponse, ContractError>(e)),
        },
        QueryMsg::QueryList { start_after, limit } => match r {
            Ok(QueryResponse::List(response)) => list_post(
                state,
                start_after,
                limit,
                Ok::<ListResponse, ContractError>(response),
            ),
            Ok(_) => false,
            Err(e) => list_post(state, start_after, limit, Err::<ListResponse, ContractError>(e)),
        },
    }
}

} // verus!
