//! What holds of the list whatever is done with it, proved from the
//! handlers' contracts.

use vstd::prelude::*;
use crate::error::ContractError;
use crate::model::{create_post, cursor_after, delete_post, effective_limit, execute_post};
use crate::model::{entry_post, guard, instantiate_post, is_after, list_parses, list_post};
use crate::model::{patched, transfer_post};
use crate::model::{is_run, update_post};
use crate::model::{LedgerState, DEFAULT_LIMIT, MAX_LIMIT};
use crate::msg::{EntryResponse, ExecuteMsg, ListResponse, Response};
use crate::state::{entry_of, record_of, Priority, Record, Status};

verus! {

/// The list is in order: an owner and a counter are stored, and every
/// stored id is one that the counter has passed.
pub open spec fn in_order(state: LedgerState) -> bool {
    &&& state.owner is Some
    &&& state.sequence is Some
    &&& forall|id: u64| #[trigger]
        state.entries.contains_key(id) ==> 1 <= id <= state.sequence->0
}

/// A row of creations that all succeed: `states[i]` is the list before the
/// `i`-th of them and `states[i + 1]` the list after it.
pub open spec fn successful_creations(
    states: Seq<LedgerState>,
    senders: Seq<Seq<char>>,
    descriptions: Seq<Seq<char>>,
    priorities: Seq<Option<Priority>>,
    results: Seq<Result<Response, ContractError>>,
) -> bool {
    &&& states.len() == results.len() + 1
    &&& senders.len() == results.len()
    &&& descriptions.len() == results.len()
    &&& priorities.len() == results.len()
    &&& forall|i: int|
        0 <= i < results.len() ==> {
            &&& (#[trigger] results[i]) is Ok
            &&& create_post(
                states[i],
                states[i + 1],
                senders[i],
                descriptions[i],
                priorities[i],
                results[i],
            )
        }
}

/// After `upto` creations that succeeded, from a counter at `start`, the
/// counter stands at `start + upto`.
proof fn lemma_counter_after_creations(
    states: Seq<LedgerState>,
    senders: Seq<Seq<char>>,
    descriptions: Seq<Seq<char>>,
    priorities: Seq<Option<Priority>>,
    results: Seq<Result<Response, ContractError>>,
    start: u64,
    upto: int,
)
    requires
        successful_creations(states, senders, descriptions, priorities, results),
        states[0].sequence == Some(start),
        0 <= upto <= results.len(),
    ensures
        start + upto <= u64::MAX,
        states[upto].sequence == Some((start + upto) as u64),
    decreases upto,
{
    if upto > 0 {
        lemma_counter_after_creations(
            states,
            senders,
            descriptions,
            priorities,
            results,
            start,
            upto - 1,
        );
        assert(results[upto - 1] is Ok);
    }
}

/// Creations that succeed one after the other hand out consecutive ids:
/// from a counter at `start`, the `i`-th of them (counting from 0) gets
/// `start + i + 1`. There are no gaps and no id comes twice. After a
/// set-up the counter is at 0, so the ids are 1, 2, 3 and so on.
pub proof fn law_created_ids_count_up(
    states: Seq<LedgerState>,
    senders: Seq<Seq<char>>,
    descriptions: Seq<Seq<char>>,
    priorities: Seq<Option<Priority>>,
    results: Seq<Result<Response, ContractError>>,
    start: u64,
)
    requires
        successful_creations(states, senders, descriptions, priorities, results),
        states[0].sequence == Some(start),
    ensures
        forall|i: int|
            0 <= i < results.len() ==> start + i + 1 <= u64::MAX && #[trigger] results[i] == Ok::<
                Response,
                ContractError,
            >(Response::EntryCreated { id: (start + i + 1) as u64 }),
        forall|i: int, j: int|
            0 <= i < j < results.len() ==> (#[trigger] results[i])->Ok_0 != (
            #[trigger] results[j])->Ok_0,
{
    assert forall|i: int| 0 <= i < results.len() implies start + i + 1 <= u64::MAX
        && #[trigger] results[i] == Ok::<Response, ContractError>(
        Response::EntryCreated { id: (start + i + 1) as u64 },
    ) by {
        lemma_counter_after_creations(states, senders, descriptions, priorities, results, start, i);
        assert(results[i] is Ok);
    }
}

/// A set-up leaves the counter at 0, so the first entry that is created
/// after it gets the id 1.
pub proof fn law_first_id_is_one(
    before: LedgerState,
    set_up: LedgerState,
    after: LedgerState,
    founder: Seq<char>,
    wish: Option<Seq<char>>,
    founded: Result<Response, ContractError>,
    sender: Seq<char>,
    description: Seq<char>,
    priority: Option<Priority>,
    created: Result<Response, ContractError>,
)
    requires
        instantiate_post(before, set_up, founder, wish, founded),
        founded is Ok,
        create_post(set_up, after, sender, description, priority, created),
        created is Ok,
    ensures
        created == Ok::<Response, ContractError>(Response::EntryCreated { id: 1 }),
{
}

/// A record whose codes stand for something is the record of the entry
/// that it stands for.
proof fn lemma_record_round_trip(id: u64, record: Record)
    requires
        entry_of(id, record) is Some,
    ensures
        record_of(entry_of(id, record)->0) == record,
{
}

/// An update that gives no field changes nothing: the list is afterwards
/// what it was, whether the update succeeds or not. The entry keeps its
/// id.
pub proof fn law_empty_update_changes_nothing(
    pre: LedgerState,
    post: LedgerState,
    sender: Seq<char>,
    id: u64,
    r: Result<Response, ContractError>,
)
    requires
        update_post(pre, post, sender, id, None, None, None, r),
    ensures
        post == pre,
{
    if r is Ok {
        let record = pre.entries[id];
        let entry = entry_of(id, record)->0;
        lemma_record_round_trip(id, record);
        assert(patched(entry, None, None, None) == entry);
        assert(pre.entries.insert(id, record) =~= pre.entries);
    }
}

/// An update that succeeds overwrites exactly the fields that it gives:
/// the entry under the id is afterwards the entry that was there, with
/// each given field replaced and each other field as it was. The id, every
/// other entry, the owner and the counter stay.
pub proof fn law_update_overwrites_given_fields(
    pre: LedgerState,
    post: LedgerState,
    sender: Seq<char>,
    id: u64,
    description: Option<Seq<char>>,
    status: Option<Status>,
    priority: Option<Priority>,
    r: Result<Response, ContractError>,
)
    requires
        update_post(pre, post, sender, id, description, status, priority, r),
        r is Ok,
    ensures
        pre.entries.contains_key(id),
        post.entries.contains_key(id),
        entry_of(id, pre.entries[id]) is Some,
        entry_of(id, post.entries[id]) is Some,
        ({
            let before = entry_of(id, pre.entries[id])->0;
            let after = entry_of(id, post.entries[id])->0;
            &&& after.id == id
            &&& after.description == match description {
                Some(d) => d,
                None => before.description,
            }
            &&& after.status == match status {
                Some(s) => s,
                None => before.status,
            }
            &&& after.priority == match priority {
                Some(p) => p,
                None => before.priority,
            }
        }),
        post.entries.dom() == pre.entries.dom(),
        forall|other: u64| other != id && pre.entries.contains_key(other) ==> post.entries[other]
            == #[trigger] pre.entries[other],
        post.owner == pre.owner,
        post.sequence == pre.sequence,
        post.version == pre.version,
{
    assert(post.entries.dom() =~= pre.entries.dom());
}

/// Deleting never fails for the owner, and deleting the same id a second
/// time changes nothing.
pub proof fn law_second_delete_changes_nothing(
    pre: LedgerState,
    mid: LedgerState,
    post: LedgerState,
    sender: Seq<char>,
    id: u64,
    first: Result<Response, ContractError>,
    second: Result<Response, ContractError>,
)
    requires
        delete_post(pre, mid, sender, id, first),
        delete_post(mid, post, sender, id, second),
    ensures
        guard(pre, sender) is Pass ==> first is Ok,
        first is Ok ==> second is Ok && post == mid && !mid.entries.contains_key(id),
{
    if first is Ok {
        assert(mid.entries.remove(id) =~= mid.entries);
        assert(mid.occupied.remove(id) =~= mid.occupied);
    }
}

/// A page holds only entries with an id above the bound, in strictly
/// ascending order of id, and no more of them than the page size: at most
/// what was asked for, at most [`MAX_LIMIT`], and at most
/// [`DEFAULT_LIMIT`] where nothing was asked for.
pub proof fn law_page_is_bounded_and_ascending(
    state: LedgerState,
    start_after: Option<u64>,
    limit: Option<u32>,
    response: ListResponse,
)
    requires
        list_post(state, start_after, limit, Ok::<ListResponse, ContractError>(response)),
    ensures
        forall|i: int|
            0 <= i < response.entries.len() ==> is_after(
                (#[trigger] response.entries[i]).id,
                start_after,
            ),
        forall|i: int, j: int|
            0 <= i < j < response.entries.len() ==> (#[trigger] response.entries[i]).id < (
            #[trigger] response.entries[j]).id,
        response.entries.len() <= MAX_LIMIT,
        limit matches Some(l) ==> response.entries.len() <= l,
        limit is None ==> response.entries.len() <= DEFAULT_LIMIT,
{
    let ids = response.ids();
    assert forall|i: int| 0 <= i < response.entries.len() implies is_after(
        (#[trigger] response.entries[i]).id,
        start_after,
    ) by {
        assert(ids[i] == response.entries[i].id);
    }
    assert forall|i: int, j: int| 0 <= i < j < response.entries.len() implies (
    #[trigger] response.entries[i]).id < (#[trigger] response.entries[j]).id by {
        assert(ids[i] == response.entries[i].id);
        assert(ids[j] == response.entries[j].id);
    }
}

/// A page leaves nothing out: every stored id above the bound is on the
/// page, unless the page is full and the id lies above its last.
pub proof fn law_page_leaves_nothing_out(
    state: LedgerState,
    start_after: Option<u64>,
    limit: Option<u32>,
    response: ListResponse,
    id: u64,
)
    requires
        list_post(state, start_after, limit, Ok::<ListResponse, ContractError>(response)),
        state.entries.contains_key(id),
        is_after(id, start_after),
    ensures
        response.ids().contains(id) || (response.entries.len() == effective_limit(limit) && (
        response.entries.len() == 0 || id > response.ids().last())),
{
    let ids = response.ids();
    assert(ids.len() == response.entries.len());
    if ids.len() > 0 && id <= ids.last() {
        assert(ids.contains(id));
    } else if ids.len() < effective_limit(limit) {
        assert(is_after(id, cursor_after(start_after, ids)));
    }
}

/// Reading one entry succeeds exactly where a record with codes that
/// stand for something is stored under the id, and then returns an entry
/// with that id. It fails as not found exactly where nothing is stored
/// under the id; on a list that parses, that is wherever no record is.
pub proof fn law_read_finds_what_is_stored(
    state: LedgerState,
    id: u64,
    r: Result<EntryResponse, ContractError>,
)
    requires
        entry_post(state, id, r),
    ensures
        r is Ok <==> state.entries.contains_key(id) && entry_of(id, state.entries[id]) is Some,
        r is Ok ==> (r->Ok_0)@.id == id,
        r == Err::<EntryResponse, ContractError>(ContractError::NotFound { id })
            <==> !state.entries.contains_key(id) && !state.occupied.contains(id),
        list_parses(state) ==> (r == Err::<EntryResponse, ContractError>(
            ContractError::NotFound { id },
        ) <==> !state.entries.contains_key(id)),
{
}

/// On a list that parses and whose records all hold codes that stand for
/// something, a listing succeeds.
pub proof fn law_listing_succeeds_on_sound_list(
    state: LedgerState,
    start_after: Option<u64>,
    limit: Option<u32>,
    r: Result<ListResponse, ContractError>,
)
    requires
        list_post(state, start_after, limit, r),
        list_parses(state),
        forall|id: u64| #[trigger]
            state.entries.contains_key(id) ==> entry_of(id, state.entries[id]) is Some,
    ensures
        r is Ok,
{
    match r {
        Err(ContractError::CorruptEntry { id }) => {
            let ids = choose|ids: Seq<u64>|
                {
                    &&& #[trigger] is_run(state.entries, start_after, ids.push(id))
                    &&& ids.len() < effective_limit(limit)
                    &&& forall|i: int|
                        0 <= i < ids.len() ==> entry_of(#[trigger] ids[i], state.entries[ids[i]])
                            is Some
                    &&& entry_of(id, state.entries[id]) is None
                };
            let grown = ids.push(id);
            assert(grown[ids.len() as int] == id);
            assert(state.entries.contains_key(id));
        },
        _ => {},
    }
}

/// A changing call from anyone but the owner is refused as unauthorized
/// and leaves the owner, the counter and every entry as they were.
pub proof fn law_stranger_changes_nothing(
    pre: LedgerState,
    post: LedgerState,
    sender: Seq<char>,
    msg: ExecuteMsg,
    r: Result<Response, ContractError>,
)
    requires
        execute_post(pre, post, sender, msg, r),
        pre.owner is Some,
        pre.owner != Some(sender),
    ensures
        r == Err::<Response, ContractError>(ContractError::Unauthorized {  }),
        post == pre,
{
}

/// A call that fails changes nothing.
pub proof fn law_failure_changes_nothing(
    pre: LedgerState,
    post: LedgerState,
    sender: Seq<char>,
    msg: ExecuteMsg,
    r: Result<Response, ContractError>,
)
    requires
        execute_post(pre, post, sender, msg, r),
        r is Err,
    ensures
        post == pre,
{
}

/// A set-up succeeds exactly where no owner is asked for or the chain
/// takes the owner that is asked for. Where it fails, it fails as an
/// invalid identity, and nothing is written: the caller does not become
/// the owner.
pub proof fn law_set_up_refuses_invalid_owner(
    pre: LedgerState,
    post: LedgerState,
    sender: Seq<char>,
    wish: Option<Seq<char>>,
    r: Result<Response, ContractError>,
)
    requires
        instantiate_post(pre, post, sender, wish, r),
    ensures
        r is Err <==> wish is Some && !pre.addresses.contains(wish->0),
        r is Err ==> post == pre && r == Err::<Response, ContractError>(
            ContractError::InvalidIdentity {  },
        ),
        r is Ok ==> post.owner == Some(
            if wish is Some {
                wish->0
            } else {
                sender
            },
        ),
{
}

/// A set-up that succeeds on a storage without entries leaves the list in
/// order, with the counter at 0.
pub proof fn law_set_up_puts_in_order(
    pre: LedgerState,
    post: LedgerState,
    sender: Seq<char>,
    wish: Option<Seq<char>>,
    r: Result<Response, ContractError>,
)
    requires
        instantiate_post(pre, post, sender, wish, r),
        r is Ok,
        forall|id: u64| !pre.entries.contains_key(id),
    ensures
        in_order(post),
        post.sequence == Some(0u64),
        wish is None ==> post.owner == Some(sender),
{
}

/// A hand-over by the owner succeeds exactly where the chain takes the
/// string for an address; the string is then the owner. Where the chain
/// does not take it, the call fails as an invalid identity and the owner
/// stays.
pub proof fn law_hand_over_follows_the_chain(
    pre: LedgerState,
    post: LedgerState,
    sender: Seq<char>,
    new_owner: Seq<char>,
    r: Result<Response, ContractError>,
)
    requires
        transfer_post(pre, post, sender, new_owner, r),
        pre.owner == Some(sender),
    ensures
        r is Ok <==> pre.addresses.contains(new_owner),
        r is Ok ==> post.owner == Some(new_owner),
        r is Err ==> post == pre && r == Err::<Response, ContractError>(
            ContractError::InvalidIdentity {  },
        ),
{
}

/// A list that parses still parses after any changing call.
pub proof fn law_execute_keeps_list_readable(
    pre: LedgerState,
    post: LedgerState,
    sender: Seq<char>,
    msg: ExecuteMsg,
    r: Result<Response, ContractError>,
)
    requires
        list_parses(pre),
        execute_post(pre, post, sender, msg, r),
    ensures
        list_parses(post),
{
}

/// A set-up leaves the entries as they are, so a list that parses still
/// parses after it.
pub proof fn law_set_up_keeps_list_readable(
    pre: LedgerState,
    post: LedgerState,
    sender: Seq<char>,
    wish: Option<Seq<char>>,
    r: Result<Response, ContractError>,
)
    requires
        list_parses(pre),
        instantiate_post(pre, post, sender, wish, r),
    ensures
        list_parses(post),
        post.entries == pre.entries,
{
}

/// Every changing call keeps the list in order, and the counter never
/// goes back.
pub proof fn law_execute_keeps_order(
    pre: LedgerState,
    post: LedgerState,
    sender: Seq<char>,
    msg: ExecuteMsg,
    r: Result<Response, ContractError>,
)
    requires
        in_order(pre),
        execute_post(pre, post, sender, msg, r),
    ensures
        in_order(post),
        post.sequence->0 >= pre.sequence->0,
{
}

/// An id is handed out once: on a list in order, the id of a new entry is
/// above every id that is stored, and above every id that was handed out
/// before, whether its entry is still there or not.
pub proof fn law_created_id_is_new(
    pre: LedgerState,
    post: LedgerState,
    sender: Seq<char>,
    description: Seq<char>,
    priority: Option<Priority>,
    r: Result<Response, ContractError>,
)
    requires
        in_order(pre),
        create_post(pre, post, sender, description, priority, r),
        r is Ok,
    ensures
        r matches Ok(Response::EntryCreated { id }) && id > pre.sequence->0
            && !pre.entries.contains_key(id) && post.entries.contains_key(id),
{
}

/// Only a deletion takes an entry away: after any other changing call
/// every id that was stored is still stored.
pub proof fn law_only_delete_removes(
    pre: LedgerState,
    post: LedgerState,
    sender: Seq<char>,
    msg: ExecuteMsg,
    r: Result<Response, ContractError>,
    id: u64,
)
    requires
        execute_post(pre, post, sender, msg, r),
        !(msg is DeleteEntry),
        pre.entries.contains_key(id),
    ensures
        post.entries.contains_key(id),
{
}

} // verus!
