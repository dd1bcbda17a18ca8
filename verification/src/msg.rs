//! What goes into a call and what comes out of it.

use vstd::prelude::*;
use crate::state::{Entry, EntryView, Priority, Status};

verus! {

/// Who makes the call.
#[derive(Clone, Debug, PartialEq, Eq)]
pub struct MessageInfo {
    pub sender: String,
}

/// Sets the list up. Without an owner the caller becomes the owner. An
/// owner that the chain does not take for an address is refused.
#[derive(Clone, Debug, PartialEq, Eq)]
pub struct InstantiateMsg {
    pub owner: Option<String>,
}

/// The calls that change the list. Only the owner may make them.
#[allow(inconsistent_fields)]
#[derive(Clone, Debug, PartialEq, Eq)]
pub enum ExecuteMsg {
    NewEntry { description: String, priority: Option<Priority> },
    UpdateEntry {
        id: u64,
        description: Option<String>,
        status: Option<Status>,
        priority: Option<Priority>,
    },
    DeleteEntry { id: u64 },
    TransferOwnerShip { new_owner: String },
}

/// The calls that read the list. Anyone may make them.
#[derive(Clone, Debug, PartialEq, Eq)]
pub enum QueryMsg {
    QueryEntry { id: u64 },
    QueryList { start_after: Option<u64>, limit: Option<u32> },
}

/// One entry, as a query returns it.
#[derive(Clone, Debug, PartialEq, Eq)]
pub struct EntryResponse {
    pub id: u64,
    pub description: String,
    pub status: Status,
    pub priority: Priority,
}

impl View for EntryResponse {
    type V = EntryView;

    open spec fn view(&self) -> EntryView {
        EntryView {
            id: self.id,
            description: self.description@,
            status: self.status,
            priority: self.priority,
        }
    }
}

/// One page of the list, in ascending order of id.
#[derive(Clone, Debug, PartialEq, Eq)]
pub struct ListResponse {
    pub entries: Vec<Entry>,
}

impl ListResponse {
    /// The ids of the page, in its order.
    pub open spec fn ids(&self) -> Seq<u64> {
        self.entries@.map_values(|e: Entry| e.id)
    }
}

/// What a changing call reports when it succeeds.
#[derive(Clone, Debug, PartialEq, Eq)]
pub enum Response {
    Instantiated { owner: String },
    EntryCreated { id: u64 },
    EntryUpdated { id: u64 },
    EntryDeleted { id: u64 },
    OwnershipTransferred { new_owner: String },
}

/// What a reading call returns.
#[derive(Clone, Debug, PartialEq, Eq)]
pub enum QueryResponse {
    Entry(EntryResponse),
    List(ListResponse),
}

} // verus!
