//! The records of the list and the codes under which their two
//! enumerations are stored.

use vstd::prelude::*;

verus! {

/// How far the work on an entry has come. A new entry is `Todo`.
#[derive(Clone, Copy, Debug, PartialEq, Eq, Structural)]
pub enum Status {
    Todo,
    InProgress,
    Done,
    Cancelled,
}

/// How urgent an entry is. An entry made without a priority is `Unset`.
#[derive(Clone, Copy, Debug, PartialEq, Eq, Structural)]
pub enum Priority {
    Unset,
    Low,
    Medium,
    High,
}

/// The code under which a status is stored.
pub open spec fn status_code(status: Status) -> u8 {
    match status {
        Status::Todo => 0,
        Status::InProgress => 1,
        Status::Done => 2,
        Status::Cancelled => 3,
    }
}

/// The status that a stored code stands for, if it stands for one.
pub open spec fn status_of_code(code: u8) -> Option<Status> {
    if code == 0 {
        Some(Status::Todo)
    } else if code == 1 {
        Some(Status::InProgress)
    } else if code == 2 {
        Some(Status::Done)
    } else if code == 3 {
        Some(Status::Cancelled)
    } else {
        None
    }
}

/// The code under which a priority is stored.
pub open spec fn priority_code(priority: Priority) -> u8 {
    match priority {
        Priority::Unset => 0,
        Priority::Low => 1,
        Priority::Medium => 2,
        Priority::High => 3,
    }
}

/// The priority that a stored code stands for, if it stands for one.
pub open spec fn priority_of_code(code: u8) -> Option<Priority> {
    if code == 0 {
        Some(Priority::Unset)
    } else if code == 1 {
        Some(Priority::Low)
    } else if code == 2 {
        Some(Priority::Medium)
    } else if code == 3 {
        Some(Priority::High)
    } else {
        None
    }
}

impl Status {
    /// The code under which this status is stored.
    pub fn code(self) -> (code: u8)
        ensures
            code == status_code(self),
            status_of_code(code) == Some(self),
    {
        match self {
            Status::Todo => 0,
            Status::InProgress => 1,
            Status::Done => 2,
            Status::Cancelled => 3,
        }
    }

    /// Reads a stored code back; `None` for a code that no status has.
    pub fn from_code(code: u8) -> (status: Option<Status>)
        ensures
            status == status_of_code(code),
    {
        if code == 0 {
            Some(Status::Todo)
        } else if code == 1 {
            Some(Status::InProgress)
        } else if code == 2 {
            Some(Status::Done)
        } else if code == 3 {
            Some(Status::Cancelled)
        } else {
            None
        }
    }
}

impl Priority {
    /// The code under which this priority is stored.
    pub fn code(self) -> (code: u8)
        ensures
            code == priority_code(self),
            priority_of_code(code) == Some(self),
    {
        match self {
            Priority::Unset => 0,
            Priority::Low => 1,
            Priority::Medium => 2,
            Priority::High => 3,
        }
    }

    /// Reads a stored code back; `None` for a code that no priority has.
    pub fn from_code(code: u8) -> (priority: Option<Priority>)
        ensures
            priority == priority_of_code(code),
    {
        if code == 0 {
            Some(Priority::Unset)
        } else if code == 1 {
            Some(Priority::Low)
        } else if code == 2 {
            Some(Priority::Medium)
        } else if code == 3 {
            Some(Priority::High)
        } else {
            None
        }
    }
}

/// One task of the list.
#[derive(Clone, Debug, PartialEq, Eq)]
pub struct Entry {
    pub id: u64,
    pub description: String,
    pub status: Status,
    pub priority: Priority,
}

/// An entry as contracts speak of it.
pub struct EntryView {
    pub id: u64,
    pub description: Seq<char>,
    pub status: Status,
    pub priority: Priority,
}

impl View for Entry {
    type V = EntryView;

    open spec fn view(&self) -> EntryView {
        EntryView {
            id: self.id,
            description: self.description@,
            status: self.status,
            priority: self.priority,
        }
    }
}

/// What the storage keeps under an entry's id: the description and the codes
/// of status and priority.
pub type Record = (Seq<char>, u8, u8);

/// The record that is stored for an entry.
pub open spec fn record_of(entry: EntryView) -> Record {
    (entry.description, status_code(entry.status), priority_code(entry.priority))
}

/// The entry that a record under `id` stands for; `None` where one of its
/// codes stands for nothing.
pub open spec fn entry_of(id: u64, record: Record) -> Option<EntryView> {
    match (status_of_code(record.1), priority_of_code(record.2)) {
        (Some(status), Some(priority)) => Some(
            EntryView { id, description: record.0, status, priority },
        ),
        _ => None,
    }
}

impl Entry {
    /// The stored form of this entry, without its id.
    pub fn to_record(self) -> (record: (String, u8, u8))
        ensures
            record@ == record_of(self@),
            entry_of(self.id, record@) == Some(self@),
    {
        let status_code = self.status.code();
        let priority_code = self.priority.code();
        (self.description, status_code, priority_code)
    }

    /// Reads the record stored under `id` back into an entry. It is `None`
    /// exactly where a code of the record stands for nothing.
    pub fn from_record(id: u64, record: (String, u8, u8)) -> (entry: Option<Entry>)
        ensures
            match entry {
                Some(e) => entry_of(id, record@) == Some(e@),
                None => entry_of(id, record@) is None,
            },
    {
        let (description, status_code, priority_code) = record;
        match Status::from_code(status_code) {
            Some(status) => match Priority::from_code(priority_code) {
                Some(priority) => Some(Entry { id, description, status, priority }),
                None => None,
            },
            None => None,
        }
    }
}

} // verus!
