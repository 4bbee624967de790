//! Headers, entries and records, as the rules read them.

use vstd::prelude::*;
use crate::identity::{AgentKey, DhtHash};

verus! {

/// When a header was signed: seconds since the epoch, and nanoseconds within
/// the second.
#[derive(Clone, Copy, Debug, PartialEq, Eq)]
pub struct Timestamp {
    pub secs: i64,
    pub nanos: u32,
}

/// What a header records. Only `Create` and `Update` introduce or revise data.
#[derive(Clone, Copy, Debug, PartialEq, Eq)]
pub enum HeaderKind {
    Create,
    Update,
    Other,
}

/// The signed envelope of a record.
#[derive(Clone, Debug, PartialEq, Eq)]
pub struct Header {
    pub author: AgentKey,
    pub timestamp: Timestamp,
    pub kind: HeaderKind,
    pub entry_hash: Option<DhtHash>,
    pub original_header_hash: Option<DhtHash>,
    pub original_entry_hash: Option<DhtHash>,
}

impl Header {
    /// A header names an entry exactly when it creates or updates, and names
    /// the record that it revises exactly when it updates.
    pub open spec fn well_formed(&self) -> bool {
        &&& self.entry_hash is Some <==> (self.kind is Create || self.kind is Update)
        &&& self.original_header_hash is Some <==> self.kind is Update
        &&& self.original_entry_hash is Some <==> self.kind is Update
    }

    /// The header of a new entry.
    pub fn create(author: AgentKey, timestamp: Timestamp, entry_hash: DhtHash) -> (header: Header)
        ensures
            header.well_formed(),
            header == (Header {
                author,
                timestamp,
                kind: HeaderKind::Create,
                entry_hash: Some(entry_hash),
                original_header_hash: None,
                original_entry_hash: None,
            }),
    {
        Header {
            author,
            timestamp,
            kind: HeaderKind::Create,
            entry_hash: Some(entry_hash),
            original_header_hash: None,
            original_entry_hash: None,
        }
    }

    /// The header of a revision of the record under `original_header_hash`.
    pub fn update(
        author: AgentKey,
        timestamp: Timestamp,
        entry_hash: DhtHash,
        original_header_hash: DhtHash,
        original_entry_hash: DhtHash,
    ) -> (header: Header)
        ensures
            header.well_formed(),
            header == (Header {
                author,
                timestamp,
                kind: HeaderKind::Update,
                entry_hash: Some(entry_hash),
                original_header_hash: Some(original_header_hash),
                original_entry_hash: Some(original_entry_hash),
            }),
    {
        Header {
            author,
            timestamp,
            kind: HeaderKind::Update,
            entry_hash: Some(entry_hash),
            original_header_hash: Some(original_header_hash),
            original_entry_hash: Some(original_entry_hash),
        }
    }

    /// A header that carries no entry.
    pub fn other(author: AgentKey, timestamp: Timestamp) -> (header: Header)
        ensures
            header.well_formed(),
            header == (Header {
                author,
                timestamp,
                kind: HeaderKind::Other,
                entry_hash: None,
                original_header_hash: None,
                original_entry_hash: None,
            }),
    {
        Header {
            author,
            timestamp,
            kind: HeaderKind::Other,
            entry_hash: None,
            original_header_hash: None,
            original_entry_hash: None,
        }
    }

    /// The key of the agent who signed this header.
    pub fn author(&self) -> (author: &AgentKey)
        ensures
            *author == self.author,
    {
        &self.author
    }
}

/// The payload of a record, tagged with what it is.
#[derive(Clone, Debug, PartialEq, Eq)]
pub enum Entry {
    /// Application data, still serialized.
    App(Vec<u8>),
    /// The key of an agent.
    Agent(AgentKey),
    /// Application data that waits for the signatures of several agents.
    CounterSign,
    /// A claim on a capability.
    CapClaim,
    /// A grant of a capability.
    CapGrant,
}

/// A header together with its entry, where the entry is at hand.
#[derive(Clone, Debug, PartialEq, Eq)]
pub struct Record {
    pub header: Header,
    pub entry: Option<Entry>,
}

impl Record {
    pub fn new(header: Header, entry: Option<Entry>) -> (record: Record)
        ensures
            record == (Record { header, entry }),
    {
        Record { header, entry }
    }

    pub fn header(&self) -> (header: &Header)
        ensures
            *header == self.header,
    {
        &self.header
    }
}

} // verus!
