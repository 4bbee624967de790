//! From the hash of a header to the typed value of its entry, one step at a
//! time: the steps decide, the caller fetches and decodes.

use vstd::prelude::*;
use crate::identity::DhtHash;
use crate::record::{Entry, Header};

verus! {

/// Why a header cannot be resolved to a typed value. These are faults in what
/// the resolver was handed, not judgements on a record.
#[derive(Clone, Debug, PartialEq, Eq)]
pub enum Error {
    /// The header names no entry: it neither creates nor updates.
    NotACreateOrUpdateHeader,
    /// The entry is not application data.
    UnexpectedEntryVariant,
    /// The payload is not of the expected shape; the decoder's words.
    DeserializationFailed(String),
}

/// The words in which a fault of the resolver is reported.
pub open spec fn error_text(error: Error) -> Seq<char> {
    match error {
        Error::NotACreateOrUpdateHeader =>
            "within resolve_header_to_entry a header that was not a Create variant was attempted"@,
        Error::UnexpectedEntryVariant =>
            "entry within resolve_header_to_entry must be an Entry::App variant"@,
        Error::DeserializationFailed(details) => details@,
    }
}

impl Error {
    /// The words in which this fault is reported.
    pub fn message(&self) -> (text: String)
        ensures
            text@ == error_text(*self),
    {
        match self {
            Error::NotACreateOrUpdateHeader =>
                "within resolve_header_to_entry a header that was not a Create variant was attempted".to_owned(),
            Error::UnexpectedEntryVariant =>
                "entry within resolve_header_to_entry must be an Entry::App variant".to_owned(),
            Error::DeserializationFailed(details) => details.clone(),
        }
    }
}

/// What the caller has at hand when it asks for the next step.
#[derive(Debug, PartialEq, Eq)]
pub enum Fetched<T> {
    /// Nothing yet, but the hash of the header to start from.
    Nothing(DhtHash),
    /// The header that was asked for.
    Header(Header),
    /// The entry that was asked for.
    Entry(Entry),
    /// What decoding the payload gave: the value, or the decoder's complaint.
    Payload(Result<T, String>),
}

/// What the caller is to do next.
#[derive(Debug, PartialEq, Eq)]
pub enum Step<T> {
    FetchHeader(DhtHash),
    FetchEntry(DhtHash),
    /// Decode these payload bytes into the expected shape.
    Decode(Vec<u8>),
    /// The resolution has ended.
    Done(Result<T, Error>),
}

/// The step that follows on what has been fetched.
pub open spec fn next_step<T>(fetched: Fetched<T>) -> Step<T> {
    match fetched {
        Fetched::Nothing(header_hash) => Step::FetchHeader(header_hash),
        Fetched::Header(header) => match header.entry_hash {
            Some(entry_hash) => Step::FetchEntry(entry_hash),
            None => Step::Done(Err(Error::NotACreateOrUpdateHeader)),
        },
        Fetched::Entry(entry) => match entry {
            Entry::App(bytes) => Step::Decode(bytes),
            _ => Step::Done(Err(Error::UnexpectedEntryVariant)),
        },
        Fetched::Payload(decoded) => match decoded {
            Ok(value) => Step::Done(Ok(value)),
            Err(details) => Step::Done(Err(Error::DeserializationFailed(details))),
        },
    }
}

/// What a resolution ends with, given the header that the store holds under
/// the hash, the entry that it holds under the header's entry hash, and what
/// decoding that entry's payload gives.
pub open spec fn resolved<T>(
    header: Header,
    entry: Entry,
    decoded: Result<T, String>,
) -> Result<T, Error> {
    if header.entry_hash is None {
        Err(Error::NotACreateOrUpdateHeader)
    } else if !(entry is App) {
        Err(Error::UnexpectedEntryVariant)
    } else {
        match decoded {
            Ok(value) => Ok(value),
            Err(details) => Err(Error::DeserializationFailed(details)),
        }
    }
}

/// One step of the resolution of a header hash to the typed value of its
/// entry. Start with `Fetched::Nothing` and the hash of a header that creates
/// or updates; do what each step asks and come back with the result, until
/// the step is `Done`. A fetch that fails is the caller's to report: no step
/// follows on it.
pub fn must_get_header_and_entry<T>(fetched: Fetched<T>) -> (step: Step<T>)
    ensures
        step == next_step(fetched),
        fetched matches Fetched::Header(header) && header.entry_hash is None ==> step
            == Step::<T>::Done(Err(Error::NotACreateOrUpdateHeader)),
{
    match fetched {
        Fetched::Nothing(header_hash) => Step::FetchHeader(header_hash),
        Fetched::Header(header) => match header.entry_hash {
            Some(entry_hash) => Step::FetchEntry(entry_hash),
            None => Step::Done(Err(Error::NotACreateOrUpdateHeader)),
        },
        Fetched::Entry(entry) => match entry {
            Entry::App(bytes) => Step::Decode(bytes),
            _ => Step::Done(Err(Error::UnexpectedEntryVariant)),
        },
        Fetched::Payload(decoded) => match decoded {
            Ok(value) => Step::Done(Ok(value)),
            Err(details) => Step::Done(Err(Error::DeserializationFailed(details))),
        },
    }
}

/// A header that neither creates nor updates is refused as soon as it is
/// fetched: no entry is asked for, so nothing else that the store holds
/// bears on the outcome.
pub proof fn lemma_header_without_entry_is_refused<T>(header: Header)
    requires
        header.well_formed(),
        header.kind is Other,
    ensures
        next_step::<T>(Fetched::Header(header)) == Step::<T>::Done(
            Err(Error::NotACreateOrUpdateHeader),
        ),
        forall|entry: Entry, decoded: Result<T, String>| #[trigger]
            resolved(header, entry, decoded) == Err::<T, Error>(Error::NotACreateOrUpdateHeader),
{
}

/// Following the steps from a fetched header ends with `resolved`: the entry
/// is asked for under the header's entry hash, its payload is handed out for
/// decoding, and the last step carries the outcome.
pub proof fn lemma_steps_end_with_resolved<T>(
    header: Header,
    entry: Entry,
    decoded: Result<T, String>,
)
    ensures
        header.entry_hash is None ==> next_step::<T>(Fetched::Header(header))
            == Step::<T>::Done(resolved(header, entry, decoded)),
        header.entry_hash is Some ==> next_step::<T>(Fetched::Header(header))
            == Step::<T>::FetchEntry(header.entry_hash->0),
        header.entry_hash is Some && !(entry is App) ==> next_step::<T>(Fetched::Entry(entry))
            == Step::<T>::Done(resolved(header, entry, decoded)),
        header.entry_hash is Some && entry is App ==> {
            &&& next_step::<T>(Fetched::Entry(entry)) == Step::<T>::Decode(entry->App_0)
            &&& next_step(Fetched::Payload(decoded)) == Step::Done(resolved(header, entry, decoded))
        },
{
}

/// A step keeps no state: two runs on the same input give the same step.
pub proof fn lemma_steps_repeat<T>(fetched: Fetched<T>, first: Step<T>, second: Step<T>)
    requires
        first == next_step(fetched),
        second == next_step(fetched),
    ensures
        first == second,
{
}

} // verus!
