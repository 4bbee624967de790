//! The three-valued outcome of a rule, and the reasons for a rejection.

use vstd::prelude::*;

verus! {

/// Why a record is rejected.
#[derive(Clone, Debug, PartialEq, Eq)]
pub enum Reason {
    /// The author named in a created record is not the signer of its header.
    CorruptCreateAuthorReference,
    /// The editor named in an updated record is not the signer of its header.
    CorruptEditAuthorReference,
    /// A new version names another original author than the chain's root.
    TamperCreateAuthorReference,
    /// An update revises a chain that its author does not own.
    UpdateOnNonAuthoredOriginal,
    /// A field that an update must supply is absent.
    NoneNotSomeDuringEdit,
    /// A field that only an update may supply is present on a create.
    SomeNotNoneDuringCreate,
    /// A referenced header was found, its entry was not.
    EntryMissing,
    /// A failure reported by the resolution of a dependency, in its own words.
    Foreign(String),
}

/// The mathematical value of a [`Reason`].
pub enum ReasonView {
    CorruptCreateAuthorReference,
    CorruptEditAuthorReference,
    TamperCreateAuthorReference,
    UpdateOnNonAuthoredOriginal,
    NoneNotSomeDuringEdit,
    SomeNotNoneDuringCreate,
    EntryMissing,
    Foreign(Seq<char>),
}

impl View for Reason {
    type V = ReasonView;

    open spec fn view(&self) -> ReasonView {
        match *self {
            Reason::CorruptCreateAuthorReference => ReasonView::CorruptCreateAuthorReference,
            Reason::CorruptEditAuthorReference => ReasonView::CorruptEditAuthorReference,
            Reason::TamperCreateAuthorReference => ReasonView::TamperCreateAuthorReference,
            Reason::UpdateOnNonAuthoredOriginal => ReasonView::UpdateOnNonAuthoredOriginal,
            Reason::NoneNotSomeDuringEdit => ReasonView::NoneNotSomeDuringEdit,
            Reason::SomeNotNoneDuringCreate => ReasonView::SomeNotNoneDuringCreate,
            Reason::EntryMissing => ReasonView::EntryMissing,
            Reason::Foreign(text) => ReasonView::Foreign(text@),
        }
    }
}

/// The message with which the resolution helper reports an element that has a
/// header and no entry.
///
/// Trusted: the body renders `hdk_crud::Error::EntryMissing` with `to_string`;
/// the contract states the message that this variant is declared with.
#[verifier::external_body]
fn entry_missing_text() -> (text: String)
    ensures
        text@ == "Element missing its Entry"@,
{
    hdk_crud::Error::EntryMissing.to_string()
}

/// The reason that a failure text of the resolution helper stands for: the
/// missing entry where the text is the helper's message for it, else the text
/// itself.
pub open spec fn reason_of_text(text: Seq<char>) -> ReasonView {
    if text == "Element missing its Entry"@ {
        ReasonView::EntryMissing
    } else {
        ReasonView::Foreign(text)
    }
}

/// The words in which a reason is reported.
pub open spec fn reason_text(reason: ReasonView) -> Seq<char> {
    match reason {
        ReasonView::CorruptCreateAuthorReference =>
            "the author named in the created record is not the signer of its header"@,
        ReasonView::CorruptEditAuthorReference =>
            "the editor named in the updated record is not the signer of its header"@,
        ReasonView::TamperCreateAuthorReference =>
            "the original author named in the new version is not the original author"@,
        ReasonView::UpdateOnNonAuthoredOriginal =>
            "the update revises a record whose original author is another agent"@,
        ReasonView::NoneNotSomeDuringEdit => "a field that an update must supply is absent"@,
        ReasonView::SomeNotNoneDuringCreate => "a field that a create must leave out is present"@,
        ReasonView::EntryMissing => "Element missing its Entry"@,
        ReasonView::Foreign(text) => text,
    }
}

impl Reason {
    /// The words in which this reason is reported.
    pub fn message(&self) -> (text: String)
        ensures
            text@ == reason_text(self@),
    {
        match self {
            Reason::CorruptCreateAuthorReference =>
                "the author named in the created record is not the signer of its header".to_owned(),
            Reason::CorruptEditAuthorReference =>
                "the editor named in the updated record is not the signer of its header".to_owned(),
            Reason::TamperCreateAuthorReference =>
                "the original author named in the new version is not the original author".to_owned(),
            Reason::UpdateOnNonAuthoredOriginal =>
                "the update revises a record whose original author is another agent".to_owned(),
            Reason::NoneNotSomeDuringEdit => "a field that an update must supply is absent".to_owned(),
            Reason::SomeNotNoneDuringCreate =>
                "a field that a create must leave out is present".to_owned(),
            Reason::EntryMissing => entry_missing_text(),
            Reason::Foreign(text) => text.clone(),
        }
    }

    /// Whether this is the reason of a header found without its entry.
    pub fn is_entry_missing(&self) -> (missing: bool)
        ensures
            missing == (self@ == ReasonView::EntryMissing),
    {
        match self {
            Reason::EntryMissing => true,
            _ => false,
        }
    }

    /// Reads a failure text of the resolution helper as a reason.
    pub fn from_failure_text(text: String) -> (reason: Reason)
        ensures
            reason@ == reason_of_text(text@),
    {
        let missing = entry_missing_text();
        if text == missing {
            Reason::EntryMissing
        } else {
            Reason::Foreign(text)
        }
    }
}

/// The outcome of a rule.
#[derive(Clone, Debug, PartialEq, Eq)]
pub enum Verdict {
    Valid,
    Invalid(Reason),
    /// No judgement yet: these hashes have not reached this node.
    Unresolved(Vec<crate::identity::DhtHash>),
}

/// The mathematical value of a [`Verdict`].
pub enum VerdictView {
    Valid,
    Invalid(ReasonView),
    Unresolved(Seq<Seq<u8>>),
}

/// The byte strings of a list of hashes.
pub open spec fn hashes_view(hashes: Seq<crate::identity::DhtHash>) -> Seq<Seq<u8>> {
    Seq::new(hashes.len(), |k: int| hashes[k]@)
}

impl View for Verdict {
    type V = VerdictView;

    open spec fn view(&self) -> VerdictView {
        match *self {
            Verdict::Valid => VerdictView::Valid,
            Verdict::Invalid(reason) => VerdictView::Invalid(reason@),
            Verdict::Unresolved(hashes) => VerdictView::Unresolved(hashes_view(hashes@)),
        }
    }
}

/// A failure text of the resolution helper that was read as a reason is
/// reported in the same words again.
pub proof fn lemma_failure_text_is_kept(text: Seq<char>)
    ensures
        reason_text(reason_of_text(text)) == text,
{
}

} // verus!
