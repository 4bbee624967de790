//! Rules on authorship and on the presence of optional fields. None of them
//! reads anything but its arguments.

use vstd::prelude::*;
use crate::identity::AgentKey;
use crate::record::Record;
use crate::verdict::{Reason, ReasonView, Verdict, VerdictView};

verus! {

/// `Valid` where the two keys are the same bytes, else a rejection for
/// `on_mismatch`.
pub open spec fn same_author_verdict(
    value: Seq<u8>,
    expected: Seq<u8>,
    on_mismatch: ReasonView,
) -> VerdictView {
    if value == expected {
        VerdictView::Valid
    } else {
        VerdictView::Invalid(on_mismatch)
    }
}

/// `Valid` where `present`, else a rejection for `on_mismatch`.
pub open spec fn presence_verdict(present: bool, on_mismatch: ReasonView) -> VerdictView {
    if present {
        VerdictView::Valid
    } else {
        VerdictView::Invalid(on_mismatch)
    }
}

/// The one equality test behind the four authorship rules: they differ in the
/// reason that they reject with.
pub fn validate_same_author(
    value: &AgentKey,
    expected: &AgentKey,
    on_mismatch: Reason,
) -> (verdict: Verdict)
    ensures
        verdict@ == same_author_verdict(value@, expected@, on_mismatch@),
{
    if value.same_as(expected) {
        Verdict::Valid
    } else {
        Verdict::Invalid(on_mismatch)
    }
}

/// The author that a created record names must be the signer of its header.
pub fn validate_value_matches_create_author(
    value: &AgentKey,
    validate_data: &Record,
) -> (verdict: Verdict)
    ensures
        verdict@ == same_author_verdict(
            value@,
            validate_data.header.author@,
            ReasonView::CorruptCreateAuthorReference,
        ),
        verdict@ is Valid <==> value@ == validate_data.header.author@,
{
    validate_same_author(
        value,
        validate_data.header().author(),
        Reason::CorruptCreateAuthorReference,
    )
}

/// The editor that an updated record names must be the signer of its header.
pub fn validate_value_matches_edit_author(
    value: &AgentKey,
    validate_data: &Record,
) -> (verdict: Verdict)
    ensures
        verdict@ == same_author_verdict(
            value@,
            validate_data.header.author@,
            ReasonView::CorruptEditAuthorReference,
        ),
        verdict@ is Valid <==> value@ == validate_data.header.author@,
{
    validate_same_author(
        value,
        validate_data.header().author(),
        Reason::CorruptEditAuthorReference,
    )
}

/// A new version must name the original author that the chain's root names.
pub fn validate_value_matches_original_author(
    new_value: &AgentKey,
    original_value: &AgentKey,
) -> (verdict: Verdict)
    ensures
        verdict@ == same_author_verdict(
            new_value@,
            original_value@,
            ReasonView::TamperCreateAuthorReference,
        ),
{
    validate_same_author(new_value, original_value, Reason::TamperCreateAuthorReference)
}

/// An update may only revise a chain whose original author is its own.
pub fn validate_value_matches_original_author_for_edit(
    new_value: &AgentKey,
    original_value: &AgentKey,
) -> (verdict: Verdict)
    ensures
        verdict@ == same_author_verdict(
            new_value@,
            original_value@,
            ReasonView::UpdateOnNonAuthoredOriginal,
        ),
{
    validate_same_author(new_value, original_value, Reason::UpdateOnNonAuthoredOriginal)
}

/// An update must supply the field. Only its presence is looked at.
pub fn validate_value_is_some<O>(value: &Option<O>) -> (verdict: Verdict)
    ensures
        verdict@ == presence_verdict(value is Some, ReasonView::NoneNotSomeDuringEdit),
{
    match value {
        Some(_) => Verdict::Valid,
        None => Verdict::Invalid(Reason::NoneNotSomeDuringEdit),
    }
}

/// A create must leave the field out. Only its presence is looked at.
pub fn validate_value_is_none<O>(value: &Option<O>) -> (verdict: Verdict)
    ensures
        verdict@ == presence_verdict(value is None, ReasonView::SomeNotNoneDuringCreate),
{
    match value {
        Some(_) => Verdict::Invalid(Reason::SomeNotNoneDuringCreate),
        None => Verdict::Valid,
    }
}

/// Where the two authors differ, the rule for new versions and the rule for
/// edits both reject, and each with a reason that the other does not give.
pub proof fn lemma_changed_author_is_rejected_twice(new_value: AgentKey, original_value: AgentKey)
    requires
        new_value@ != original_value@,
    ensures
        same_author_verdict(
            new_value@,
            original_value@,
            ReasonView::TamperCreateAuthorReference,
        ) is Invalid,
        same_author_verdict(
            new_value@,
            original_value@,
            ReasonView::UpdateOnNonAuthoredOriginal,
        ) is Invalid,
        same_author_verdict(new_value@, original_value@, ReasonView::TamperCreateAuthorReference)
            != same_author_verdict(
            new_value@,
            original_value@,
            ReasonView::UpdateOnNonAuthoredOriginal,
        ),
{
}

/// The presence rules are duals: on every field exactly one of them accepts,
/// the first where the field is there, the second where it is not.
pub proof fn lemma_presence_rules_are_dual<O>(value: Option<O>)
    ensures
        presence_verdict(value is Some, ReasonView::NoneNotSomeDuringEdit) is Valid <==> value is Some,
        presence_verdict(value is None, ReasonView::SomeNotNoneDuringCreate) is Valid <==> value is None,
        presence_verdict(value is Some, ReasonView::NoneNotSomeDuringEdit) is Valid
            <==> presence_verdict(value is None, ReasonView::SomeNotNoneDuringCreate) is Invalid,
{
}

/// A rule keeps no state: whatever two runs of it on the same keys and the
/// same reason return, the two verdicts are the same.
pub proof fn lemma_author_rules_repeat(
    value: AgentKey,
    expected: AgentKey,
    on_mismatch: Reason,
    first: Verdict,
    second: Verdict,
)
    requires
        first@ == same_author_verdict(value@, expected@, on_mismatch@),
        second@ == same_author_verdict(value@, expected@, on_mismatch@),
    ensures
        first@ == second@,
        on_mismatch !is Foreign ==> first == second,
{
}

/// The same of the presence rules.
pub proof fn lemma_presence_rules_repeat(
    present: bool,
    on_mismatch: Reason,
    first: Verdict,
    second: Verdict,
)
    requires
        first@ == presence_verdict(present, on_mismatch@),
        second@ == presence_verdict(present, on_mismatch@),
    ensures
        first@ == second@,
        on_mismatch !is Foreign ==> first == second,
{
}

} // verus!
