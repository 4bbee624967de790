//! Whether a record that another one depends on is there.

use vstd::prelude::*;
use crate::verdict::{ReasonView, Verdict, VerdictView};

verus! {

/// What the resolution of a hash, of a header or of an entry, came to.
#[derive(Clone, Debug, PartialEq, Eq)]
pub enum Resolution<T> {
    /// The record was found and its entry decoded to this value.
    Resolved(T),
    /// The resolution failed, and this is its own verdict on why.
    Failed(Verdict),
}

/// The verdict on a dependency: there, where it resolved, and also where its
/// header was found and only its entry is missing; else what the failed
/// resolution said.
pub open spec fn confirmation<T>(resolution: Resolution<T>) -> VerdictView {
    match resolution {
        Resolution::Resolved(_) => VerdictView::Valid,
        Resolution::Failed(failure) => if failure@ == VerdictView::Invalid(
            ReasonView::EntryMissing,
        ) {
            VerdictView::Valid
        } else {
            failure@
        },
    }
}

/// Confirms that a dependency is there. The resolved value is not judged:
/// that is another rule's work. A missing entry is no failure, since the
/// header that was found shows that the action was recorded and signed. Every
/// other failure is handed on as it came, so that hashes that have not arrived
/// yet stay a reason to try again and never become a rejection.
pub fn confirm_resolved_dependency<T>(resolution: Resolution<T>) -> (verdict: Verdict)
    ensures
        verdict@ == confirmation(resolution),
        resolution matches Resolution::Failed(failure) ==> (failure@ != VerdictView::Invalid(
            ReasonView::EntryMissing,
        ) ==> verdict == failure),
{
    match resolution {
        Resolution::Resolved(_) => Verdict::Valid,
        Resolution::Failed(failure) => {
            let missing = match &failure {
                Verdict::Invalid(reason) => reason.is_entry_missing(),
                _ => false,
            };
            if missing {
                Verdict::Valid
            } else {
                failure
            }
        },
    }
}

/// A dependency that resolved is confirmed; so is one whose header was found
/// and whose entry was not; one of which nothing was found stays unresolved,
/// with the same hashes.
pub proof fn lemma_confirmation_by_outcome<T>(value: T, missing: Seq<Seq<u8>>, failure: Verdict)
    requires
        failure@ == VerdictView::Unresolved(missing),
    ensures
        confirmation(Resolution::Resolved(value)) == VerdictView::Valid,
        confirmation(Resolution::<T>::Failed(Verdict::Invalid(crate::verdict::Reason::EntryMissing)))
            == VerdictView::Valid,
        confirmation(Resolution::<T>::Failed(failure)) == VerdictView::Unresolved(missing),
{
}

/// A rejection that the resolution gave for any other reason than the missing
/// entry stays that rejection.
pub proof fn lemma_rejection_is_kept<T>(failure: Verdict)
    requires
        failure@ is Invalid,
        failure@ != VerdictView::Invalid(ReasonView::EntryMissing),
    ensures
        confirmation(Resolution::<T>::Failed(failure)) == failure@,
{
}

/// The confirmer keeps no state: two runs on the same resolution give the
/// same verdict.
pub proof fn lemma_confirmation_repeats<T>(resolution: Resolution<T>, first: Verdict, second: Verdict)
    requires
        first@ == confirmation(resolution),
        second@ == confirmation(resolution),
    ensures
        first@ == second@,
{
}

} // verus!
