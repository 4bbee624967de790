//! One verdict for all the rules that were run on an operation.

use vstd::prelude::*;
use crate::identity::DhtHash;
use crate::verdict::{hashes_view, ReasonView, Verdict, VerdictView};

verus! {

/// The reason of the last rejection among the verdicts, if there is one.
pub open spec fn last_invalid(verdicts: Seq<Verdict>) -> Option<ReasonView>
    decreases verdicts.len(),
{
    if verdicts.len() == 0 {
        None
    } else {
        match verdicts.last()@ {
            VerdictView::Invalid(reason) => Some(reason),
            _ => last_invalid(verdicts.drop_last()),
        }
    }
}

/// Whether one of the verdicts is unresolved.
pub open spec fn any_unresolved(verdicts: Seq<Verdict>) -> bool
    decreases verdicts.len(),
{
    if verdicts.len() == 0 {
        false
    } else {
        verdicts.last()@ is Unresolved || any_unresolved(verdicts.drop_last())
    }
}

/// The hashes that the unresolved verdicts wait for, in the verdicts' order.
pub open spec fn missing_hashes(verdicts: Seq<Verdict>) -> Seq<Seq<u8>>
    decreases verdicts.len(),
{
    if verdicts.len() == 0 {
        Seq::empty()
    } else {
        missing_hashes(verdicts.drop_last()) + (match verdicts.last()@ {
            VerdictView::Unresolved(hashes) => hashes,
            _ => Seq::empty(),
        })
    }
}

/// A rejection outweighs everything; without one, waiting outweighs
/// acceptance, and what is waited for is all that any verdict waits for.
pub open spec fn reduced(verdicts: Seq<Verdict>) -> VerdictView {
    match last_invalid(verdicts) {
        Some(reason) => VerdictView::Invalid(reason),
        None => if any_unresolved(verdicts) {
            VerdictView::Unresolved(missing_hashes(verdicts))
        } else {
            VerdictView::Valid
        },
    }
}

/// Reduces the verdicts of the rules that were run on one operation to the
/// verdict on the operation.
pub fn reduce_callback_results(callback_results: Vec<Verdict>) -> (verdict: Verdict)
    ensures
        verdict@ == reduced(callback_results@),
{
    let ghost all = callback_results@;
    let mut rest = callback_results;
    let mut missing: Vec<DhtHash> = Vec::new();
    let mut waiting = false;
    while rest.len() > 0
        invariant
            all == callback_results@,
            last_invalid(all) == last_invalid(rest@),
            any_unresolved(all) == (waiting || any_unresolved(rest@)),
            missing_hashes(all) == missing_hashes(rest@) + hashes_view(missing@),
        decreases rest.len(),
    {
        let ghost before = rest@;
        let ghost waited_for = hashes_view(missing@);
        let last = rest.pop();
        match last {
            Some(Verdict::Invalid(reason)) => {
                assert(before.last()@ == VerdictView::Invalid(reason@));
                return Verdict::Invalid(reason);
            },
            Some(Verdict::Unresolved(hashes)) => {
                let mut joined = hashes;
                assert(before.last()@ == VerdictView::Unresolved(hashes_view(joined@)));
                let ghost front = hashes_view(joined@);
                joined.append(&mut missing);
                missing = joined;
                waiting = true;
                assert(hashes_view(missing@) =~= front + waited_for);
            },
            _ => {
                assert(missing_hashes(before) =~= missing_hashes(rest@));
            },
        }
    }
    if waiting {
        Verdict::Unresolved(missing)
    } else {
        Verdict::Valid
    }
}

/// The reduced verdict is a rejection exactly when one of the verdicts is.
pub proof fn lemma_rejection_outweighs(verdicts: Seq<Verdict>)
    ensures
        reduced(verdicts) is Invalid <==> exists|k: int|
            0 <= k < verdicts.len() && #[trigger] verdicts[k]@ is Invalid,
        forall|k: int|
            0 <= k < verdicts.len() && #[trigger] verdicts[k]@ is Invalid ==> reduced(verdicts)
                is Invalid,
    decreases verdicts.len(),
{
    if verdicts.len() > 0 {
        let front = verdicts.drop_last();
        lemma_rejection_outweighs(front);
        if !(verdicts.last()@ is Invalid) {
            if reduced(verdicts) is Invalid {
                let k = choose|k: int| 0 <= k < front.len() && #[trigger] front[k]@ is Invalid;
                assert(verdicts[k]@ is Invalid);
            }
            assert forall|k: int|
                0 <= k < verdicts.len() && #[trigger] verdicts[k]@ is Invalid implies reduced(
                verdicts,
            ) is Invalid by {
                assert(front[k]@ is Invalid);
            }
        } else {
            assert(verdicts[verdicts.len() - 1]@ is Invalid);
        }
    }
}

/// Without a rejection the reduced verdict waits exactly when one of the
/// verdicts does, and else accepts.
pub proof fn lemma_waiting_outweighs_acceptance(verdicts: Seq<Verdict>)
    requires
        forall|k: int| 0 <= k < verdicts.len() ==> !(#[trigger] verdicts[k]@ is Invalid),
    ensures
        reduced(verdicts) is Unresolved <==> exists|k: int|
            0 <= k < verdicts.len() && #[trigger] verdicts[k]@ is Unresolved,
        reduced(verdicts) is Valid <==> forall|k: int|
            0 <= k < verdicts.len() ==> #[trigger] verdicts[k]@ is Valid,
    decreases verdicts.len(),
{
    lemma_rejection_outweighs(verdicts);
    if verdicts.len() > 0 {
        let front = verdicts.drop_last();
        assert forall|k: int| 0 <= k < front.len() implies !(#[trigger] front[k]@ is Invalid) by {
            assert(!(verdicts[k]@ is Invalid));
        }
        lemma_waiting_outweighs_acceptance(front);
        lemma_rejection_outweighs(front);
        let n = verdicts.len() - 1;
        assert(!(verdicts[n]@ is Invalid));
        if verdicts.last()@ is Unresolved {
            assert(verdicts[n]@ is Unresolved);
        } else {
            if reduced(verdicts) is Unresolved {
                let k = choose|k: int| 0 <= k < front.len() && #[trigger] front[k]@ is Unresolved;
                assert(verdicts[k]@ is Unresolved);
            }
            if exists|k: int| 0 <= k < verdicts.len() && #[trigger] verdicts[k]@ is Unresolved {
                let k = choose|k: int|
                    0 <= k < verdicts.len() && #[trigger] verdicts[k]@ is Unresolved;
                assert(front[k]@ is Unresolved);
            }
        }
        if reduced(verdicts) is Valid {
            assert forall|k: int| 0 <= k < verdicts.len() implies #[trigger] verdicts[k]@ is Valid by {
                if k < n {
                    assert(front[k]@ is Valid);
                }
            }
        }
        if forall|k: int| 0 <= k < verdicts.len() ==> #[trigger] verdicts[k]@ is Valid {
            assert(verdicts[n]@ is Valid);
            assert forall|k: int| 0 <= k < front.len() implies #[trigger] front[k]@ is Valid by {
                assert(verdicts[k]@ is Valid);
            }
        }
    }
}

/// A hash is waited for by the reduced verdict exactly when one of the
/// verdicts waits for it.
pub proof fn lemma_missing_is_union(verdicts: Seq<Verdict>, hash: Seq<u8>)
    ensures
        missing_hashes(verdicts).contains(hash) <==> exists|k: int|
            0 <= k < verdicts.len() && waits_for(#[trigger] verdicts[k], hash),
    decreases verdicts.len(),
{
    if verdicts.len() > 0 {
        let front = verdicts.drop_last();
        let n = verdicts.len() - 1;
        lemma_missing_is_union(front, hash);
        let tail = match verdicts.last()@ {
            VerdictView::Unresolved(hashes) => hashes,
            _ => Seq::empty(),
        };
        assert(tail.contains(hash) <==> waits_for(verdicts[n], hash));
        if missing_hashes(verdicts).contains(hash) {
            let at = choose|at: int|
                0 <= at < missing_hashes(verdicts).len() && missing_hashes(verdicts)[at] == hash;
            if at < missing_hashes(front).len() {
                assert(missing_hashes(front)[at] == hash);
                assert(missing_hashes(front).contains(hash));
                let k = choose|k: int| 0 <= k < front.len() && waits_for(#[trigger] front[k], hash);
                assert(waits_for(verdicts[k], hash));
            } else {
                assert(tail[at - missing_hashes(front).len()] == hash);
                assert(tail.contains(hash));
                assert(waits_for(verdicts[n], hash));
            }
        }
        if exists|k: int| 0 <= k < verdicts.len() && waits_for(#[trigger] verdicts[k], hash) {
            let k = choose|k: int| 0 <= k < verdicts.len() && waits_for(#[trigger] verdicts[k], hash);
            if k < n {
                assert(waits_for(front[k], hash));
                let at = choose|at: int|
                    0 <= at < missing_hashes(front).len() && missing_hashes(front)[at] == hash;
                assert(missing_hashes(verdicts)[at] == hash);
            } else {
                let at = choose|at: int| 0 <= at < tail.len() && tail[at] == hash;
                assert(missing_hashes(verdicts)[missing_hashes(front).len() + at] == hash);
            }
        }
    }
}

/// Whether the verdict is unresolved and waits for this hash.
pub open spec fn waits_for(verdict: Verdict, hash: Seq<u8>) -> bool {
    verdict@ matches VerdictView::Unresolved(hashes) && hashes.contains(hash)
}

/// The reduction keeps no state: two runs on the same verdicts agree.
pub proof fn lemma_reduction_repeats(verdicts: Seq<Verdict>, first: Verdict, second: Verdict)
    requires
        first@ == reduced(verdicts),
        second@ == reduced(verdicts),
    ensures
        first@ == second@,
{
}

} // verus!
