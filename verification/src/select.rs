//! Image selector: which of the candidate slots boots, and why.
//!
//! Only structurally valid candidates are eligible. Among the eligible, the
//! strictly higher version/epoch wins; on equal versions the lower slot index
//! wins, so selection is deterministic. A single eligible candidate is chosen
//! whatever its version. With no eligible candidate, selection fails and the
//! caller must halt: there is nothing safe to run.

use vstd::prelude::*;

use crate::image::BootImage;

verus! {

/// Why a slot was chosen.
#[derive(Clone, Copy, Debug, PartialEq, Eq, Structural)]
pub enum SelectionReason {
    /// Several candidates were eligible and this one had the highest
    /// version/epoch (ties broken towards the lower slot).
    ValidAndNewest,
    /// Exactly one candidate was eligible; its version did not matter.
    OnlyCandidate,
}

/// The outcome of selection, kept for the diagnostic record.
#[derive(Clone, Copy, Debug, PartialEq, Eq, Structural)]
pub enum BootDecision {
    /// The slot with this index boots, for this reason.
    Selected(usize, SelectionReason),
    /// No candidate was structurally valid; nothing boots.
    NoEligibleImage,
}

/// The winning slot among the first `n` candidates: the eligible slot with
/// the highest version, ties broken towards the lower index; `None` when none
/// of the first `n` is eligible.
pub open spec fn best_upto(imgs: Seq<BootImage>, n: int) -> Option<int>
    decreases n,
{
    if n <= 0 {
        None
    } else {
        let prev = best_upto(imgs, n - 1);
        if !imgs[n - 1].valid {
            prev
        } else {
            match prev {
                None => Some(n - 1),
                Some(b) => if imgs[n - 1].version > imgs[b].version {
                    Some(n - 1)
                } else {
                    prev
                },
            }
        }
    }
}

/// How many of the first `n` candidates are eligible.
pub open spec fn eligible_count(imgs: Seq<BootImage>, n: int) -> int
    decreases n,
{
    if n <= 0 {
        0
    } else {
        eligible_count(imgs, n - 1) + if imgs[n - 1].valid {
            1int
        } else {
            0int
        }
    }
}

/// The decision the selector takes on the candidate set `imgs`.
pub open spec fn spec_select(imgs: Seq<BootImage>) -> BootDecision {
    match best_upto(imgs, imgs.len() as int) {
        None => BootDecision::NoEligibleImage,
        Some(b) => BootDecision::Selected(
            b as usize,
            if eligible_count(imgs, imgs.len() as int) == 1 {
                SelectionReason::OnlyCandidate
            } else {
                SelectionReason::ValidAndNewest
            },
        ),
    }
}

/// The slot index a decision names, if it names one.
pub open spec fn spec_chosen_slot(d: BootDecision) -> Option<usize> {
    match d {
        BootDecision::Selected(s, _) => Some(s),
        BootDecision::NoEligibleImage => None,
    }
}

/// The slot index of `d`, if `d` names one.
pub fn chosen_slot(d: &BootDecision) -> (r: Option<usize>)
    ensures
        r == spec_chosen_slot(*d),
{
    match d {
        BootDecision::Selected(s, _) => Some(*s),
        BootDecision::NoEligibleImage => None,
    }
}

/// The `Option<usize>` running best, as the spec's `Option<int>`.
spec fn opt_index(o: Option<usize>) -> Option<int> {
    match o {
        None => None,
        Some(b) => Some(b as int),
    }
}

/// Evaluates every candidate slot and decides which one boots.
///
/// The decision is a pure function of the candidate set: only valid
/// candidates are eligible, the highest version wins, ties go to the lower
/// slot, a lone eligible candidate wins outright, and an empty eligible set
/// yields `NoEligibleImage`.
pub fn select_image_to_boot(candidates: &Vec<BootImage>) -> (r: BootDecision)
    ensures
        r == spec_select(candidates@),
        r matches BootDecision::Selected(s, _) ==> s < candidates@.len()
            && candidates@[s as int].valid,
{
    let ghost imgs = candidates@;
    let mut best: Option<usize> = None;
    let mut eligible: usize = 0;
    let mut i: usize = 0;
    while i < candidates.len()
        invariant
            i <= imgs.len(),
            imgs == candidates@,
            opt_index(best) == best_upto(imgs, i as int),
            eligible == eligible_count(imgs, i as int),
            eligible <= i,
            best matches Some(b) ==> b < i && imgs[b as int].valid,
        decreases imgs.len() - i,
    {
        if candidates[i].valid {
            eligible = eligible + 1;
            best = match best {
                None => Some(i),
                Some(b) => if candidates[i].version > candidates[b].version {
                    Some(i)
                } else {
                    Some(b)
                },
            };
        }
        i = i + 1;
    }
    match best {
        None => BootDecision::NoEligibleImage,
        Some(b) => BootDecision::Selected(
            b,
            if eligible == 1 {
                SelectionReason::OnlyCandidate
            } else {
                SelectionReason::ValidAndNewest
            },
        ),
    }
}

/// The winner among the first `n` candidates is eligible, in range, and
/// unbeaten: no eligible candidate among the first `n` has a strictly higher
/// version, and none with the same version sits in a lower slot; and there is
/// no winner exactly when none of the first `n` is eligible.
pub proof fn lemma_best_upto_characterizes(imgs: Seq<BootImage>, n: int)
    requires
        0 <= n <= imgs.len(),
    ensures
        best_upto(imgs, n) is None <==> (forall|j: int|
            0 <= j < n ==> !(#[trigger] imgs[j]).valid),
        best_upto(imgs, n) matches Some(b) ==> 0 <= b < n && imgs[b].valid && (forall|j: int|
            0 <= j < n && (#[trigger] imgs[j]).valid ==> imgs[j].version <= imgs[b].version) && (
        forall|j: int|
            0 <= j < n && (#[trigger] imgs[j]).valid && imgs[j].version == imgs[b].version
                ==> b <= j),
    decreases n,
{
    if n > 0 {
        lemma_best_upto_characterizes(imgs, n - 1);
    }
}

/// Law: a selected slot is structurally valid and unbeaten — no valid
/// candidate carries a strictly higher version, and no valid candidate with
/// the same version sits in a lower slot.
pub proof fn lemma_selected_is_best(imgs: Seq<BootImage>)
    requires
        imgs.len() <= usize::MAX,
    ensures
        spec_select(imgs) matches BootDecision::Selected(s, _) ==> s < imgs.len()
            && imgs[s as int].valid && (forall|j: int|
            0 <= j < imgs.len() && (#[trigger] imgs[j]).valid
                ==> imgs[j].version <= imgs[s as int].version) && (forall|j: int|
            0 <= j < imgs.len() && (#[trigger] imgs[j]).valid && imgs[j].version == imgs[
                s as int].version ==> s <= j),
{
    lemma_best_upto_characterizes(imgs, imgs.len() as int);
}

/// Law: selection reports `NoEligibleImage` exactly when no candidate is
/// structurally valid, and then names no slot.
pub proof fn lemma_no_eligible_image(imgs: Seq<BootImage>)
    ensures
        (spec_select(imgs) == BootDecision::NoEligibleImage) <==> (forall|j: int|
            0 <= j < imgs.len() ==> !(#[trigger] imgs[j]).valid),
        spec_select(imgs) == BootDecision::NoEligibleImage ==> spec_chosen_slot(spec_select(imgs))
            is None,
{
    lemma_best_upto_characterizes(imgs, imgs.len() as int);
}

/// Law: of a pair of candidates where exactly one is structurally valid, the
/// selector picks the valid one as the only candidate, whatever the two
/// versions are.
pub proof fn lemma_single_valid_of_pair(imgs: Seq<BootImage>)
    requires
        imgs.len() == 2,
        imgs[0].valid != imgs[1].valid,
    ensures
        imgs[0].valid ==> spec_select(imgs) == BootDecision::Selected(
            0usize,
            SelectionReason::OnlyCandidate,
        ),
        imgs[1].valid ==> spec_select(imgs) == BootDecision::Selected(
            1usize,
            SelectionReason::OnlyCandidate,
        ),
{
    assert(eligible_count(imgs, 0) == 0);
    assert(eligible_count(imgs, 1) == if imgs[0].valid { 1int } else { 0int });
    assert(eligible_count(imgs, 2) == 1);
    assert(best_upto(imgs, 0) is None);
    assert(best_upto(imgs, 1) == if imgs[0].valid { Some(0int) } else { Option::<int>::None });
    assert(best_upto(imgs, 2) == if imgs[0].valid { Some(0int) } else { Some(1int) });
}

/// Law: of two structurally valid candidates, the strictly higher version
/// wins; on equal versions the lower slot wins.
pub proof fn lemma_newest_wins_of_pair(imgs: Seq<BootImage>)
    requires
        imgs.len() == 2,
        imgs[0].valid,
        imgs[1].valid,
    ensures
        imgs[0].version >= imgs[1].version ==> spec_select(imgs) == BootDecision::Selected(
            0usize,
            SelectionReason::ValidAndNewest,
        ),
        imgs[1].version > imgs[0].version ==> spec_select(imgs) == BootDecision::Selected(
            1usize,
            SelectionReason::ValidAndNewest,
        ),
{
    assert(eligible_count(imgs, 0) == 0);
    assert(eligible_count(imgs, 1) == 1);
    assert(eligible_count(imgs, 2) == 2);
    assert(best_upto(imgs, 0) is None);
    assert(best_upto(imgs, 1) == Some(0int));
}

/// Law: selection is deterministic — two decisions drawn from the same
/// candidate set are the same decision.
pub proof fn lemma_selection_deterministic(imgs: Seq<BootImage>, d1: BootDecision, d2: BootDecision)
    requires
        d1 == spec_select(imgs),
        d2 == spec_select(imgs),
    ensures
        d1 == d2,
{
}

} // verus!

