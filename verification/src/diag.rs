//! Diagnostic record: the words written once per boot to a fixed, well-known
//! RAM region for external tooling to read across resets.
//!
//! The record carries the decision and the resolved image's key fields. The
//! library only computes the words; the boot binary stores them at
//! `DIAG_RAM_BASE`, a write that must not fail and must not block, and never
//! reads them back.

use vstd::prelude::*;

use crate::image::BootImage;
use crate::select::{BootDecision, SelectionReason};

verus! {

/// Fixed RAM address the record is written to.
pub const DIAG_RAM_BASE: u32 = 0x20003F00;

/// Number of words in the record.
pub const DIAG_WORDS: usize = 8;

/// Record word naming the decision taken.
pub open spec fn spec_decision_code(d: BootDecision) -> u32 {
    match d {
        BootDecision::Selected(_, SelectionReason::ValidAndNewest) => 1,
        BootDecision::Selected(_, SelectionReason::OnlyCandidate) => 2,
        BootDecision::NoEligibleImage => 3,
    }
}

/// Record word naming the chosen slot; all ones when none was chosen.
pub open spec fn spec_decision_slot(d: BootDecision) -> u32 {
    match d {
        BootDecision::Selected(s, _) => s as u32,
        BootDecision::NoEligibleImage => 0xFFFFFFFF,
    }
}

/// The full record: the decision, the chosen slot, and the resolved image's
/// version, addresses and validity.
pub open spec fn spec_diag_record(img: BootImage, d: BootDecision) -> Seq<u32> {
    seq![
        spec_decision_code(d),
        spec_decision_slot(d),
        img.version,
        img.base,
        img.entry_point,
        img.stack_pointer,
        img.vector_table,
        if img.valid {
            1u32
        } else {
            0u32
        },
    ]
}

/// Computes the diagnostic record of the evaluated image `img` and the
/// decision `d`.
pub fn diag_record(img: &BootImage, d: &BootDecision) -> (r: Vec<u32>)
    ensures
        r@ == spec_diag_record(*img, *d),
        r@.len() == DIAG_WORDS,
{
    let code: u32 = match d {
        BootDecision::Selected(_, SelectionReason::ValidAndNewest) => 1,
        BootDecision::Selected(_, SelectionReason::OnlyCandidate) => 2,
        BootDecision::NoEligibleImage => 3,
    };
    let slot: u32 = match d {
        BootDecision::Selected(s, _) => #[verifier::truncate] (*s as u32),
        BootDecision::NoEligibleImage => 0xFFFFFFFF,
    };
    let mut r: Vec<u32> = Vec::new();
    r.push(code);
    r.push(slot);
    r.push(img.version);
    r.push(img.base);
    r.push(img.entry_point);
    r.push(img.stack_pointer);
    r.push(img.vector_table);
    r.push(if img.valid { 1 } else { 0 });
    assert(r@ =~= spec_diag_record(*img, *d));
    r
}

} // verus!
