//! World-transition trampoline: the stack/entry pair of the final branch.
//!
//! The transfer itself is a two-instruction sequence in the boot binary —
//! load the target stack pointer, branch to the target entry — that never
//! returns and must not be interrupted between the two instructions. This
//! module computes the pair the binary loads. In both the two-world and the
//! single-world transfer, the entry address — its low mode bit included — is
//! deliberately left exactly as the image supplied it: the image's own
//! addressing convention decides what that bit holds.

use vstd::prelude::*;

use crate::image::BootImage;

verus! {

/// The stack pointer and entry address the final branch loads.
#[derive(Clone, Copy, Debug, PartialEq, Eq, Structural)]
pub struct BranchTarget {
    /// Value of the target world's stack pointer.
    pub stack_pointer: u32,
    /// Address the branch jumps to.
    pub entry: u32,
}

/// The target of the secure-to-non-secure transfer: the image's declared
/// stack and entry, the entry's low mode bit left as supplied.
pub fn secure_branch_target(image: &BootImage) -> (t: BranchTarget)
    ensures
        t.stack_pointer == image.stack_pointer,
        t.entry == image.entry_point,
{
    BranchTarget { stack_pointer: image.stack_pointer, entry: image.entry_point }
}

/// The target of a single-world transfer: the image's declared stack and
/// entry, exactly as declared.
pub fn plain_branch_target(image: &BootImage) -> (t: BranchTarget)
    ensures
        t.stack_pointer == image.stack_pointer,
        t.entry == image.entry_point,
{
    BranchTarget { stack_pointer: image.stack_pointer, entry: image.entry_point }
}

} // verus!
