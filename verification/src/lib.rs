//! First-stage secure bootloader core.
//!
//! This library holds the decision logic of a stage-0 boot pipeline for a
//! microcontroller with a secure/non-secure execution split: gating on the
//! boot ROM version, parsing and structurally validating candidate firmware
//! images out of fixed flash slots, selecting the image to boot, deriving a
//! device identity from the selected image's measurement, planning the
//! security-attribution register writes, and computing the stack/entry pair
//! for the final, non-returning branch.
//!
//! Everything here is deterministic logic over plain values. The hardware
//! edges — volatile register reads and writes, the flash mapping, the halt
//! loop and the branch instruction itself — live in the surrounding boot
//! binary, which feeds register values and slot bytes in and carries the
//! computed write plans out.

pub mod diag;
pub mod gate;
pub mod identity;
pub mod image;
pub mod mfg;
pub mod sau;
pub mod select;
pub mod trampoline;
