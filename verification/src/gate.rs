//! Boot-ROM compatibility gate.
//!
//! The boot ROM reports its version in the low bit of a fixed status
//! register. This bootloader is built against exactly one ROM version; if the
//! running ROM reports another, the register layout this code relies on may
//! not hold, and the caller must halt without touching anything else.

use vstd::prelude::*;

verus! {

/// The boot-ROM version this bootloader was built against.
pub const ROM_VER: u32 = 1;

/// Whether the reported ROM version matches the version this bootloader was
/// built for. `reported` is the raw value of the ROM status register; only
/// its low bit encodes the version.
pub fn rom_compatible(reported: u32) -> (r: bool)
    ensures
        r == (reported & 1 == ROM_VER),
{
    reported & 1 == ROM_VER
}

} // verus!
