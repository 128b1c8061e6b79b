//! Image store abstraction: the flash-slot header layout, its parsing, and
//! structural validation.
//!
//! Each candidate firmware image sits in a fixed flash slot and starts with a
//! fixed-offset header of little-endian words: a magic marker, a version/epoch
//! value, the image length, the entry point, the initial stack pointer, the
//! vector-table address, and a table of up to eight security-attribution
//! regions. Parsing never faults on malformed bytes: a slot that fails any
//! structural check yields a descriptor whose validity flag is clear, and the
//! selector never picks such a descriptor.

use vstd::prelude::*;

verus! {

/// Marker word that opens every well-formed image header.
pub const HEADER_MAGIC: u32 = 0x424F4F54;

/// Byte offset of the magic word.
pub const OFF_MAGIC: usize = 0;

/// Byte offset of the version/epoch word.
pub const OFF_VERSION: usize = 4;

/// Byte offset of the declared image length in bytes, counted from the slot
/// base.
pub const OFF_LENGTH: usize = 8;

/// Byte offset of the entry point (an absolute address).
pub const OFF_ENTRY: usize = 12;

/// Byte offset of the initial stack pointer (an absolute address).
pub const OFF_STACK: usize = 16;

/// Byte offset of the vector-table address (an absolute address).
pub const OFF_VECTORS: usize = 20;

/// Byte offset of the declared region count.
pub const OFF_REGION_COUNT: usize = 24;

/// Byte offset of the first region-table entry.
pub const OFF_REGION_TABLE: usize = 28;

/// Bytes per region-table entry: index, base, limit, attribute.
pub const REGION_ENTRY_BYTES: usize = 16;

/// Most regions an image may declare; the hardware has this many
/// attribution regions.
pub const MAX_REGIONS: usize = 8;

/// Total header size: the fixed words plus a full region table.
pub const HEADER_BYTES: usize = 28 + 16 * 8;

/// Security attribution of one declared region.
#[derive(Clone, Copy, Debug, PartialEq, Eq, Structural)]
pub enum RegionAttribute {
    /// The range stays in the secure world.
    Secure,
    /// The range is handed to the non-secure world.
    NonSecure,
    /// Non-secure callable: secure code reachable from the non-secure world
    /// through gateway veneers.
    NonSecureCallable,
}

/// One entry of an image's security-attribution table: a hardware region
/// index and an inclusive address range with its attribution.
#[derive(Clone, Copy, Debug, PartialEq, Eq, Structural)]
pub struct SecurityRegion {
    /// Hardware region number this entry programs.
    pub index: u32,
    /// First address of the range.
    pub base: u32,
    /// Last address of the range (inclusive).
    pub limit: u32,
    /// Attribution the range receives.
    pub attribute: RegionAttribute,
}

/// One candidate firmware image, as read out of a flash slot.
///
/// `valid` records the outcome of structural validation; a descriptor with
/// `valid` clear is never eligible for selection, and its other fields are
/// meaningful only as diagnostics.
#[derive(Clone, Debug)]
pub struct BootImage {
    /// Base address of the flash slot the image sits in.
    pub base: u32,
    /// Declared image length in bytes, from `base`.
    pub length: u32,
    /// Version/epoch value used by the selector.
    pub version: u32,
    /// Program counter on entry (absolute address).
    pub entry_point: u32,
    /// Initial stack pointer (absolute address).
    pub stack_pointer: u32,
    /// Vector-table address (absolute address).
    pub vector_table: u32,
    /// Declared security-attribution regions, in header order.
    pub regions: Vec<SecurityRegion>,
    /// Outcome of structural validation.
    pub valid: bool,
}

/// The little-endian word stored at byte offset `off` of `b`.
pub open spec fn word_at(b: Seq<u8>, off: int) -> u32 {
    (b[off] + 0x100 * b[off + 1] + 0x10000 * b[off + 2] + 0x1000000 * b[off + 3]) as u32
}

/// Reads the little-endian word at byte offset `off` of `bytes`.
pub fn read_word(bytes: &[u8], off: usize) -> (r: u32)
    requires
        off + 4 <= bytes@.len(),
    ensures
        r == word_at(bytes@, off as int),
{
    let b0 = bytes[off] as u32;
    let b1 = bytes[off + 1] as u32;
    let b2 = bytes[off + 2] as u32;
    let b3 = bytes[off + 3] as u32;
    b0 + 0x100 * b1 + 0x10000 * b2 + 0x1000000 * b3
}

/// The attribution a raw attribute word encodes. Only words up to 2 are
/// accepted by validation; higher values are mapped arbitrarily here and
/// rejected there.
pub open spec fn attr_of(w: u32) -> RegionAttribute {
    if w == 0 {
        RegionAttribute::Secure
    } else if w == 1 {
        RegionAttribute::NonSecure
    } else {
        RegionAttribute::NonSecureCallable
    }
}

/// Byte offset of region-table entry `k`.
pub open spec fn region_entry_off(k: int) -> int {
    OFF_REGION_TABLE + REGION_ENTRY_BYTES * k
}

/// Region-table entry `k`, as stored in the header bytes `b`.
pub open spec fn region_at(b: Seq<u8>, k: int) -> SecurityRegion {
    SecurityRegion {
        index: word_at(b, region_entry_off(k)),
        base: word_at(b, region_entry_off(k) + 4),
        limit: word_at(b, region_entry_off(k) + 8),
        attribute: attr_of(word_at(b, region_entry_off(k) + 12)),
    }
}

/// Whether the raw attribute word of region-table entry `k` names one of the
/// three attributions.
pub open spec fn region_attr_word_ok(b: Seq<u8>, k: int) -> bool {
    word_at(b, region_entry_off(k) + 12) <= 2
}

/// The declared region table of the header bytes `b`: the first
/// `region count` entries, in header order.
pub open spec fn parsed_regions(b: Seq<u8>) -> Seq<SecurityRegion> {
    Seq::new(word_at(b, OFF_REGION_COUNT as int) as nat, |k: int| region_at(b, k))
}

/// A single region is well formed: its hardware index exists and its range is
/// not empty.
pub open spec fn region_wf(r: SecurityRegion) -> bool {
    r.index < MAX_REGIONS && r.base <= r.limit
}

/// Whether the inclusive address ranges of `a` and `b` share an address.
pub open spec fn regions_overlap(a: SecurityRegion, b: SecurityRegion) -> bool {
    a.base <= b.limit && b.base <= a.limit
}

/// A region table is well formed: it fits the hardware, every entry is well
/// formed, no two entries share a hardware index, and no two ranges overlap.
pub open spec fn regions_wf(rs: Seq<SecurityRegion>) -> bool {
    &&& rs.len() <= MAX_REGIONS
    &&& forall|i: int| 0 <= i < rs.len() ==> region_wf(#[trigger] rs[i])
    &&& forall|i: int, j: int|
        0 <= i < j < rs.len() ==> (#[trigger] rs[i]).index != (#[trigger] rs[j]).index
    &&& forall|i: int, j: int|
        0 <= i < j < rs.len() ==> !regions_overlap(#[trigger] rs[i], #[trigger] rs[j])
}

/// Whether address `a` lies within an image of the given base and length.
pub open spec fn addr_in_image(base: u32, length: u32, a: u32) -> bool {
    base <= a < base + length
}

/// Structural validity of the header bytes `b` of a slot at `slot_base` of
/// `slot_size` bytes: magic marker present, declared length within the slot
/// and covering at least the header, entry point, stack pointer and vector
/// table within the image, region count within the hardware's range, every
/// attribute word meaningful, and the region table well formed.
pub open spec fn header_valid(slot_base: u32, slot_size: u32, b: Seq<u8>) -> bool {
    &&& b.len() >= HEADER_BYTES
    &&& word_at(b, OFF_MAGIC as int) == HEADER_MAGIC
    &&& HEADER_BYTES <= word_at(b, OFF_LENGTH as int) <= slot_size
    &&& addr_in_image(slot_base, word_at(b, OFF_LENGTH as int), word_at(b, OFF_ENTRY as int))
    &&& addr_in_image(slot_base, word_at(b, OFF_LENGTH as int), word_at(b, OFF_STACK as int))
    &&& addr_in_image(slot_base, word_at(b, OFF_LENGTH as int), word_at(b, OFF_VECTORS as int))
    &&& word_at(b, OFF_REGION_COUNT as int) <= MAX_REGIONS
    &&& forall|k: int|
        0 <= k < word_at(b, OFF_REGION_COUNT as int) ==> region_attr_word_ok(b, k)
    &&& regions_wf(parsed_regions(b))
}

/// The invariant every descriptor this module hands out satisfies: a valid
/// image has its entry point, stack pointer and vector table inside its own
/// address range and a well-formed region table. An image failing this is
/// never eligible for selection.
pub open spec fn image_wf(img: BootImage) -> bool {
    img.valid ==> {
        &&& addr_in_image(img.base, img.length, img.entry_point)
        &&& addr_in_image(img.base, img.length, img.stack_pointer)
        &&& addr_in_image(img.base, img.length, img.vector_table)
        &&& regions_wf(img.regions@)
    }
}

/// Law: structural validation rejects a header whose entry point or stack
/// pointer lies outside the image's own address range, and one whose region
/// table repeats a hardware index or declares overlapping ranges.
pub proof fn lemma_validation_rejects(slot_base: u32, slot_size: u32, b: Seq<u8>)
    ensures
        !addr_in_image(slot_base, word_at(b, OFF_LENGTH as int), word_at(b, OFF_ENTRY as int))
            ==> !header_valid(slot_base, slot_size, b),
        !addr_in_image(slot_base, word_at(b, OFF_LENGTH as int), word_at(b, OFF_STACK as int))
            ==> !header_valid(slot_base, slot_size, b),
        (exists|i: int, j: int|
            0 <= i < j < parsed_regions(b).len() && (#[trigger] parsed_regions(b)[i]).index == (
            #[trigger] parsed_regions(b)[j]).index) ==> !header_valid(slot_base, slot_size, b),
        (exists|i: int, j: int|
            0 <= i < j < parsed_regions(b).len() && regions_overlap(
                #[trigger] parsed_regions(b)[i],
                #[trigger] parsed_regions(b)[j],
            )) ==> !header_valid(slot_base, slot_size, b),
{
}

/// Checks a parsed region table: fits the hardware, entries well formed,
/// hardware indices unique, ranges pairwise disjoint.
pub fn regions_well_formed(rs: &Vec<SecurityRegion>) -> (r: bool)
    ensures
        r == regions_wf(rs@),
{
    if rs.len() > MAX_REGIONS {
        return false;
    }
    let mut i: usize = 0;
    while i < rs.len()
        invariant
            i <= rs.len() <= MAX_REGIONS,
            forall|p: int| 0 <= p < i ==> region_wf(#[trigger] rs@[p]),
            forall|p: int, q: int|
                0 <= p < q < rs.len() && p < i ==> (#[trigger] rs@[p]).index != (
                #[trigger] rs@[q]).index,
            forall|p: int, q: int|
                0 <= p < q < rs.len() && p < i ==> !regions_overlap(
                    #[trigger] rs@[p],
                    #[trigger] rs@[q],
                ),
        decreases rs.len() - i,
    {
        let r = rs[i];
        if r.index >= MAX_REGIONS as u32 || r.base > r.limit {
            return false;
        }
        let mut j: usize = i + 1;
        while j < rs.len()
            invariant
                i < j <= rs.len(),
                r == rs@[i as int],
                region_wf(rs@[i as int]),
                forall|q: int|
                    i < q < j ==> (#[trigger] rs@[q]).index != rs@[i as int].index
                        && !regions_overlap(rs@[i as int], #[trigger] rs@[q]),
            decreases rs.len() - j,
        {
            let other = rs[j];
            if other.index == r.index {
                return false;
            }
            if r.base <= other.limit && other.base <= r.limit {
                return false;
            }
            j += 1;
        }
        i += 1;
    }
    true
}

/// The descriptor of a slot that failed a structural check: the validity flag
/// is clear and every field but the slot base is zero.
fn invalid_image(slot_base: u32) -> (img: BootImage)
    ensures
        img.base == slot_base,
        !img.valid,
        img.length == 0,
        img.version == 0,
        img.entry_point == 0,
        img.stack_pointer == 0,
        img.vector_table == 0,
        img.regions@.len() == 0,
{
    BootImage {
        base: slot_base,
        length: 0,
        version: 0,
        entry_point: 0,
        stack_pointer: 0,
        vector_table: 0,
        regions: Vec::new(),
        valid: false,
    }
}

/// Parses and structurally validates the image in the slot at `slot_base`
/// holding `slot_size` bytes, whose contents are `bytes`.
///
/// The returned descriptor's validity flag is set exactly when the header
/// passes every structural check; a valid descriptor carries the header's
/// fields and region table, an invalid one carries zeros. Malformed bytes
/// never fault: they only clear the flag.
pub fn evaluate_slot(slot_base: u32, slot_size: u32, bytes: &[u8]) -> (img: BootImage)
    requires
        bytes@.len() == slot_size,
    ensures
        img.base == slot_base,
        img.valid == header_valid(slot_base, slot_size, bytes@),
        image_wf(img),
        img.valid ==> {
            &&& img.length == word_at(bytes@, OFF_LENGTH as int)
            &&& img.version == word_at(bytes@, OFF_VERSION as int)
            &&& img.entry_point == word_at(bytes@, OFF_ENTRY as int)
            &&& img.stack_pointer == word_at(bytes@, OFF_STACK as int)
            &&& img.vector_table == word_at(bytes@, OFF_VECTORS as int)
            &&& img.regions@ == parsed_regions(bytes@)
        },
        !img.valid ==> {
            &&& img.length == 0
            &&& img.version == 0
            &&& img.entry_point == 0
            &&& img.stack_pointer == 0
            &&& img.vector_table == 0
            &&& img.regions@.len() == 0
        },
{
    if bytes.len() < HEADER_BYTES {
        return invalid_image(slot_base);
    }
    if read_word(bytes, OFF_MAGIC) != HEADER_MAGIC {
        return invalid_image(slot_base);
    }
    let length = read_word(bytes, OFF_LENGTH);
    if length < HEADER_BYTES as u32 || length > slot_size {
        return invalid_image(slot_base);
    }
    let entry_point = read_word(bytes, OFF_ENTRY);
    if entry_point < slot_base || entry_point - slot_base >= length {
        return invalid_image(slot_base);
    }
    let stack_pointer = read_word(bytes, OFF_STACK);
    if stack_pointer < slot_base || stack_pointer - slot_base >= length {
        return invalid_image(slot_base);
    }
    let vector_table = read_word(bytes, OFF_VECTORS);
    if vector_table < slot_base || vector_table - slot_base >= length {
        return invalid_image(slot_base);
    }
    let version = read_word(bytes, OFF_VERSION);
    let count_word = read_word(bytes, OFF_REGION_COUNT);
    if count_word > MAX_REGIONS as u32 {
        return invalid_image(slot_base);
    }
    let count = count_word as usize;
    let mut regions: Vec<SecurityRegion> = Vec::new();
    let mut k: usize = 0;
    while k < count
        invariant
            k <= count,
            count == word_at(bytes@, OFF_REGION_COUNT as int),
            count <= MAX_REGIONS,
            bytes@.len() >= HEADER_BYTES,
            regions@.len() == k,
            forall|p: int| 0 <= p < k ==> regions@[p] == region_at(bytes@, p),
            forall|p: int| 0 <= p < k ==> region_attr_word_ok(bytes@, p),
        decreases count - k,
    {
        let off = OFF_REGION_TABLE + REGION_ENTRY_BYTES * k;
        let index = read_word(bytes, off);
        let base = read_word(bytes, off + 4);
        let limit = read_word(bytes, off + 8);
        let attr_word = read_word(bytes, off + 12);
        if attr_word > 2 {
            assert(!region_attr_word_ok(bytes@, k as int));
            return invalid_image(slot_base);
        }
        let attribute = if attr_word == 0 {
            RegionAttribute::Secure
        } else if attr_word == 1 {
            RegionAttribute::NonSecure
        } else {
            RegionAttribute::NonSecureCallable
        };
        regions.push(SecurityRegion { index, base, limit, attribute });
        k += 1;
    }
    assert(regions@ =~= parsed_regions(bytes@));
    if !regions_well_formed(&regions) {
        return invalid_image(slot_base);
    }
    BootImage {
        base: slot_base,
        length,
        version,
        entry_point,
        stack_pointer,
        vector_table,
        regions,
        valid: true,
    }
}

} // verus!
