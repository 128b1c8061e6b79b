//! Security-boundary programmer: the ordered register-write plan that
//! partitions the address space between the secure and non-secure worlds.
//!
//! The plan is pure data — a sequence of register operations — so the
//! ordering the hardware demands can be stated and checked here: every
//! declared attribution region is programmed (select index, write base,
//! write limit/attribute) before global attribution is enabled, and the
//! fault exceptions are enabled before the world switch that follows the
//! plan. The surrounding boot binary performs each operation as a volatile
//! register access, in plan order.

use vstd::prelude::*;

use crate::image::{BootImage, RegionAttribute, SecurityRegion};

verus! {

/// Attribution control register: its low bit enables attribution globally.
pub const SAU_CTRL: u32 = 0xE000EDD0;

/// Attribution region-select register.
pub const SAU_RNR: u32 = 0xE000EDD8;

/// Attribution region base register.
pub const SAU_RBAR: u32 = 0xE000EDDC;

/// Attribution region limit/attribute register.
pub const SAU_RLAR: u32 = 0xE000EDE0;

/// Coprocessor access register of the non-secure world; `0xC00` opens the
/// coprocessor to it.
pub const NSACR: u32 = 0xE000ED8C;

/// System handler control register; its enable bits arm the fault
/// exceptions.
pub const SHCSR: u32 = 0xE000ED24;

/// Usage-fault enable bit of the handler control register.
pub const SHCSR_USGFAULTENA: u32 = 0x40000;

/// Bus-fault enable bit of the handler control register.
pub const SHCSR_BUSFAULTENA: u32 = 0x20000;

/// Secure-fault enable bit of the handler control register.
pub const SHCSR_SECUREFAULTENA: u32 = 0x80000;

/// Interrupt control register; `0x05FA2000` (write key plus routing bit)
/// banks the fault exceptions to the non-secure world.
pub const AIRCR: u32 = 0xE000ED0C;

/// Routing value written to the interrupt control register.
pub const AIRCR_FAULTS_NONSECURE: u32 = 0x05FA2000;

/// Vector-table register of the non-secure world.
pub const NS_VTOR: u32 = 0xE002ED08;

/// Vector-table register of the running world (single-world builds).
pub const VTOR: u32 = 0xE000ED08;

/// First interrupt-target register; an all-ones word routes its interrupts
/// to the non-secure world.
pub const ITNS0: u32 = 0xE000E380;

/// Second interrupt-target register.
pub const ITNS1: u32 = 0xE000E384;

/// One hardware register operation of a boot plan.
#[derive(Clone, Copy, Debug, PartialEq, Eq, Structural)]
pub enum RegisterOp {
    /// Store the value into the register at the address.
    Write(u32, u32),
    /// Read the register at the address, set the mask's bits, store it back.
    SetBits(u32, u32),
}

/// The base-register encoding of a region: its base address, aligned down to
/// the hardware's 32-byte granule.
pub open spec fn spec_rbar(r: SecurityRegion) -> u32 {
    r.base & 0xFFFFFFE0
}

/// The limit-register encoding of a region: the limit address aligned down
/// to the granule, with the enable bit set for a range handed to the
/// non-secure world and the gateway bit set besides for a non-secure-callable
/// range. A range kept secure is left disabled: undeclared address space is
/// secure by default.
pub open spec fn spec_rlar(r: SecurityRegion) -> u32 {
    (r.limit & 0xFFFFFFE0) | match r.attribute {
        RegionAttribute::Secure => 0u32,
        RegionAttribute::NonSecure => 1u32,
        RegionAttribute::NonSecureCallable => 3u32,
    }
}

/// Base-register encoding of `r`.
pub fn region_rbar(r: &SecurityRegion) -> (w: u32)
    ensures
        w == spec_rbar(*r),
{
    r.base & 0xFFFFFFE0
}

/// Limit-register encoding of `r`.
pub fn region_rlar(r: &SecurityRegion) -> (w: u32)
    ensures
        w == spec_rlar(*r),
{
    (r.limit & 0xFFFFFFE0) | match r.attribute {
        RegionAttribute::Secure => 0u32,
        RegionAttribute::NonSecure => 1u32,
        RegionAttribute::NonSecureCallable => 3u32,
    }
}

/// The three operations that program one attribution region: select its
/// hardware index, write its base, write its limit and attribute.
pub open spec fn region_ops(r: SecurityRegion) -> Seq<RegisterOp> {
    seq![
        RegisterOp::Write(SAU_RNR, r.index),
        RegisterOp::Write(SAU_RBAR, spec_rbar(r)),
        RegisterOp::Write(SAU_RLAR, spec_rlar(r)),
    ]
}

/// The operations that program the first `n` declared regions, in
/// declaration order.
pub open spec fn regions_ops(rs: Seq<SecurityRegion>, n: int) -> Seq<RegisterOp>
    decreases n,
{
    if n <= 0 {
        Seq::empty()
    } else {
        regions_ops(rs, n - 1) + region_ops(rs[n - 1])
    }
}

/// The operations that follow the region table in a two-world boot: enable
/// attribution globally, open the coprocessor to the non-secure world, arm
/// the usage-, bus- and secure-fault exceptions so faults during the switch
/// are caught, bank the fault exceptions to the non-secure world, install the
/// image's vector table for the non-secure world, and route every maskable
/// interrupt there.
pub open spec fn world_setup_ops(img: BootImage) -> Seq<RegisterOp> {
    seq![
        RegisterOp::Write(SAU_CTRL, 1),
        RegisterOp::Write(NSACR, 0xC00),
        RegisterOp::SetBits(SHCSR, SHCSR_USGFAULTENA),
        RegisterOp::SetBits(SHCSR, SHCSR_BUSFAULTENA),
        RegisterOp::SetBits(SHCSR, SHCSR_SECUREFAULTENA),
        RegisterOp::Write(AIRCR, AIRCR_FAULTS_NONSECURE),
        RegisterOp::Write(NS_VTOR, img.vector_table),
        RegisterOp::Write(ITNS0, 0xFFFFFFFF),
        RegisterOp::Write(ITNS1, 0xFFFFFFFF),
    ]
}

/// The whole plan of a two-world boot: the declared regions first, then the
/// global enable and the world setup.
pub open spec fn spec_secure_boot_plan(img: BootImage) -> Seq<RegisterOp> {
    regions_ops(img.regions@, img.regions@.len() as int) + world_setup_ops(img)
}

/// The whole plan of a single-world boot: arm the two basic fault exceptions
/// and install the image's vector table.
pub open spec fn spec_basic_boot_plan(img: BootImage) -> Seq<RegisterOp> {
    seq![
        RegisterOp::SetBits(SHCSR, SHCSR_USGFAULTENA),
        RegisterOp::SetBits(SHCSR, SHCSR_BUSFAULTENA),
        RegisterOp::Write(VTOR, img.vector_table),
    ]
}

/// Computes the register plan of a two-world boot of `image`.
pub fn secure_boot_plan(image: &BootImage) -> (plan: Vec<RegisterOp>)
    ensures
        plan@ == spec_secure_boot_plan(*image),
{
    let mut plan: Vec<RegisterOp> = Vec::new();
    let mut k: usize = 0;
    while k < image.regions.len()
        invariant
            k <= image.regions@.len(),
            plan@ =~= regions_ops(image.regions@, k as int),
        decreases image.regions@.len() - k,
    {
        let r = image.regions[k];
        plan.push(RegisterOp::Write(SAU_RNR, r.index));
        plan.push(RegisterOp::Write(SAU_RBAR, region_rbar(&r)));
        plan.push(RegisterOp::Write(SAU_RLAR, region_rlar(&r)));
        k = k + 1;
        assert(plan@ =~= regions_ops(image.regions@, k as int));
    }
    plan.push(RegisterOp::Write(SAU_CTRL, 1));
    plan.push(RegisterOp::Write(NSACR, 0xC00));
    plan.push(RegisterOp::SetBits(SHCSR, SHCSR_USGFAULTENA));
    plan.push(RegisterOp::SetBits(SHCSR, SHCSR_BUSFAULTENA));
    plan.push(RegisterOp::SetBits(SHCSR, SHCSR_SECUREFAULTENA));
    plan.push(RegisterOp::Write(AIRCR, AIRCR_FAULTS_NONSECURE));
    plan.push(RegisterOp::Write(NS_VTOR, image.vector_table));
    plan.push(RegisterOp::Write(ITNS0, 0xFFFFFFFF));
    plan.push(RegisterOp::Write(ITNS1, 0xFFFFFFFF));
    assert(plan@ =~= spec_secure_boot_plan(*image));
    plan
}

/// Whether `op` touches the register at `addr`.
pub open spec fn touches(op: RegisterOp, addr: u32) -> bool {
    match op {
        RegisterOp::Write(a, _) => a == addr,
        RegisterOp::SetBits(a, _) => a == addr,
    }
}

/// Whether `op` programs one of the attribution-region registers.
pub open spec fn is_region_op(op: RegisterOp) -> bool {
    touches(op, SAU_RNR) || touches(op, SAU_RBAR) || touches(op, SAU_RLAR)
}

proof fn lemma_regions_ops_shape(rs: Seq<SecurityRegion>, n: int)
    requires
        0 <= n <= rs.len(),
    ensures
        regions_ops(rs, n).len() == 3 * n,
        forall|i: int|
            0 <= i < n ==> {
                &&& regions_ops(rs, n)[3 * i] == RegisterOp::Write(
                    SAU_RNR,
                    (#[trigger] rs[i]).index,
                )
                &&& regions_ops(rs, n)[3 * i + 1] == RegisterOp::Write(SAU_RBAR, spec_rbar(rs[i]))
                &&& regions_ops(rs, n)[3 * i + 2] == RegisterOp::Write(SAU_RLAR, spec_rlar(rs[i]))
            },
        forall|k: int| 0 <= k < 3 * n ==> is_region_op(#[trigger] regions_ops(rs, n)[k]),
        forall|k: int| 0 <= k < 3 * n ==> !touches(#[trigger] regions_ops(rs, n)[k], SAU_CTRL),
    decreases n,
{
    if n > 0 {
        lemma_regions_ops_shape(rs, n - 1);
        let prev = regions_ops(rs, n - 1);
        let cur = regions_ops(rs, n);
        assert forall|i: int| 0 <= i < n implies {
            &&& cur[3 * i] == RegisterOp::Write(SAU_RNR, (#[trigger] rs[i]).index)
            &&& cur[3 * i + 1] == RegisterOp::Write(SAU_RBAR, spec_rbar(rs[i]))
            &&& cur[3 * i + 2] == RegisterOp::Write(SAU_RLAR, spec_rlar(rs[i]))
        } by {
            if i < n - 1 {
                assert(cur[3 * i] == prev[3 * i]);
                assert(cur[3 * i + 1] == prev[3 * i + 1]);
                assert(cur[3 * i + 2] == prev[3 * i + 2]);
            } else {
                assert(cur[3 * i] == region_ops(rs[n - 1])[0]);
                assert(cur[3 * i + 1] == region_ops(rs[n - 1])[1]);
                assert(cur[3 * i + 2] == region_ops(rs[n - 1])[2]);
            }
        }
        assert forall|k: int| 0 <= k < 3 * n implies is_region_op(#[trigger] cur[k]) && !touches(
            cur[k],
            SAU_CTRL,
        ) by {
            if k < 3 * (n - 1) {
                assert(cur[k] == prev[k]);
            } else {
                assert(cur[k] == region_ops(rs[n - 1])[k - 3 * (n - 1)]);
            }
        }
    }
}

/// Law: a two-world plan programs exactly the declared regions, in
/// declaration order — position `3i` selects declared region `i`, the next
/// two write its base and its limit — and the one operation that touches the
/// global enable register comes only after all of them; no later operation
/// touches a region register.
#[verifier::rlimit(60)]
pub proof fn lemma_secure_plan_regions_before_enable(img: BootImage)
    ensures
        spec_secure_boot_plan(img).len() == 3 * img.regions@.len() + 9,
        forall|i: int|
            0 <= i < img.regions@.len() ==> {
                &&& spec_secure_boot_plan(img)[3 * i] == RegisterOp::Write(
                    SAU_RNR,
                    (#[trigger] img.regions@[i]).index,
                )
                &&& spec_secure_boot_plan(img)[3 * i + 1] == RegisterOp::Write(
                    SAU_RBAR,
                    spec_rbar(img.regions@[i]),
                )
                &&& spec_secure_boot_plan(img)[3 * i + 2] == RegisterOp::Write(
                    SAU_RLAR,
                    spec_rlar(img.regions@[i]),
                )
            },
        forall|k: int|
            0 <= k < spec_secure_boot_plan(img).len() ==> (is_region_op(
                #[trigger] spec_secure_boot_plan(img)[k],
            ) <==> k < 3 * img.regions@.len()),
        spec_secure_boot_plan(img)[3 * img.regions@.len() as int] == RegisterOp::Write(SAU_CTRL, 1),
        forall|k: int|
            0 <= k < spec_secure_boot_plan(img).len() && touches(
                #[trigger] spec_secure_boot_plan(img)[k],
                SAU_CTRL,
            ) ==> k == 3 * img.regions@.len(),
{
    let rs = img.regions@;
    let n = rs.len() as int;
    let plan = spec_secure_boot_plan(img);
    let setup = world_setup_ops(img);
    lemma_regions_ops_shape(rs, n);
    assert(is_region_op(setup[0]) == false && touches(setup[0], SAU_CTRL));
    assert(!is_region_op(setup[1]) && !touches(setup[1], SAU_CTRL));
    assert(!is_region_op(setup[2]) && !touches(setup[2], SAU_CTRL));
    assert(!is_region_op(setup[3]) && !touches(setup[3], SAU_CTRL));
    assert(!is_region_op(setup[4]) && !touches(setup[4], SAU_CTRL));
    assert(!is_region_op(setup[5]) && !touches(setup[5], SAU_CTRL));
    assert(!is_region_op(setup[6]) && !touches(setup[6], SAU_CTRL));
    assert(!is_region_op(setup[7]) && !touches(setup[7], SAU_CTRL));
    assert(!is_region_op(setup[8]) && !touches(setup[8], SAU_CTRL));
    assert forall|i: int| 0 <= i < n implies {
        &&& plan[3 * i] == RegisterOp::Write(SAU_RNR, (#[trigger] rs[i]).index)
        &&& plan[3 * i + 1] == RegisterOp::Write(SAU_RBAR, spec_rbar(rs[i]))
        &&& plan[3 * i + 2] == RegisterOp::Write(SAU_RLAR, spec_rlar(rs[i]))
    } by {
        assert(plan[3 * i] == regions_ops(rs, n)[3 * i]);
        assert(plan[3 * i + 1] == regions_ops(rs, n)[3 * i + 1]);
        assert(plan[3 * i + 2] == regions_ops(rs, n)[3 * i + 2]);
    }
    assert forall|k: int| 0 <= k < plan.len() implies (is_region_op(#[trigger] plan[k]) <==> k < 3
        * n) && (touches(plan[k], SAU_CTRL) ==> k == 3 * n) by {
        if k < 3 * n {
            assert(plan[k] == regions_ops(rs, n)[k]);
        } else {
            assert(plan[k] == setup[k - 3 * n]);
        }
    }
}

/// Computes the register plan of a single-world boot of `image`.
pub fn basic_boot_plan(image: &BootImage) -> (plan: Vec<RegisterOp>)
    ensures
        plan@ == spec_basic_boot_plan(*image),
{
    let mut plan: Vec<RegisterOp> = Vec::new();
    plan.push(RegisterOp::SetBits(SHCSR, SHCSR_USGFAULTENA));
    plan.push(RegisterOp::SetBits(SHCSR, SHCSR_BUSFAULTENA));
    plan.push(RegisterOp::Write(VTOR, image.vector_table));
    assert(plan@ =~= spec_basic_boot_plan(*image));
    plan
}

} // verus!
