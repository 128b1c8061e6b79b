use stage0::image::{BootImage, RegionAttribute, SecurityRegion};
use stage0::sau::{
    basic_boot_plan, region_rbar, region_rlar, secure_boot_plan, RegisterOp, AIRCR,
    AIRCR_FAULTS_NONSECURE, ITNS0, ITNS1, NSACR, NS_VTOR, SAU_CTRL, SAU_RBAR, SAU_RLAR, SAU_RNR,
    SHCSR, SHCSR_BUSFAULTENA, SHCSR_SECUREFAULTENA, SHCSR_USGFAULTENA, VTOR,
};

fn region(index: u32, base: u32, limit: u32, attribute: RegionAttribute) -> SecurityRegion {
    SecurityRegion { index, base, limit, attribute }
}

fn image_with_regions(regions: Vec<SecurityRegion>) -> BootImage {
    BootImage {
        base: 0x10000,
        length: 0x4000,
        version: 2,
        entry_point: 0x10401,
        stack_pointer: 0x13000,
        vector_table: 0x10000,
        regions,
        valid: true,
    }
}

fn touches(op: &RegisterOp, addr: u32) -> bool {
    match op {
        RegisterOp::Write(a, _) => *a == addr,
        RegisterOp::SetBits(a, _) => *a == addr,
    }
}

fn is_region_op(op: &RegisterOp) -> bool {
    touches(op, SAU_RNR) || touches(op, SAU_RBAR) || touches(op, SAU_RLAR)
}

#[test]
fn plan_writes_exactly_the_declared_regions_in_order() {
    let regions = vec![
        region(2, 0x20000, 0x2FFFF, RegionAttribute::NonSecure),
        region(5, 0x40000, 0x4FFFF, RegionAttribute::NonSecureCallable),
        region(0, 0x60000, 0x6FFFF, RegionAttribute::Secure),
    ];
    let img = image_with_regions(regions.clone());
    let plan = secure_boot_plan(&img);
    assert_eq!(plan.len(), 3 * regions.len() + 9);
    for (i, r) in regions.iter().enumerate() {
        assert_eq!(plan[3 * i], RegisterOp::Write(SAU_RNR, r.index));
        assert_eq!(plan[3 * i + 1], RegisterOp::Write(SAU_RBAR, region_rbar(r)));
        assert_eq!(plan[3 * i + 2], RegisterOp::Write(SAU_RLAR, region_rlar(r)));
    }
}

#[test]
fn attribution_enabled_only_after_all_regions() {
    let regions = vec![
        region(0, 0x20000, 0x2FFFF, RegionAttribute::NonSecure),
        region(1, 0x30000, 0x3FFFF, RegionAttribute::NonSecure),
    ];
    let img = image_with_regions(regions);
    let plan = secure_boot_plan(&img);
    let enable_at = plan
        .iter()
        .position(|op| touches(op, SAU_CTRL))
        .expect("plan must enable attribution");
    assert_eq!(plan[enable_at], RegisterOp::Write(SAU_CTRL, 1));
    assert_eq!(enable_at, 3 * 2);
    for (k, op) in plan.iter().enumerate() {
        assert_eq!(is_region_op(op), k < enable_at);
        if k != enable_at {
            assert!(!touches(op, SAU_CTRL));
        }
    }
}

#[test]
fn empty_region_table_still_sets_up_the_worlds() {
    let img = image_with_regions(Vec::new());
    let plan = secure_boot_plan(&img);
    assert_eq!(plan.len(), 9);
    assert_eq!(plan[0], RegisterOp::Write(SAU_CTRL, 1));
}

#[test]
fn world_setup_follows_the_required_order() {
    let img = image_with_regions(vec![region(7, 0x20000, 0x2FFFF, RegionAttribute::NonSecure)]);
    let plan = secure_boot_plan(&img);
    let tail = &plan[3..];
    assert_eq!(tail[0], RegisterOp::Write(SAU_CTRL, 1));
    assert_eq!(tail[1], RegisterOp::Write(NSACR, 0xC00));
    assert_eq!(tail[2], RegisterOp::SetBits(SHCSR, SHCSR_USGFAULTENA));
    assert_eq!(tail[3], RegisterOp::SetBits(SHCSR, SHCSR_BUSFAULTENA));
    assert_eq!(tail[4], RegisterOp::SetBits(SHCSR, SHCSR_SECUREFAULTENA));
    assert_eq!(tail[5], RegisterOp::Write(AIRCR, AIRCR_FAULTS_NONSECURE));
    assert_eq!(tail[6], RegisterOp::Write(NS_VTOR, img.vector_table));
    assert_eq!(tail[7], RegisterOp::Write(ITNS0, 0xFFFFFFFF));
    assert_eq!(tail[8], RegisterOp::Write(ITNS1, 0xFFFFFFFF));
}

#[test]
fn region_encodings_align_and_carry_the_attribute() {
    let ns = region(1, 0x20013, 0x2FFF7, RegionAttribute::NonSecure);
    assert_eq!(region_rbar(&ns), 0x20000);
    assert_eq!(region_rlar(&ns), 0x2FFE0 | 1);

    let nsc = region(2, 0x40000, 0x4FFFF, RegionAttribute::NonSecureCallable);
    assert_eq!(region_rlar(&nsc), 0x4FFE0 | 3);

    let sec = region(3, 0x60000, 0x6FFFF, RegionAttribute::Secure);
    assert_eq!(region_rlar(&sec), 0x6FFE0);
}

#[test]
fn single_world_plan_arms_faults_and_installs_vectors() {
    let img = image_with_regions(Vec::new());
    let plan = basic_boot_plan(&img);
    assert_eq!(plan.len(), 3);
    assert_eq!(plan[0], RegisterOp::SetBits(SHCSR, SHCSR_USGFAULTENA));
    assert_eq!(plan[1], RegisterOp::SetBits(SHCSR, SHCSR_BUSFAULTENA));
    assert_eq!(plan[2], RegisterOp::Write(VTOR, img.vector_table));
}
