use stage0::image::BootImage;
use stage0::select::{select_image_to_boot, BootDecision, SelectionReason};

fn synthetic(version: u32, valid: bool) -> BootImage {
    BootImage {
        base: 0x10000,
        length: 0x8000,
        version,
        entry_point: 0x10400,
        stack_pointer: 0x11000,
        vector_table: 0x10000,
        regions: Vec::new(),
        valid,
    }
}

#[test]
fn lone_valid_candidate_wins_despite_lower_version() {
    let candidates = vec![synthetic(1, true), synthetic(9, false)];
    let d = select_image_to_boot(&candidates);
    assert_eq!(d, BootDecision::Selected(0, SelectionReason::OnlyCandidate));
}

#[test]
fn lone_valid_candidate_wins_in_second_slot() {
    let candidates = vec![synthetic(9, false), synthetic(1, true)];
    let d = select_image_to_boot(&candidates);
    assert_eq!(d, BootDecision::Selected(1, SelectionReason::OnlyCandidate));
}

#[test]
fn higher_version_wins_among_valid() {
    let candidates = vec![synthetic(4, true), synthetic(7, true)];
    let d = select_image_to_boot(&candidates);
    assert_eq!(d, BootDecision::Selected(1, SelectionReason::ValidAndNewest));

    let candidates = vec![synthetic(7, true), synthetic(4, true)];
    let d = select_image_to_boot(&candidates);
    assert_eq!(d, BootDecision::Selected(0, SelectionReason::ValidAndNewest));
}

#[test]
fn equal_versions_pick_lower_slot() {
    let candidates = vec![synthetic(5, true), synthetic(5, true)];
    let d = select_image_to_boot(&candidates);
    assert_eq!(d, BootDecision::Selected(0, SelectionReason::ValidAndNewest));
}

#[test]
fn no_valid_candidate_reports_no_eligible_image() {
    let candidates = vec![synthetic(3, false), synthetic(5, false)];
    let d = select_image_to_boot(&candidates);
    assert_eq!(d, BootDecision::NoEligibleImage);

    let empty: Vec<BootImage> = Vec::new();
    assert_eq!(select_image_to_boot(&empty), BootDecision::NoEligibleImage);
}

#[test]
fn slot_a_version_3_slot_b_version_5_picks_b() {
    let candidates = vec![synthetic(3, true), synthetic(5, true)];
    let d = select_image_to_boot(&candidates);
    assert_eq!(d, BootDecision::Selected(1, SelectionReason::ValidAndNewest));
}

#[test]
fn selection_is_deterministic_across_runs() {
    let candidates = vec![synthetic(5, true), synthetic(5, true), synthetic(2, false)];
    let first = select_image_to_boot(&candidates);
    let second = select_image_to_boot(&candidates);
    assert_eq!(first, second);
}

#[test]
fn three_candidates_newest_valid_wins() {
    let candidates = vec![synthetic(6, true), synthetic(9, false), synthetic(8, true)];
    let d = select_image_to_boot(&candidates);
    assert_eq!(d, BootDecision::Selected(2, SelectionReason::ValidAndNewest));
}
