use stage0::diag::{diag_record, DIAG_WORDS};
use stage0::gate::{rom_compatible, ROM_VER};
use stage0::identity::{derive_identity, IDENTITY_BYTES};
use stage0::image::BootImage;
use stage0::mfg::{mfg_step, MfgEvent, MfgState, MFG_POLL_BUDGET};
use stage0::select::{BootDecision, SelectionReason};
use stage0::trampoline::{plain_branch_target, secure_branch_target};

fn sample_image() -> BootImage {
    BootImage {
        base: 0x10000,
        length: 0x4000,
        version: 5,
        entry_point: 0x10401,
        stack_pointer: 0x13000,
        vector_table: 0x10000,
        regions: Vec::new(),
        valid: true,
    }
}

#[test]
fn gate_halts_on_rom_version_low_bit_zero() {
    assert_eq!(ROM_VER, 1);
    assert!(!rom_compatible(0));
    assert!(!rom_compatible(0xFFFFFFFE));
}

#[test]
fn gate_passes_on_matching_rom_version() {
    assert!(rom_compatible(1));
    assert!(rom_compatible(0xFFFFFFFF));
}

#[test]
fn identity_derivation_is_deterministic() {
    let digest: Vec<u8> = (0..IDENTITY_BYTES as u8).collect();
    let secret: Vec<u8> = (0..IDENTITY_BYTES as u8).map(|b| b.wrapping_mul(7)).collect();
    let first = derive_identity(&digest, &secret);
    let second = derive_identity(&digest, &secret);
    assert_eq!(first.bytes, second.bytes);
    assert_eq!(first.bytes.len(), IDENTITY_BYTES);
}

#[test]
fn identity_combines_digest_and_secret() {
    let digest = vec![0xA5u8; IDENTITY_BYTES];
    let secret = vec![0x0Fu8; IDENTITY_BYTES];
    let id = derive_identity(&digest, &secret);
    assert_eq!(id.bytes, vec![0xAAu8; IDENTITY_BYTES]);
}

#[test]
fn identity_differs_when_digest_differs() {
    let digest_a = vec![0x11u8; IDENTITY_BYTES];
    let digest_b = vec![0x22u8; IDENTITY_BYTES];
    let secret = vec![0x55u8; IDENTITY_BYTES];
    assert_ne!(
        derive_identity(&digest_a, &secret).bytes,
        derive_identity(&digest_b, &secret).bytes
    );
}

#[test]
fn mfg_exchange_confirms_only_on_confirmation() {
    let s = mfg_step(MfgState::SendMeasurement, MfgEvent::SentOk);
    assert_eq!(s, MfgState::AwaitConfirmation(MFG_POLL_BUDGET));
    let s = mfg_step(s, MfgEvent::NoReply);
    assert_eq!(s, MfgState::AwaitConfirmation(MFG_POLL_BUDGET - 1));
    let s = mfg_step(s, MfgEvent::ConfirmReceived);
    assert_eq!(s, MfgState::Confirmed);
}

#[test]
fn mfg_exchange_fails_on_exhausted_poll_budget() {
    let mut s = MfgState::AwaitConfirmation(2);
    s = mfg_step(s, MfgEvent::NoReply);
    assert_eq!(s, MfgState::AwaitConfirmation(1));
    s = mfg_step(s, MfgEvent::NoReply);
    assert_eq!(s, MfgState::AwaitConfirmation(0));
    s = mfg_step(s, MfgEvent::NoReply);
    assert_eq!(s, MfgState::Failed);
}

#[test]
fn mfg_exchange_fails_on_refused_send() {
    assert_eq!(
        mfg_step(MfgState::SendMeasurement, MfgEvent::SendFailed),
        MfgState::Failed
    );
}

#[test]
fn mfg_exchange_fails_on_unexpected_event() {
    assert_eq!(
        mfg_step(MfgState::SendMeasurement, MfgEvent::ConfirmReceived),
        MfgState::Failed
    );
    assert_eq!(
        mfg_step(MfgState::AwaitConfirmation(5), MfgEvent::SentOk),
        MfgState::Failed
    );
}

#[test]
fn mfg_outcomes_are_terminal() {
    for e in [
        MfgEvent::SentOk,
        MfgEvent::SendFailed,
        MfgEvent::ConfirmReceived,
        MfgEvent::NoReply,
    ] {
        assert_eq!(mfg_step(MfgState::Confirmed, e), MfgState::Confirmed);
        assert_eq!(mfg_step(MfgState::Failed, e), MfgState::Failed);
    }
}

#[test]
fn secure_branch_leaves_the_entry_mode_bit_as_supplied() {
    let img = sample_image();
    let t = secure_branch_target(&img);
    assert_eq!(t.stack_pointer, img.stack_pointer);
    assert_eq!(t.entry, 0x10401);
    assert_eq!(t.entry, img.entry_point);
}

#[test]
fn plain_branch_keeps_the_entry_as_declared() {
    let img = sample_image();
    let t = plain_branch_target(&img);
    assert_eq!(t.stack_pointer, img.stack_pointer);
    assert_eq!(t.entry, img.entry_point);
}

#[test]
fn diag_record_carries_decision_and_image_fields() {
    let img = sample_image();
    let d = BootDecision::Selected(1, SelectionReason::ValidAndNewest);
    let r = diag_record(&img, &d);
    assert_eq!(r.len(), DIAG_WORDS);
    assert_eq!(r[0], 1);
    assert_eq!(r[1], 1);
    assert_eq!(r[2], img.version);
    assert_eq!(r[3], img.base);
    assert_eq!(r[4], img.entry_point);
    assert_eq!(r[5], img.stack_pointer);
    assert_eq!(r[6], img.vector_table);
    assert_eq!(r[7], 1);
}

#[test]
fn diag_record_marks_a_failed_selection() {
    let mut img = sample_image();
    img.valid = false;
    let d = BootDecision::NoEligibleImage;
    let r = diag_record(&img, &d);
    assert_eq!(r[0], 3);
    assert_eq!(r[1], 0xFFFFFFFF);
    assert_eq!(r[7], 0);
}

#[test]
fn diag_record_names_the_only_candidate() {
    let img = sample_image();
    let d = BootDecision::Selected(0, SelectionReason::OnlyCandidate);
    let r = diag_record(&img, &d);
    assert_eq!(r[0], 2);
    assert_eq!(r[1], 0);
}
