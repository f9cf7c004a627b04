use annepro2::commands::{AP2FlashError, AP2Target};
use annepro2::sequencer::{FlashAction, FlashEvent, FlashJob, FlashSequencer, FlashStage};

fn image_of(len: usize) -> Vec<u8> {
    (0..len).map(|i| (i % 251) as u8).collect()
}

fn job(target: AP2Target, base: u32, boot: bool) -> FlashJob {
    FlashJob { target, base, boot }
}

fn report_of(a: FlashAction) -> Vec<u8> {
    match a {
        FlashAction::SendReport(v) => v,
        other => panic!("expected SendReport, got {:?}", other),
    }
}

fn raw_of(a: FlashAction) -> Vec<u8> {
    match a {
        FlashAction::SendRaw(v) => v,
        other => panic!("expected SendRaw, got {:?}", other),
    }
}

#[test]
fn full_run_with_boot_ends_done() {
    let mut s = FlashSequencer::start(job(AP2Target::McuMain, 0x4000, true), image_of(100));
    assert_eq!(s.stage, FlashStage::Discovering);

    let a = s.step(FlashEvent::Scanned { vendor_matches: 1, flashable: 1 });
    assert!(matches!(a, FlashAction::Open));
    assert_eq!(s.stage, FlashStage::Opening);

    let erase = report_of(s.step(FlashEvent::Opened { ok: true }));
    assert_eq!(s.stage, FlashStage::Erasing);
    assert_eq!(erase.len(), 65);
    assert_eq!(erase[3], 0x31); // routed to the main MCU from the host
    assert_eq!(&erase[9..15], &[0x02, 0x43, 0x00, 0x40, 0x00, 0x00]);

    let w0 = report_of(s.step(FlashEvent::ReportSent { ok: true }));
    assert_eq!(s.stage, FlashStage::Transferring);
    assert_eq!(&w0[9..15], &[0x02, 0x31, 0x00, 0x40, 0x00, 0x00]);
    assert_eq!(&w0[15..63], &image_of(100)[0..48]);

    let w1 = report_of(s.step(FlashEvent::ReportSent { ok: true }));
    assert_eq!(&w1[9..15], &[0x02, 0x31, 0x30, 0x40, 0x00, 0x00]);
    assert_eq!(&w1[15..63], &image_of(100)[48..96]);

    let w2 = report_of(s.step(FlashEvent::ReportSent { ok: true }));
    assert_eq!(&w2[9..15], &[0x02, 0x31, 0x60, 0x40, 0x00, 0x00]);
    assert_eq!(&w2[15..19], &image_of(100)[96..100]);
    for &b in &w2[19..63] {
        assert_eq!(b, 0); // the short final chunk goes out zero-padded
    }

    let validate = report_of(s.step(FlashEvent::ReportSent { ok: true }));
    assert_eq!(s.stage, FlashStage::Validating);
    assert_eq!(s.offset, 100); // bytes written equal the image length
    assert_eq!(validate[3], 0x31); // the flag always goes to the main MCU
    assert_eq!(&validate[9..12], &[0x02, 0x32, 0x02]);

    let boot = raw_of(s.step(FlashEvent::ReportSent { ok: true }));
    assert_eq!(s.stage, FlashStage::Booting);
    assert_eq!(
        boot,
        vec![0x00, 0x7b, 0x10, 0x31, 0x10, 0x03, 0x00, 0x00, 0x7d, 0x02, 0x01, 0x02]
    );

    let last = s.step(FlashEvent::ReportSent { ok: true });
    assert!(matches!(last, FlashAction::Finished));
    assert_eq!(s.stage, FlashStage::Done);
    assert!(s.warnings.is_empty());
}

#[test]
fn run_without_boot_ends_done_after_validate() {
    let mut s = FlashSequencer::start(job(AP2Target::McuLed, 0, false), image_of(10));
    s.step(FlashEvent::Scanned { vendor_matches: 1, flashable: 1 });
    s.step(FlashEvent::Opened { ok: true });
    s.step(FlashEvent::ReportSent { ok: true }); // erase -> one chunk
    s.step(FlashEvent::ReportSent { ok: true }); // chunk -> validate
    let last = s.step(FlashEvent::ReportSent { ok: true });
    assert!(matches!(last, FlashAction::Finished));
    assert_eq!(s.stage, FlashStage::Done);
}

#[test]
fn chunk_write_failure_is_a_warning_not_an_abort() {
    let base = 0x6000;
    let mut s = FlashSequencer::start(job(AP2Target::McuMain, base, false), image_of(100));
    s.step(FlashEvent::Scanned { vendor_matches: 1, flashable: 1 });
    s.step(FlashEvent::Opened { ok: true });
    s.step(FlashEvent::ReportSent { ok: true }); // erase ok, first chunk out

    // the second chunk's write fails mid-transfer
    let a = s.step(FlashEvent::ReportSent { ok: true });
    assert!(matches!(a, FlashAction::SendReport(_)));
    let a = s.step(FlashEvent::ReportSent { ok: false });
    assert!(matches!(a, FlashAction::SendReport(_))); // still transferring
    assert_eq!(s.stage, FlashStage::Transferring);
    assert_eq!(s.warnings, vec![base + 48]);

    s.step(FlashEvent::ReportSent { ok: true }); // last chunk -> validate
    let last = s.step(FlashEvent::ReportSent { ok: true });
    assert!(matches!(last, FlashAction::Finished));
    assert_eq!(s.stage, FlashStage::Done);
    assert_eq!(s.offset, 100);
    assert_eq!(s.warnings, vec![base + 48]);
}

#[test]
fn erase_failure_aborts_the_run() {
    let mut s = FlashSequencer::start(job(AP2Target::McuMain, 0x4000, false), image_of(100));
    s.step(FlashEvent::Scanned { vendor_matches: 1, flashable: 1 });
    s.step(FlashEvent::Opened { ok: true });
    let a = s.step(FlashEvent::ReportSent { ok: false });
    assert!(matches!(a, FlashAction::Finished));
    assert_eq!(s.stage, FlashStage::Failed(AP2FlashError::EraseError));
}

#[test]
fn no_vendor_match_fails_without_retry_prompt() {
    let mut s = FlashSequencer::start(job(AP2Target::McuMain, 0, false), image_of(8));
    let a = s.step(FlashEvent::Scanned { vendor_matches: 0, flashable: 0 });
    assert!(matches!(a, FlashAction::Finished));
    assert_eq!(s.stage, FlashStage::Failed(AP2FlashError::NoDeviceFound));
    assert!(!s.retried);
}

#[test]
fn vendor_match_without_flashable_prompts_once_then_fails() {
    let mut s = FlashSequencer::start(job(AP2Target::McuMain, 0, false), image_of(8));
    let a = s.step(FlashEvent::Scanned { vendor_matches: 2, flashable: 0 });
    assert!(matches!(a, FlashAction::PromptWait));
    assert_eq!(s.stage, FlashStage::Discovering);
    let a = s.step(FlashEvent::Scanned { vendor_matches: 2, flashable: 0 });
    assert!(matches!(a, FlashAction::Finished));
    assert_eq!(s.stage, FlashStage::Failed(AP2FlashError::NoDeviceFound));
}

#[test]
fn prompt_can_be_followed_by_success() {
    let mut s = FlashSequencer::start(job(AP2Target::McuMain, 0, false), image_of(8));
    let a = s.step(FlashEvent::Scanned { vendor_matches: 1, flashable: 0 });
    assert!(matches!(a, FlashAction::PromptWait));
    let a = s.step(FlashEvent::Scanned { vendor_matches: 1, flashable: 1 });
    assert!(matches!(a, FlashAction::Open));
    assert_eq!(s.stage, FlashStage::Opening);
}

#[test]
fn two_flashable_devices_are_refused() {
    let mut s = FlashSequencer::start(job(AP2Target::McuMain, 0, false), image_of(8));
    let a = s.step(FlashEvent::Scanned { vendor_matches: 3, flashable: 2 });
    assert!(matches!(a, FlashAction::Finished));
    assert_eq!(s.stage, FlashStage::Failed(AP2FlashError::MultipleDeviceFound));
}

#[test]
fn open_failure_is_a_usb_error() {
    let mut s = FlashSequencer::start(job(AP2Target::McuMain, 0, false), image_of(8));
    s.step(FlashEvent::Scanned { vendor_matches: 1, flashable: 1 });
    let a = s.step(FlashEvent::Opened { ok: false });
    assert!(matches!(a, FlashAction::Finished));
    assert_eq!(s.stage, FlashStage::Failed(AP2FlashError::USBError));
}

#[test]
fn validate_failure_is_a_flash_error() {
    let mut s = FlashSequencer::start(job(AP2Target::McuMain, 0, false), image_of(10));
    s.step(FlashEvent::Scanned { vendor_matches: 1, flashable: 1 });
    s.step(FlashEvent::Opened { ok: true });
    s.step(FlashEvent::ReportSent { ok: true }); // erase -> chunk
    s.step(FlashEvent::ReportSent { ok: true }); // chunk -> validate
    let a = s.step(FlashEvent::ReportSent { ok: false });
    assert!(matches!(a, FlashAction::Finished));
    assert_eq!(s.stage, FlashStage::Failed(AP2FlashError::FlashError));
}

#[test]
fn boot_failure_is_a_flash_error() {
    let mut s = FlashSequencer::start(job(AP2Target::McuMain, 0, true), image_of(10));
    s.step(FlashEvent::Scanned { vendor_matches: 1, flashable: 1 });
    s.step(FlashEvent::Opened { ok: true });
    s.step(FlashEvent::ReportSent { ok: true }); // erase -> chunk
    s.step(FlashEvent::ReportSent { ok: true }); // chunk -> validate
    s.step(FlashEvent::ReportSent { ok: true }); // validate -> boot
    assert_eq!(s.stage, FlashStage::Booting);
    let a = s.step(FlashEvent::ReportSent { ok: false });
    assert!(matches!(a, FlashAction::Finished));
    assert_eq!(s.stage, FlashStage::Failed(AP2FlashError::FlashError));
}

#[test]
fn empty_image_validates_without_writes() {
    let mut s = FlashSequencer::start(job(AP2Target::McuMain, 0x4000, false), Vec::new());
    s.step(FlashEvent::Scanned { vendor_matches: 1, flashable: 1 });
    s.step(FlashEvent::Opened { ok: true });
    let validate = report_of(s.step(FlashEvent::ReportSent { ok: true }));
    assert_eq!(s.stage, FlashStage::Validating);
    assert_eq!(&validate[9..12], &[0x02, 0x32, 0x02]);
    let last = s.step(FlashEvent::ReportSent { ok: true });
    assert!(matches!(last, FlashAction::Finished));
    assert_eq!(s.stage, FlashStage::Done);
}

#[test]
fn ble_mcu_transfers_in_32_byte_chunks() {
    let mut s = FlashSequencer::start(job(AP2Target::McuBle, 0x100, false), image_of(40));
    s.step(FlashEvent::Scanned { vendor_matches: 1, flashable: 1 });
    s.step(FlashEvent::Opened { ok: true });
    let w0 = report_of(s.step(FlashEvent::ReportSent { ok: true }));
    assert_eq!(w0[3], 0x51); // routed to the BLE MCU
    assert_eq!(w0[5], 6 + 32); // payload length byte: opcode + addr + chunk
    assert_eq!(&w0[15..47], &image_of(40)[0..32]);
    let w1 = report_of(s.step(FlashEvent::ReportSent { ok: true }));
    assert_eq!(&w1[9..15], &[0x02, 0x31, 0x20, 0x01, 0x00, 0x00]);
    assert_eq!(&w1[15..23], &image_of(40)[32..40]);
    for &b in &w1[23..47] {
        assert_eq!(b, 0);
    }
    assert_eq!(s.stage, FlashStage::Transferring);
    s.step(FlashEvent::ReportSent { ok: true });
    assert_eq!(s.stage, FlashStage::Validating);
    assert_eq!(s.offset, 40);
}
