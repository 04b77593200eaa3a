use deepdrive::audio::{AudioError, AudioPreset};
use deepdrive::coordinator::{run_job, JobIo, JobOutcome};
use deepdrive::gate::AdmissionGate;
use deepdrive::ledger::Ledger;
use deepdrive::pipeline::FFmpegProcessor;

fn ok_io() -> JobIo {
    JobIo {
        probe: Ok(String::from("Song|Artist|https://img|120\n")),
        download: Ok(()),
        transform: Ok(()),
    }
}

#[test]
fn failed_pipeline_refunds_the_debit_and_frees_the_slot() {
    let mut ledger = Ledger::new();
    let mut gate = AdmissionGate::new(3);
    assert_eq!(ledger.get_or_create_balance(1), 3);
    let io = JobIo { transform: Err(String::from("boom")), ..ok_io() };
    let out = run_job(
        &FFmpegProcessor,
        &mut ledger,
        &mut gate,
        1,
        String::from("u"),
        AudioPreset::CarBass,
        io,
    );
    match out {
        JobOutcome::Rejected { error: AudioError::ProcessingFailed(cause) } => {
            assert_eq!(cause, "boom");
        }
        _ => panic!("expected a rejected job"),
    }
    // the refund restored the spent credit
    assert_eq!(ledger.get_or_create_balance(1), 3);
    // every slot is free again
    let p1 = gate.try_acquire().unwrap();
    let _p2 = gate.try_acquire().unwrap();
    let _p3 = gate.try_acquire().unwrap();
    assert!(gate.try_acquire().is_none());
    gate.release(p1);
}

#[test]
fn delivered_job_spends_exactly_one_credit() {
    let mut ledger = Ledger::new();
    let mut gate = AdmissionGate::new(3);
    assert_eq!(ledger.get_or_create_balance(1), 3);
    let out = run_job(
        &FFmpegProcessor,
        &mut ledger,
        &mut gate,
        1,
        String::from("u"),
        AudioPreset::CarBass,
        ok_io(),
    );
    match out {
        JobOutcome::Delivered { artifact, meta } => {
            assert!(artifact.ends_with("_out.mp3"));
            assert_eq!(meta.title, "Song");
            assert_eq!(meta.duration, 120);
        }
        _ => panic!("expected a delivered job"),
    }
    assert_eq!(ledger.get_or_create_balance(1), 2);
    assert!(gate.try_acquire().is_some());
}

#[test]
fn empty_balance_short_circuits_before_the_gate() {
    let mut ledger = Ledger::new();
    let mut gate = AdmissionGate::new(1);
    ledger.get_or_create_balance(1);
    for _ in 0..3 {
        assert!(ledger.debit_one(1));
    }
    let out = run_job(
        &FFmpegProcessor,
        &mut ledger,
        &mut gate,
        1,
        String::from("u"),
        AudioPreset::CarBass,
        ok_io(),
    );
    assert!(matches!(out, JobOutcome::InsufficientCredit));
    assert_eq!(ledger.get_or_create_balance(1), 0);
}

#[test]
fn unknown_user_is_insufficient() {
    let mut ledger = Ledger::new();
    let mut gate = AdmissionGate::new(1);
    let out = run_job(
        &FFmpegProcessor,
        &mut ledger,
        &mut gate,
        9,
        String::from("u"),
        AudioPreset::CarBass,
        ok_io(),
    );
    assert!(matches!(out, JobOutcome::InsufficientCredit));
    assert!(ledger.lookup(9).is_none());
}

#[test]
fn over_long_source_is_rejected_with_too_long() {
    let mut ledger = Ledger::new();
    let mut gate = AdmissionGate::new(3);
    ledger.get_or_create_balance(1);
    let io = JobIo { probe: Ok(String::from("T|A|th|2701")), ..ok_io() };
    let out = run_job(
        &FFmpegProcessor,
        &mut ledger,
        &mut gate,
        1,
        String::from("u"),
        AudioPreset::CarBass,
        io,
    );
    assert!(matches!(out, JobOutcome::Rejected { error: AudioError::TooLong }));
    assert_eq!(ledger.get_or_create_balance(1), 3);
}

#[test]
fn end_to_end_failure_then_success() {
    let mut ledger = Ledger::new();
    let mut gate = AdmissionGate::new(3);
    assert_eq!(ledger.get_or_create_balance(1), 3);
    let failing = JobIo { download: Err(String::from("no route")), ..ok_io() };
    let out = run_job(
        &FFmpegProcessor,
        &mut ledger,
        &mut gate,
        1,
        String::from("u"),
        AudioPreset::PureHiFi,
        failing,
    );
    assert!(matches!(
        out,
        JobOutcome::Rejected { error: AudioError::DownloadFailed(_) }
    ));
    assert_eq!(ledger.get_or_create_balance(1), 3);
    let out = run_job(
        &FFmpegProcessor,
        &mut ledger,
        &mut gate,
        1,
        String::from("u"),
        AudioPreset::PureHiFi,
        ok_io(),
    );
    assert!(matches!(out, JobOutcome::Delivered { .. }));
    assert_eq!(ledger.get_or_create_balance(1), 2);
}
