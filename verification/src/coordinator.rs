//! Request coordinator: ties ledger, admission gate and pipeline
//! together for one job.
//!
//! A job spends one credit before a slot is taken, never runs without a
//! debit, refunds the credit when the pipeline fails, and releases its
//! slot on every exit path.

use crate::audio::{probe_duration_spec, AudioError, AudioMetadata, AudioPreset};
use crate::gate::AdmissionGate;
use crate::ledger::{debit_spec, Ledger};
use crate::pipeline::{
    meta_of_probe, FFmpegProcessor, PipelineEvent, PipelineState, DURATION_CEILING,
};
use vstd::prelude::*;

verus! {

/// What one job ends in.
pub enum JobOutcome {
    /// The artifact and its metadata, ready for delivery; one credit was
    /// spent.
    Delivered { artifact: String, meta: AudioMetadata },
    /// The pipeline failed; the spent credit was refunded.
    Rejected { error: AudioError },
    /// The requester had no credit; nothing ran and nothing changed.
    InsufficientCredit,
}

/// The reported outcomes of the three external pipeline stages, handed
/// in by the scheduler that performed them.
pub struct JobIo {
    pub probe: Result<String, String>,
    pub download: Result<(), String>,
    pub transform: Result<(), String>,
}

/// The stage outcomes under which a job delivers.
pub open spec fn job_success(io: JobIo) -> bool {
    &&& (io.probe matches Ok(raw) && probe_duration_spec(raw@) <= DURATION_CEILING)
    &&& io.download is Ok
    &&& io.transform is Ok
}

/// The error a failing job reports: the first stage that failed decides,
/// and rejection by duration precedes the download stage.
pub open spec fn job_failure_matches(io: JobIo, error: AudioError) -> bool {
    match io.probe {
        Err(cause) => error == AudioError::DownloadFailed(cause),
        Ok(raw) => if probe_duration_spec(raw@) > DURATION_CEILING {
            error == AudioError::TooLong
        } else {
            match io.download {
                Err(cause) => error == AudioError::DownloadFailed(cause),
                Ok(d) => match io.transform {
                    Err(cause) => error == AudioError::ProcessingFailed(cause),
                    Ok(t) => true,
                },
            }
        },
    }
}

/// Runs one job to completion: debit, admission, the pipeline stages in
/// order, refund on failure, release of the slot on every path.
///
/// The requester's balance nets minus one exactly when the job
/// delivers; a failed run leaves no change in the ledger, and the
/// gate ends with the slot count it started with. A free slot must
/// exist when the job starts; waiting for one is the business of the
/// scheduler around the library.
pub fn run_job(
    processor: &FFmpegProcessor,
    ledger: &mut Ledger,
    gate: &mut AdmissionGate,
    user: i64,
    url: String,
    preset: AudioPreset,
    io: JobIo,
) -> (out: JobOutcome)
    requires
        old(ledger).wf(),
        old(gate).wf(),
        old(gate).in_use() < old(gate).capacity(),
    ensures
        final(ledger).wf(),
        final(gate).wf(),
        final(gate).capacity() == old(gate).capacity(),
        final(gate).in_use() == old(gate).in_use(),
        (out is InsufficientCredit <==> !(old(ledger)@.contains_key(user) && old(
            ledger,
        )@[user].balance > 0)),
        out is InsufficientCredit ==> final(ledger)@ == old(ledger)@,
        out matches JobOutcome::Delivered { artifact, meta } ==> {
            &&& job_success(io)
            &&& final(ledger)@ == debit_spec(old(ledger)@, user).0
            &&& (io.probe matches Ok(raw) && meta_of_probe(meta, raw@))
            &&& (exists|id: Seq<char>| id.len() == 36 && artifact@ == id + "_out.mp3"@)
        },
        out matches JobOutcome::Rejected { error } ==> {
            &&& !job_success(io)
            &&& job_failure_matches(io, error)
            &&& final(ledger)@ == old(ledger)@
        },
        (old(ledger)@.contains_key(user) && old(ledger)@[user].balance > 0) ==> (job_success(io)
            <==> out is Delivered),
{
    let ghost m0 = ledger@;
    if !ledger.debit_one(user) {
        return JobOutcome::InsufficientCredit;
    }
    let permit = gate.try_acquire().unwrap();
    let JobIo { probe, download, transform } = io;
    let state = processor.begin(url, preset);
    let state = processor.step(state, PipelineEvent::ProbeDone(probe));
    let state = processor.step(state, PipelineEvent::DownloadDone(download));
    let state = processor.step(state, PipelineEvent::TransformDone(transform));
    let state = processor.step(state, PipelineEvent::EnrichDone);
    match state {
        PipelineState::Complete { artifact, meta } => {
            gate.release(permit);
            JobOutcome::Delivered { artifact, meta }
        },
        PipelineState::Failed { error } => {
            let refund = ledger.credit(user, 1);
            proof {
                assert(refund is Ok);
                assert(ledger@ =~= m0);
            }
            gate.release(permit);
            JobOutcome::Rejected { error }
        },
        _ => {
            proof {
                assert(false);
            }
            gate.release(permit);
            JobOutcome::InsufficientCredit
        },
    }
}

} // verus!
