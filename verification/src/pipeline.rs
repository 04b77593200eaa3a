//! The conversion pipeline as a state machine.
//!
//! The orchestrator decides; the scheduler around the library performs.
//! Each state names the one external action due next (probe, download,
//! transform, enrich), and `FFmpegProcessor::step` moves the machine on
//! the action's reported outcome. Rejection by duration happens before
//! the download state is ever reached, so an over-long source never
//! costs bandwidth.

use crate::audio::{
    probe_artist_spec, probe_duration_spec, probe_metadata, probe_thumb_spec, probe_title_spec,
    AudioError, AudioMetadata, AudioPreset,
};
use vstd::prelude::*;
use vstd::string::StringExecFns;

verus! {

/// Longest admissible source duration, in seconds.
pub const DURATION_CEILING: u64 = 2700;

/// Where a pipeline run stands, and so which external action is due.
pub enum PipelineState {
    /// The source resolver is to be queried for metadata.
    Probing { url: String, preset: AudioPreset, input: String, output: String },
    /// The raw audio is to be materialized at `input`.
    Downloading {
        url: String,
        preset: AudioPreset,
        input: String,
        output: String,
        meta: AudioMetadata,
    },
    /// The filter chain is to be applied, writing to `output`; the raw
    /// `input` is deleted afterwards whatever the outcome.
    Transforming { preset: AudioPreset, input: String, output: String, meta: AudioMetadata },
    /// Tags and cover art are to be embedded into `output`, best-effort.
    Enriching { output: String, meta: AudioMetadata },
    /// The finished artifact and its metadata.
    Complete { artifact: String, meta: AudioMetadata },
    /// The run failed; no further action is due.
    Failed { error: AudioError },
}

/// What the external action due in the current state reported back.
pub enum PipelineEvent {
    /// The resolver's one-line output, or the cause of its failure.
    ProbeDone(Result<String, String>),
    /// Exit of the download tool, with cause text on failure.
    DownloadDone(Result<(), String>),
    /// Exit of the transform tool, with cause text on failure.
    TransformDone(Result<(), String>),
    /// Enrichment finished; its failures are absorbed and not reported.
    EnrichDone,
}

/// Stateless orchestrator of the probe, download, transform and enrich
/// stages.
pub struct FFmpegProcessor;

/// The probed metadata that belongs to a raw probe line.
pub open spec fn meta_of_probe(meta: AudioMetadata, raw: Seq<char>) -> bool {
    &&& meta.title@ == probe_title_spec(raw)
    &&& meta.artist@ == probe_artist_spec(raw)
    &&& (match meta.thumbnail_url {
        Some(t) => probe_thumb_spec(raw) == Some(t@),
        None => probe_thumb_spec(raw) is None,
    })
    &&& meta.duration == probe_duration_spec(raw)
}

impl FFmpegProcessor {
    /// The state a fresh run starts in, with stage paths derived from a
    /// caller-chosen job id.
    pub fn start(&self, url: String, preset: AudioPreset, job_id: &str) -> (s: PipelineState)
        ensures
            (s matches PipelineState::Probing { url: u, preset: p, input, output } && u == url
                && p == preset && input@ == job_id@ + "_in.mp3"@ && output@ == job_id@
                + "_out.mp3"@),
    {
        let input = String::from_str(job_id).concat("_in.mp3");
        let output = String::from_str(job_id).concat("_out.mp3");
        PipelineState::Probing { url, preset, input, output }
    }

    /// The state a fresh run starts in, with stage paths derived from a
    /// freshly generated collision-free job id.
    pub fn begin(&self, url: String, preset: AudioPreset) -> (s: PipelineState)
        ensures
            (s matches PipelineState::Probing { url: u, preset: p, input, output } && u == url
                && p == preset && (exists|id: Seq<char>|
                id.len() == 36 && input@ == id + "_in.mp3"@ && output@ == id + "_out.mp3"@)),
    {
        let id = fresh_job_id();
        self.start(url, preset, id.as_str())
    }

    /// Advances the machine one stage on the reported outcome of the
    /// action that was due. An event that does not belong to the current
    /// state changes nothing.
    pub fn step(&self, state: PipelineState, event: PipelineEvent) -> (next: PipelineState)
        ensures
            (state matches PipelineState::Probing { url, preset, input, output } ==> match event {
                PipelineEvent::ProbeDone(Ok(raw)) => if probe_duration_spec(raw@)
                    > DURATION_CEILING {
                    next == (PipelineState::Failed { error: AudioError::TooLong })
                } else {
                    next matches PipelineState::Downloading {
                        url: u2,
                        preset: p2,
                        input: i2,
                        output: o2,
                        meta,
                    } && u2 == url && p2 == preset && i2 == input && o2 == output && meta_of_probe(
                        meta,
                        raw@,
                    )
                },
                PipelineEvent::ProbeDone(Err(cause)) => next == (PipelineState::Failed {
                    error: AudioError::DownloadFailed(cause),
                }),
                _ => next == state,
            }),
            (state matches PipelineState::Downloading { url, preset, input, output, meta }
                ==> match event {
                PipelineEvent::DownloadDone(Ok(unit)) => next == (PipelineState::Transforming {
                    preset,
                    input,
                    output,
                    meta,
                }),
                PipelineEvent::DownloadDone(Err(cause)) => next == (PipelineState::Failed {
                    error: AudioError::DownloadFailed(cause),
                }),
                _ => next == state,
            }),
            (state matches PipelineState::Transforming { preset, input, output, meta }
                ==> match event {
                PipelineEvent::TransformDone(Ok(unit)) => next == (PipelineState::Enriching {
                    output,
                    meta,
                }),
                PipelineEvent::TransformDone(Err(cause)) => next == (PipelineState::Failed {
                    error: AudioError::ProcessingFailed(cause),
                }),
                _ => next == state,
            }),
            (state matches PipelineState::Enriching { output, meta } ==> match event {
                PipelineEvent::EnrichDone => next == (PipelineState::Complete {
                    artifact: output,
                    meta,
                }),
                _ => next == state,
            }),
            (state matches PipelineState::Complete { artifact, meta } ==> next == state),
            (state matches PipelineState::Failed { error } ==> next == state),
    {
        match state {
            PipelineState::Probing { url, preset, input, output } => match event {
                PipelineEvent::ProbeDone(Ok(raw)) => {
                    let meta = probe_metadata(raw.as_str());
                    if meta.duration > DURATION_CEILING {
                        PipelineState::Failed { error: AudioError::TooLong }
                    } else {
                        PipelineState::Downloading { url, preset, input, output, meta }
                    }
                },
                PipelineEvent::ProbeDone(Err(cause)) => PipelineState::Failed {
                    error: AudioError::DownloadFailed(cause),
                },
                _ => PipelineState::Probing { url, preset, input, output },
            },
            PipelineState::Downloading { url, preset, input, output, meta } => match event {
                PipelineEvent::DownloadDone(Ok(_)) => PipelineState::Transforming {
                    preset,
                    input,
                    output,
                    meta,
                },
                PipelineEvent::DownloadDone(Err(cause)) => PipelineState::Failed {
                    error: AudioError::DownloadFailed(cause),
                },
                _ => PipelineState::Downloading { url, preset, input, output, meta },
            },
            PipelineState::Transforming { preset, input, output, meta } => match event {
                PipelineEvent::TransformDone(Ok(_)) => PipelineState::Enriching { output, meta },
                PipelineEvent::TransformDone(Err(cause)) => PipelineState::Failed {
                    error: AudioError::ProcessingFailed(cause),
                },
                _ => PipelineState::Transforming { preset, input, output, meta },
            },
            PipelineState::Enriching { output, meta } => match event {
                PipelineEvent::EnrichDone => PipelineState::Complete { artifact: output, meta },
                _ => PipelineState::Enriching { output, meta },
            },
            PipelineState::Complete { artifact, meta } => PipelineState::Complete {
                artifact,
                meta,
            },
            PipelineState::Failed { error } => PipelineState::Failed { error },
        }
    }
}

/// Relies on uuid::Uuid::new_v4 and its display form: a fresh random
/// version-4 UUID rendered as 36 characters, lowercase hex in groups of
/// 8-4-4-4-12 joined by hyphens. Nothing is assumed about which id
/// comes back, only its shape.
#[verifier::external_body]
fn fresh_job_id() -> (r: String)
    ensures
        r@.len() == 36,
        forall|i: int|
            0 <= i < 36 ==> (if i == 8 || i == 13 || i == 18 || i == 23 {
                r@[i] == '-'
            } else {
                ('0' <= r@[i] && r@[i] <= '9') || ('a' <= r@[i] && r@[i] <= 'f')
            }),
{
    uuid::Uuid::new_v4().to_string()
}

} // verus!
