use deepdrive::audio::{AudioError, AudioPreset};
use deepdrive::pipeline::{FFmpegProcessor, PipelineEvent, PipelineState};

fn probing(url: &str, preset: AudioPreset) -> PipelineState {
    FFmpegProcessor.start(String::from(url), preset, "job1")
}

#[test]
fn over_long_probe_rejects_before_download() {
    let mut downloader_called = false;
    let state = probing("https://youtu.be/x", AudioPreset::CarBass);
    let state = FFmpegProcessor.step(
        state,
        PipelineEvent::ProbeDone(Ok(String::from("T|A|thumb|2701"))),
    );
    if let PipelineState::Downloading { .. } = state {
        downloader_called = true;
    }
    assert!(!downloader_called);
    assert!(matches!(state, PipelineState::Failed { error: AudioError::TooLong }));
}

#[test]
fn duration_at_ceiling_is_admitted() {
    let state = probing("u", AudioPreset::PureHiFi);
    let state = FFmpegProcessor.step(
        state,
        PipelineEvent::ProbeDone(Ok(String::from("T|A|thumb|2700"))),
    );
    assert!(matches!(state, PipelineState::Downloading { .. }));
}

#[test]
fn happy_path_runs_all_stages_in_order() {
    let state = probing("https://youtu.be/x", AudioPreset::ExtremeLow);
    match &state {
        PipelineState::Probing { input, output, .. } => {
            assert_eq!(input, "job1_in.mp3");
            assert_eq!(output, "job1_out.mp3");
        }
        _ => panic!("expected the probing state"),
    }
    let state = FFmpegProcessor.step(
        state,
        PipelineEvent::ProbeDone(Ok(String::from("Song 4K|Artist|https://img|100\n"))),
    );
    assert!(matches!(state, PipelineState::Downloading { .. }));
    let state = FFmpegProcessor.step(state, PipelineEvent::DownloadDone(Ok(())));
    match &state {
        PipelineState::Transforming { input, .. } => assert_eq!(input, "job1_in.mp3"),
        _ => panic!("expected the transforming state"),
    }
    let state = FFmpegProcessor.step(state, PipelineEvent::TransformDone(Ok(())));
    assert!(matches!(state, PipelineState::Enriching { .. }));
    let state = FFmpegProcessor.step(state, PipelineEvent::EnrichDone);
    match state {
        PipelineState::Complete { artifact, meta } => {
            assert_eq!(artifact, "job1_out.mp3");
            assert_eq!(meta.title, "Song");
            assert_eq!(meta.artist, "Artist");
            assert_eq!(meta.thumbnail_url.as_deref(), Some("https://img"));
            assert_eq!(meta.duration, 100);
        }
        _ => panic!("expected the complete state"),
    }
}

#[test]
fn probe_failure_carries_its_cause() {
    let state = probing("u", AudioPreset::CarBass);
    let state = FFmpegProcessor.step(
        state,
        PipelineEvent::ProbeDone(Err(String::from("resolver unreachable"))),
    );
    match state {
        PipelineState::Failed { error: AudioError::DownloadFailed(cause) } => {
            assert_eq!(cause, "resolver unreachable");
        }
        _ => panic!("expected a download failure"),
    }
}

#[test]
fn transform_failure_is_a_processing_error() {
    let state = probing("u", AudioPreset::CarBass);
    let state = FFmpegProcessor.step(state, PipelineEvent::ProbeDone(Ok(String::from("T|A|t|1"))));
    let state = FFmpegProcessor.step(state, PipelineEvent::DownloadDone(Ok(())));
    let state = FFmpegProcessor.step(
        state,
        PipelineEvent::TransformDone(Err(String::from("bad stream"))),
    );
    match state {
        PipelineState::Failed { error: AudioError::ProcessingFailed(cause) } => {
            assert_eq!(cause, "bad stream");
        }
        _ => panic!("expected a processing failure"),
    }
}

#[test]
fn mismatched_event_changes_nothing() {
    let state = probing("u", AudioPreset::CarBass);
    let state = FFmpegProcessor.step(state, PipelineEvent::DownloadDone(Ok(())));
    assert!(matches!(state, PipelineState::Probing { .. }));
}

#[test]
fn begin_derives_stage_paths_from_a_fresh_id() {
    let state = FFmpegProcessor.begin(String::from("u"), AudioPreset::CarBass);
    match state {
        PipelineState::Probing { input, output, .. } => {
            assert_eq!(input.chars().count(), 36 + "_in.mp3".len());
            assert_eq!(output.chars().count(), 36 + "_out.mp3".len());
            assert!(input.ends_with("_in.mp3"));
            assert!(output.ends_with("_out.mp3"));
            assert_ne!(input, output);
        }
        _ => panic!("expected the probing state"),
    }
    // two runs must not collide on their temporary paths
    let other = FFmpegProcessor.begin(String::from("u"), AudioPreset::CarBass);
    match other {
        PipelineState::Probing { input, .. } => {
            let first = match FFmpegProcessor.begin(String::from("u"), AudioPreset::CarBass) {
                PipelineState::Probing { input, .. } => input,
                _ => panic!("expected the probing state"),
            };
            assert_ne!(first, input);
        }
        _ => panic!("expected the probing state"),
    }
}
