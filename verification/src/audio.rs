//! Domain types of the conversion service and the normalization of
//! probed metadata.
//!
//! The probe stage of the pipeline yields one line of the shape
//! `title|uploader|thumbnail|duration`; parsing it and stripping the
//! decorative markers from the title are verified here character by
//! character.

use crate::text::{
    chars_of, parse_duration_spec, parse_seconds, remove_all, remove_occurrences, split_chars,
    split_spec, string_of, text_eq, trim, trim_spec, views_of,
};
use vstd::prelude::*;
use vstd::string::StringExecFns;

verus! {

/// A typed pipeline failure.
#[derive(Debug)]
pub enum AudioError {
    /// The source could not be probed or downloaded; carries cause text.
    DownloadFailed(String),
    /// The transform tool failed; carries cause text.
    ProcessingFailed(String),
    /// The probed duration exceeds the admission ceiling.
    TooLong,
}

/// Closed set of audio-shaping profiles.
#[derive(Clone, Copy, PartialEq, Eq, Structural, Debug)]
pub enum AudioPreset {
    CarBass,
    PureHiFi,
    ExtremeLow,
    Surround8D,
}

/// Descriptive metadata of a produced artifact.
pub struct AudioMetadata {
    pub title: String,
    pub artist: String,
    pub thumbnail_url: Option<String>,
    pub duration: u64,
}

/// Interface of a conversion backend: turns a source reference and a
/// preset into an artifact handle and its metadata, or a typed failure.
pub trait AudioService {
    fn process_track(&self, url: &str, preset: AudioPreset) -> Result<
        (String, AudioMetadata),
        AudioError,
    >;
}

/// The preset a request token names, if any.
pub open spec fn preset_of_token(s: Seq<char>) -> Option<AudioPreset> {
    if s == "bass"@ {
        Some(AudioPreset::CarBass)
    } else if s == "hifi"@ {
        Some(AudioPreset::PureHiFi)
    } else if s == "extreme"@ {
        Some(AudioPreset::ExtremeLow)
    } else if s == "8d"@ {
        Some(AudioPreset::Surround8D)
    } else {
        None
    }
}

/// Maps a request token to its preset; an unknown token maps to none.
pub fn preset_from_token(token: &str) -> (r: Option<AudioPreset>)
    ensures
        r == preset_of_token(token@),
{
    let v = chars_of(token);
    if text_eq(&v, &chars_of("bass")) {
        Some(AudioPreset::CarBass)
    } else if text_eq(&v, &chars_of("hifi")) {
        Some(AudioPreset::PureHiFi)
    } else if text_eq(&v, &chars_of("extreme")) {
        Some(AudioPreset::ExtremeLow)
    } else if text_eq(&v, &chars_of("8d")) {
        Some(AudioPreset::Surround8D)
    } else {
        None
    }
}

/// The filter expression each preset resolves to.
pub open spec fn filter_spec(preset: AudioPreset) -> Seq<char> {
    match preset {
        AudioPreset::CarBass => "loudnorm=I=-14:TP=-1.5:LRA=11,bass=g=3,treble=g=1"@,
        AudioPreset::PureHiFi => "loudnorm=I=-16:TP=-1.5:LRA=11"@,
        AudioPreset::ExtremeLow => "loudnorm=I=-12:TP=-1.0:LRA=11,bass=g=6,treble=g=2"@,
        AudioPreset::Surround8D => "apulsator=hz=0.125,loudnorm=I=-14:TP=-1.5:LRA=11"@,
    }
}

/// Resolves a preset to its fixed filter expression: one table entry per
/// preset.
pub fn filter_expression(preset: AudioPreset) -> (r: &'static str)
    ensures
        r@ == filter_spec(preset),
{
    match preset {
        AudioPreset::CarBass => "loudnorm=I=-14:TP=-1.5:LRA=11,bass=g=3,treble=g=1",
        AudioPreset::PureHiFi => "loudnorm=I=-16:TP=-1.5:LRA=11",
        AudioPreset::ExtremeLow => "loudnorm=I=-12:TP=-1.0:LRA=11,bass=g=6,treble=g=2",
        AudioPreset::Surround8D => "apulsator=hz=0.125,loudnorm=I=-14:TP=-1.5:LRA=11",
    }
}

/// A probed title after normalization: the known decorative markers
/// removed, then surrounding whitespace trimmed.
pub open spec fn clean_title_view(s: Seq<char>) -> Seq<char> {
    let a = remove_occurrences(s, "(Official Video)"@);
    let b = remove_occurrences(a, "(Official Audio)"@);
    let c = remove_occurrences(b, "(Official Music Video)"@);
    let d = remove_occurrences(c, "[Official Video]"@);
    let e = remove_occurrences(d, "[HQ]"@);
    let f = remove_occurrences(e, "(Lyric Video)"@);
    let g = remove_occurrences(f, "[Lyrics]"@);
    let h = remove_occurrences(g, "(High Quality)"@);
    let j = remove_occurrences(h, "4K"@);
    let k = remove_occurrences(j, "8K"@);
    trim_spec(k)
}

/// Strips a known set of decorative suffixes and quality tags from a
/// probed title, then trims surrounding whitespace.
pub fn clean_title(title: &str) -> (r: String)
    ensures
        r@ == clean_title_view(title@),
{
    let v = chars_of(title);
    let cleaned = clean_title_chars(&v);
    string_of(&cleaned)
}

fn clean_title_chars(v: &Vec<char>) -> (r: Vec<char>)
    ensures
        r@ == clean_title_view(v@),
{
    proof {
        reveal_strlit("(Official Video)");
        reveal_strlit("(Official Audio)");
        reveal_strlit("(Official Music Video)");
        reveal_strlit("[Official Video]");
        reveal_strlit("[HQ]");
        reveal_strlit("(Lyric Video)");
        reveal_strlit("[Lyrics]");
        reveal_strlit("(High Quality)");
        reveal_strlit("4K");
        reveal_strlit("8K");
    }
    let a = remove_all(v, &chars_of("(Official Video)"));
    let b = remove_all(&a, &chars_of("(Official Audio)"));
    let c = remove_all(&b, &chars_of("(Official Music Video)"));
    let d = remove_all(&c, &chars_of("[Official Video]"));
    let e = remove_all(&d, &chars_of("[HQ]"));
    let f = remove_all(&e, &chars_of("(Lyric Video)"));
    let g = remove_all(&f, &chars_of("[Lyrics]"));
    let h = remove_all(&g, &chars_of("(High Quality)"));
    let j = remove_all(&h, &chars_of("4K"));
    let k = remove_all(&j, &chars_of("8K"));
    trim(&k)
}

/// The fields of one probe line, split on `|`.
pub open spec fn probe_fields(raw: Seq<char>) -> Seq<Seq<char>> {
    split_spec(raw, '|')
}

/// The display title a probe line yields.
pub open spec fn probe_title_spec(raw: Seq<char>) -> Seq<char> {
    clean_title_view(probe_fields(raw)[0])
}

/// The artist a probe line yields: the trimmed second field, or a fixed
/// placeholder when the line has no second field.
pub open spec fn probe_artist_spec(raw: Seq<char>) -> Seq<char> {
    if probe_fields(raw).len() > 1 {
        trim_spec(probe_fields(raw)[1])
    } else {
        "Unknown Artist"@
    }
}

/// The thumbnail reference a probe line yields, when it has one.
pub open spec fn probe_thumb_spec(raw: Seq<char>) -> Option<Seq<char>> {
    if probe_fields(raw).len() > 2 {
        Some(trim_spec(probe_fields(raw)[2]))
    } else {
        None
    }
}

/// The duration in seconds a probe line yields; a missing or malformed
/// field counts as zero.
pub open spec fn probe_duration_spec(raw: Seq<char>) -> u64 {
    if probe_fields(raw).len() > 3 {
        parse_duration_spec(trim_spec(probe_fields(raw)[3]))
    } else {
        0
    }
}

/// Parses one probe line into artifact metadata.
pub fn probe_metadata(raw: &str) -> (m: AudioMetadata)
    ensures
        m.title@ == probe_title_spec(raw@),
        m.artist@ == probe_artist_spec(raw@),
        (match m.thumbnail_url {
            Some(t) => probe_thumb_spec(raw@) == Some(t@),
            None => probe_thumb_spec(raw@) is None,
        }),
        m.duration == probe_duration_spec(raw@),
{
    let v = chars_of(raw);
    let parts = split_chars(&v, '|');
    proof {
        assert(forall|k: int|
            0 <= k < parts@.len() ==> views_of(parts@)[k] == #[trigger] parts@[k]@);
    }
    let title_chars = clean_title_chars(&parts[0]);
    let title = string_of(&title_chars);
    let artist = if parts.len() > 1 {
        let t = trim(&parts[1]);
        string_of(&t)
    } else {
        unknown_artist()
    };
    let thumbnail_url = if parts.len() > 2 {
        let t = trim(&parts[2]);
        Some(string_of(&t))
    } else {
        None
    };
    let duration = if parts.len() > 3 {
        let t = trim(&parts[3]);
        parse_seconds(&t)
    } else {
        0
    };
    AudioMetadata { title, artist, thumbnail_url, duration }
}

fn unknown_artist() -> (r: String)
    ensures
        r@ == "Unknown Artist"@,
{
    String::from_str("Unknown Artist")
}

} // verus!
