//! Codec policy: per selected stream, pass through or transcode to a target
//! codec, and the report entries the planner hands to the presentation
//! layer.
//!
//! The tables: video already in H.264 or HEVC passes through, any other
//! video is transcoded to H.264; FLAC and AAC audio pass through, TrueHD
//! and lossless DTS-HD MA audio go to FLAC (lossless to lossless), every
//! other audio goes to AAC; PGS and DVD bitmap subtitles pass through (they
//! cannot be turned into text), every other subtitle goes to SSA.

use vstd::prelude::*;

use crate::streams::Audio;
use crate::streams::CodecId;
use crate::streams::Profile;
use crate::streams::StreamType;

verus! {

/// The codec decision for one stream: `None` to pass it through unchanged,
/// `Some(target)` to transcode it. A function of the stream's kind, codec
/// and profile alone.
pub open spec fn decision(t: StreamType) -> Option<CodecId> {
    match t {
        StreamType::Video(v) => match v.codec {
            CodecId::Hevc | CodecId::H264 => None,
            _ => Some(CodecId::H264),
        },
        StreamType::Audio(a) => match a.codec {
            CodecId::Flac | CodecId::Aac => None,
            CodecId::TrueHd => Some(CodecId::Flac),
            CodecId::Dts => match a.profile {
                Some(Profile::DtsHdMa) => Some(CodecId::Flac),
                _ => Some(CodecId::Aac),
            },
            _ => Some(CodecId::Aac),
        },
        StreamType::Subtitle(s) => match s.codec {
            CodecId::HdmvPgsSubtitle | CodecId::DvdSubtitle => None,
            _ => Some(CodecId::Ssa),
        },
    }
}

/// Resolves the codec decision for every selected index, in plan order:
/// entry `j` pairs `mappings[j]` with the decision for the descriptor at
/// that position of the classified list.
pub fn get_codecs(parsed: &Vec<StreamType>, mappings: &Vec<usize>) -> (r: Vec<
    (usize, Option<CodecId>),
>)
    requires
        forall|j: int| 0 <= j < mappings@.len() ==> (mappings@[j] as int) < parsed@.len(),
    ensures
        r@.len() == mappings@.len(),
        forall|j: int|
            0 <= j < r@.len() ==> r@[j].0 == mappings@[j] && r@[j].1 == decision(
                parsed@[mappings@[j] as int],
            ),
{
    let mut r: Vec<(usize, Option<CodecId>)> = Vec::new();
    let mut i: usize = 0;
    while i < mappings.len()
        invariant
            i <= mappings.len(),
            r@.len() == i,
            forall|j: int| 0 <= j < mappings@.len() ==> (mappings@[j] as int) < parsed@.len(),
            forall|j: int|
                0 <= j < i ==> r@[j].0 == mappings@[j] && r@[j].1 == decision(
                    parsed@[mappings@[j] as int],
                ),
        decreases mappings.len() - i,
    {
        let index = mappings[i];
        let entry: (usize, Option<CodecId>) = match &parsed[index] {
            StreamType::Video(video) => match video.codec {
                CodecId::Hevc | CodecId::H264 => (index, None),
                _ => (index, Some(CodecId::H264)),
            },
            StreamType::Audio(audio) => match audio.codec {
                CodecId::Flac | CodecId::Aac => (index, None),
                CodecId::TrueHd => (index, Some(CodecId::Flac)),
                CodecId::Dts => match audio.profile {
                    Some(Profile::DtsHdMa) => (index, Some(CodecId::Flac)),
                    _ => (index, Some(CodecId::Aac)),
                },
                _ => (index, Some(CodecId::Aac)),
            },
            StreamType::Subtitle(subtitle) => match subtitle.codec {
                CodecId::HdmvPgsSubtitle | CodecId::DvdSubtitle => (index, None),
                _ => (index, Some(CodecId::Ssa)),
            },
        };
        r.push(entry);
        i = i + 1;
    }
    r
}

/// One line of the plan report: the stream, its current codec, the codec it
/// will have in the output, and whether it is copied rather than
/// re-encoded.
#[derive(Clone, Copy, PartialEq, Eq, Structural, Debug)]
pub struct MappingEntry {
    pub index: usize,
    pub old_codec: CodecId,
    pub new_codec: CodecId,
    pub copy: bool,
}

/// The report entry for one decided stream: a pass-through keeps the old
/// codec and is marked as a copy; a transcode reports the target codec.
pub open spec fn report_entry(idx: usize, old: CodecId, d: Option<CodecId>) -> MappingEntry {
    match d {
        None => MappingEntry { index: idx, old_codec: old, new_codec: old, copy: true },
        Some(c) => MappingEntry { index: idx, old_codec: old, new_codec: c, copy: false },
    }
}

/// Lays the codec decisions out as report entries, one per decided stream,
/// in plan order. Pure formatting of the plan as data; the presentation
/// layer only renders each entry.
pub fn codec_mapping(parsed: &Vec<StreamType>, codecs: &Vec<(usize, Option<CodecId>)>) -> (r: Vec<
    MappingEntry,
>)
    requires
        forall|j: int| 0 <= j < codecs@.len() ==> (codecs@[j].0 as int) < parsed@.len(),
    ensures
        r@.len() == codecs@.len(),
        forall|j: int|
            0 <= j < r@.len() ==> r@[j] == report_entry(
                codecs@[j].0,
                parsed@[codecs@[j].0 as int].codec(),
                codecs@[j].1,
            ),
{
    let mut r: Vec<MappingEntry> = Vec::new();
    let mut i: usize = 0;
    while i < codecs.len()
        invariant
            i <= codecs.len(),
            r@.len() == i,
            forall|j: int| 0 <= j < codecs@.len() ==> (codecs@[j].0 as int) < parsed@.len(),
            forall|j: int|
                0 <= j < i ==> r@[j] == report_entry(
                    codecs@[j].0,
                    parsed@[codecs@[j].0 as int].codec(),
                    codecs@[j].1,
                ),
        decreases codecs.len() - i,
    {
        let index = codecs[i].0;
        let d = codecs[i].1;
        let old_codec = match &parsed[index] {
            StreamType::Video(video) => video.codec,
            StreamType::Audio(audio) => audio.codec,
            StreamType::Subtitle(subtitle) => subtitle.codec,
        };
        let entry = match d {
            None => MappingEntry { index, old_codec, new_codec: old_codec, copy: true },
            Some(c) => MappingEntry { index, old_codec, new_codec: c, copy: false },
        };
        r.push(entry);
        i = i + 1;
    }
    r
}

/// The decision depends on the stream's kind, codec and profile alone: two
/// streams that agree on those three agree on the decision, whatever their
/// index, language or field order.
pub proof fn lemma_decision_pure(a: StreamType, b: StreamType)
    requires
        a.kind() == b.kind(),
        a.codec() == b.codec(),
        a.profile() == b.profile(),
    ensures
        decision(a) == decision(b),
{
}

/// The DTS special case: the lossless HD-MA profile is re-encoded to FLAC,
/// any other profile (or none) to AAC.
pub proof fn lemma_dts_decision(a: Audio)
    requires
        a.codec == CodecId::Dts,
    ensures
        a.profile == Some(Profile::DtsHdMa) ==> decision(StreamType::Audio(a)) == Some(
            CodecId::Flac,
        ),
        a.profile != Some(Profile::DtsHdMa) ==> decision(StreamType::Audio(a)) == Some(
            CodecId::Aac,
        ),
{
}

/// A pass-through entry reports the unchanged source codec and is marked as
/// a copy.
pub proof fn lemma_pass_through_preserves_codec(idx: usize, old: CodecId)
    ensures
        report_entry(idx, old, None).new_codec == old,
        report_entry(idx, old, None).copy,
{
}

/// A transcode entry reports a codec different from the source. The one
/// stream this does not hold of is a subtitle already in SSA: it is not a
/// bitmap format, so the table re-encodes it, to its own codec.
pub proof fn lemma_transcode_changes_codec(t: StreamType)
    requires
        !(t.is_subtitle() && t.codec() == CodecId::Ssa),
    ensures
        decision(t) matches Some(c) ==> report_entry(t.stream_index(), t.codec(), decision(t)).new_codec != t.codec(),
        decision(t) matches Some(c) ==> !report_entry(t.stream_index(), t.codec(), decision(t)).copy,
{
}

} // verus!
