//! Data model for container streams and the classifier that turns raw
//! per-stream facts from the demuxer into typed stream descriptors.

use vstd::prelude::*;

verus! {

/// Codec families the planner distinguishes. Everything the decision tables
/// do not name explicitly is folded into `Other`.
#[derive(Clone, Copy, PartialEq, Eq, Structural, Debug)]
pub enum CodecId {
    H264,
    Hevc,
    Mpeg2,
    Mpeg4,
    Vc1,
    Flac,
    Aac,
    TrueHd,
    Dts,
    Ac3,
    Eac3,
    Ssa,
    Srt,
    HdmvPgsSubtitle,
    DvdSubtitle,
    Other,
}

/// Coarse category of a container stream as the demuxer reports it.
/// `Other` covers data, attachment and unknown streams, which the
/// classifier drops.
#[derive(Clone, Copy, PartialEq, Eq, Structural, Debug)]
pub enum MediaKind {
    Video,
    Audio,
    Subtitle,
    Other,
}

/// Field order of a video stream after classification.
#[derive(Clone, Copy, PartialEq, Eq, Structural, Debug)]
pub enum FieldOrder {
    Progressive,
    Unknown,
    Interlaced,
}

/// Field order exactly as the decoder reports it: progressive, one of the
/// four interlaced layouts (top/bottom coded first, top/bottom displayed
/// first), or unknown.
#[derive(Clone, Copy, PartialEq, Eq, Structural, Debug)]
pub enum RawFieldOrder {
    Progressive,
    Tt,
    Tb,
    Bt,
    Bb,
    Unknown,
}

/// Codec-specific profile of an audio stream. Only the lossless DTS-HD
/// Master Audio profile influences any decision; every other known profile
/// is `Other`, and `Unknown` is what a decoder reports when it cannot tell.
#[derive(Clone, Copy, PartialEq, Eq, Structural, Debug)]
pub enum Profile {
    Unknown,
    DtsHdMa,
    Other,
}

/// A classified video stream.
#[derive(Debug)]
pub struct Video {
    pub index: usize,
    pub codec: CodecId,
    pub field_order: FieldOrder,
}

/// A classified audio stream.
#[derive(Debug)]
pub struct Audio {
    pub index: usize,
    pub codec: CodecId,
    pub lang: Option<String>,
    pub profile: Option<Profile>,
}

/// A classified subtitle stream.
#[derive(Debug)]
pub struct Subtitle {
    pub index: usize,
    pub codec: CodecId,
    pub lang: Option<String>,
}

/// A classified stream of any of the three kinds the planner keeps.
#[derive(Debug)]
pub enum StreamType {
    Video(Video),
    Audio(Audio),
    Subtitle(Subtitle),
}

impl StreamType {
    /// Ordinal position of the stream in its container.
    pub open spec fn stream_index(self) -> usize {
        match self {
            StreamType::Video(v) => v.index,
            StreamType::Audio(a) => a.index,
            StreamType::Subtitle(s) => s.index,
        }
    }

    /// The stream's current codec.
    pub open spec fn codec(self) -> CodecId {
        match self {
            StreamType::Video(v) => v.codec,
            StreamType::Audio(a) => a.codec,
            StreamType::Subtitle(s) => s.codec,
        }
    }

    /// The stream's language tag; video streams carry none.
    pub open spec fn lang(self) -> Option<String> {
        match self {
            StreamType::Video(_) => None,
            StreamType::Audio(a) => a.lang,
            StreamType::Subtitle(s) => s.lang,
        }
    }

    /// The stream's audio profile; only audio streams carry one.
    pub open spec fn profile(self) -> Option<Profile> {
        match self {
            StreamType::Video(_) => None,
            StreamType::Audio(a) => a.profile,
            StreamType::Subtitle(_) => None,
        }
    }

    /// The stream's coarse kind.
    pub open spec fn kind(self) -> MediaKind {
        match self {
            StreamType::Video(_) => MediaKind::Video,
            StreamType::Audio(_) => MediaKind::Audio,
            StreamType::Subtitle(_) => MediaKind::Subtitle,
        }
    }

    /// Ordinal position of the stream in its container, for callers
    /// outside the proof.
    pub fn index(&self) -> (i: usize)
        ensures
            i == self.stream_index(),
    {
        match self {
            StreamType::Video(v) => v.index,
            StreamType::Audio(a) => a.index,
            StreamType::Subtitle(s) => s.index,
        }
    }

    pub open spec fn is_video(self) -> bool {
        self is Video
    }

    pub open spec fn is_audio(self) -> bool {
        self is Audio
    }

    pub open spec fn is_subtitle(self) -> bool {
        self is Subtitle
    }
}

/// What the decoder's field-order probe resolves to: the four interlaced
/// layouts collapse to `Interlaced`, and a failed probe (`None`) or an
/// unknown order defaults to `Unknown`.
pub open spec fn resolve_field_order(probe: Option<RawFieldOrder>) -> FieldOrder {
    match probe {
        Some(RawFieldOrder::Progressive) => FieldOrder::Progressive,
        Some(RawFieldOrder::Tt) => FieldOrder::Interlaced,
        Some(RawFieldOrder::Tb) => FieldOrder::Interlaced,
        Some(RawFieldOrder::Bt) => FieldOrder::Interlaced,
        Some(RawFieldOrder::Bb) => FieldOrder::Interlaced,
        Some(RawFieldOrder::Unknown) => FieldOrder::Unknown,
        None => FieldOrder::Unknown,
    }
}

/// What the decoder's profile probe resolves to: an `Unknown` profile and a
/// failed probe (`None`) both mean "no profile".
pub open spec fn resolve_profile(probe: Option<Profile>) -> Option<Profile> {
    match probe {
        Some(Profile::Unknown) => None,
        Some(p) => Some(p),
        None => None,
    }
}

impl Video {
    /// Builds a video descriptor from the demuxer's facts. `field_order` is
    /// the decoder probe's outcome, `None` when the decoder could not be
    /// opened; both failure and an unknown order resolve to
    /// `FieldOrder::Unknown`.
    pub fn new(index: usize, codec: CodecId, field_order: Option<RawFieldOrder>) -> (v: Video)
        ensures
            v.index == index,
            v.codec == codec,
            v.field_order == resolve_field_order(field_order),
    {
        let fo = match field_order {
            Some(RawFieldOrder::Progressive) => FieldOrder::Progressive,
            Some(RawFieldOrder::Tt) => FieldOrder::Interlaced,
            Some(RawFieldOrder::Tb) => FieldOrder::Interlaced,
            Some(RawFieldOrder::Bt) => FieldOrder::Interlaced,
            Some(RawFieldOrder::Bb) => FieldOrder::Interlaced,
            Some(RawFieldOrder::Unknown) => FieldOrder::Unknown,
            None => FieldOrder::Unknown,
        };
        Video { index, codec, field_order: fo }
    }
}

impl Audio {
    /// Builds an audio descriptor from the demuxer's facts. `profile` is the
    /// decoder probe's outcome, `None` when the decoder could not be opened;
    /// both failure and an `Unknown` profile leave the descriptor without a
    /// profile.
    pub fn new(index: usize, codec: CodecId, lang: Option<String>, profile: Option<Profile>) -> (a:
        Audio)
        ensures
            a.index == index,
            a.codec == codec,
            a.lang == lang,
            a.profile == resolve_profile(profile),
    {
        let p = match profile {
            Some(Profile::Unknown) => None,
            Some(x) => Some(x),
            None => None,
        };
        Audio { index, codec, lang, profile: p }
    }
}

impl Subtitle {
    /// Builds a subtitle descriptor from the demuxer's facts.
    pub fn new(index: usize, codec: CodecId, lang: Option<String>) -> (s: Subtitle)
        ensures
            s.index == index,
            s.codec == codec,
            s.lang == lang,
    {
        Subtitle { index, codec, lang }
    }
}

/// Raw facts about one container stream, read off the demuxer before any
/// decision is made: position, kind, codec, the `language` metadata tag if
/// present, and the two decoder probes (field order for video, profile for
/// audio), each `None` when the probe failed.
#[derive(Debug)]
pub struct RawStream {
    pub index: usize,
    pub kind: MediaKind,
    pub codec: CodecId,
    pub lang: Option<String>,
    pub field_order: Option<RawFieldOrder>,
    pub profile: Option<Profile>,
}

/// The descriptor one raw stream classifies to, or `None` for kinds the
/// planner drops.
pub open spec fn classify_one(r: RawStream) -> Option<StreamType> {
    match r.kind {
        MediaKind::Video => Some(
            StreamType::Video(
                Video {
                    index: r.index,
                    codec: r.codec,
                    field_order: resolve_field_order(r.field_order),
                },
            ),
        ),
        MediaKind::Audio => Some(
            StreamType::Audio(
                Audio {
                    index: r.index,
                    codec: r.codec,
                    lang: r.lang,
                    profile: resolve_profile(r.profile),
                },
            ),
        ),
        MediaKind::Subtitle => Some(
            StreamType::Subtitle(Subtitle { index: r.index, codec: r.codec, lang: r.lang }),
        ),
        MediaKind::Other => None,
    }
}

/// The classified descriptor list for a whole stream list: order preserved,
/// original indices preserved, dropped kinds omitted.
pub open spec fn classify_streams(s: Seq<RawStream>) -> Seq<StreamType>
    decreases s.len(),
{
    if s.len() == 0 {
        Seq::empty()
    } else {
        classify_streams(s.drop_last()) + match classify_one(s.last()) {
            Some(t) => seq![t],
            None => Seq::empty(),
        }
    }
}

fn clone_lang(lang: &Option<String>) -> (r: Option<String>)
    ensures
        r == *lang,
{
    match lang {
        Some(s) => Some(s.clone()),
        None => None,
    }
}

/// Classifies a container's raw stream list into typed descriptors,
/// keeping video, audio and subtitle streams in container order and
/// dropping everything else.
pub fn parse_stream_metadata(streams: &Vec<RawStream>) -> (out: Vec<StreamType>)
    ensures
        out@ == classify_streams(streams@),
{
    let mut out: Vec<StreamType> = Vec::new();
    let mut i: usize = 0;
    while i < streams.len()
        invariant
            i <= streams.len(),
            out@ == classify_streams(streams@.take(i as int)),
        decreases streams.len() - i,
    {
        let r = &streams[i];
        match r.kind {
            MediaKind::Video => {
                out.push(StreamType::Video(Video::new(r.index, r.codec, r.field_order)));
            },
            MediaKind::Audio => {
                out.push(
                    StreamType::Audio(Audio::new(r.index, r.codec, clone_lang(&r.lang), r.profile)),
                );
            },
            MediaKind::Subtitle => {
                out.push(StreamType::Subtitle(Subtitle::new(r.index, r.codec, clone_lang(&r.lang))));
            },
            MediaKind::Other => {},
        }
        proof {
            assert(streams@.take(i as int + 1).drop_last() =~= streams@.take(i as int));
            assert(streams@.take(i as int + 1).last() == streams@[i as int]);
        }
        i = i + 1;
    }
    proof {
        assert(streams@.take(streams@.len() as int) =~= streams@);
    }
    out
}

} // verus!
