//! The codec decision tables, stream by stream, and the report entries
//! built from them.

use video_converter::codecs::codec_mapping;
use video_converter::codecs::get_codecs;
use video_converter::streams::Audio;
use video_converter::streams::CodecId;
use video_converter::streams::FieldOrder;
use video_converter::streams::Profile;
use video_converter::streams::StreamType;
use video_converter::streams::Subtitle;
use video_converter::streams::Video;

fn video(index: usize, codec: CodecId) -> StreamType {
    StreamType::Video(Video { index, codec, field_order: FieldOrder::Unknown })
}

fn audio_with(index: usize, codec: CodecId, lang: Option<&str>, profile: Option<Profile>) -> StreamType {
    StreamType::Audio(Audio { index, codec, lang: lang.map(|s| s.to_string()), profile })
}

fn subtitle(index: usize, codec: CodecId) -> StreamType {
    StreamType::Subtitle(Subtitle { index, codec, lang: None })
}

fn decide_one(t: StreamType) -> Option<CodecId> {
    let parsed = vec![t];
    let codecs = get_codecs(&parsed, &vec![0]);
    assert_eq!(codecs.len(), 1);
    assert_eq!(codecs[0].0, 0);
    codecs[0].1
}

#[test]
fn video_decision_table() {
    assert_eq!(decide_one(video(0, CodecId::H264)), None);
    assert_eq!(decide_one(video(0, CodecId::Hevc)), None);
    assert_eq!(decide_one(video(0, CodecId::Mpeg2)), Some(CodecId::H264));
    assert_eq!(decide_one(video(0, CodecId::Mpeg4)), Some(CodecId::H264));
    assert_eq!(decide_one(video(0, CodecId::Vc1)), Some(CodecId::H264));
    assert_eq!(decide_one(video(0, CodecId::Other)), Some(CodecId::H264));
}

#[test]
fn audio_decision_table() {
    assert_eq!(decide_one(audio_with(0, CodecId::Flac, None, None)), None);
    assert_eq!(decide_one(audio_with(0, CodecId::Aac, None, None)), None);
    assert_eq!(
        decide_one(audio_with(0, CodecId::TrueHd, None, None)),
        Some(CodecId::Flac)
    );
    assert_eq!(
        decide_one(audio_with(0, CodecId::Ac3, None, None)),
        Some(CodecId::Aac)
    );
    assert_eq!(
        decide_one(audio_with(0, CodecId::Eac3, None, None)),
        Some(CodecId::Aac)
    );
    assert_eq!(
        decide_one(audio_with(0, CodecId::Other, None, None)),
        Some(CodecId::Aac)
    );
}

#[test]
fn dts_profile_special_case() {
    // lossless DTS-HD MA goes to FLAC; any other profile, or none, to AAC
    assert_eq!(
        decide_one(audio_with(0, CodecId::Dts, None, Some(Profile::DtsHdMa))),
        Some(CodecId::Flac)
    );
    assert_eq!(
        decide_one(audio_with(0, CodecId::Dts, None, Some(Profile::Other))),
        Some(CodecId::Aac)
    );
    assert_eq!(
        decide_one(audio_with(0, CodecId::Dts, None, None)),
        Some(CodecId::Aac)
    );
}

#[test]
fn subtitle_decision_table() {
    assert_eq!(decide_one(subtitle(0, CodecId::HdmvPgsSubtitle)), None);
    assert_eq!(decide_one(subtitle(0, CodecId::DvdSubtitle)), None);
    assert_eq!(decide_one(subtitle(0, CodecId::Srt)), Some(CodecId::Ssa));
    assert_eq!(decide_one(subtitle(0, CodecId::Other)), Some(CodecId::Ssa));
    // a subtitle already in SSA is not a bitmap format, so the table still
    // re-encodes it — to its own codec
    assert_eq!(decide_one(subtitle(0, CodecId::Ssa)), Some(CodecId::Ssa));
}

#[test]
fn decision_is_pure_function_of_kind_codec_profile() {
    // index, language and field order do not matter, and repeating the
    // call repeats the answer
    let a = audio_with(0, CodecId::Dts, Some("eng"), Some(Profile::DtsHdMa));
    let b = audio_with(7, CodecId::Dts, Some("jpn"), Some(Profile::DtsHdMa));
    assert_eq!(decide_one(a), Some(CodecId::Flac));
    assert_eq!(decide_one(b), Some(CodecId::Flac));
    let v1 = StreamType::Video(Video { index: 3, codec: CodecId::Mpeg2, field_order: FieldOrder::Interlaced });
    let v2 = StreamType::Video(Video { index: 9, codec: CodecId::Mpeg2, field_order: FieldOrder::Progressive });
    assert_eq!(decide_one(v1), Some(CodecId::H264));
    assert_eq!(decide_one(v2), Some(CodecId::H264));
    let again = audio_with(0, CodecId::Dts, Some("eng"), Some(Profile::DtsHdMa));
    assert_eq!(decide_one(again), Some(CodecId::Flac));
}

#[test]
fn report_pass_through_keeps_codec() {
    let parsed = vec![video(0, CodecId::Hevc), audio_with(1, CodecId::Flac, None, None)];
    let codecs = get_codecs(&parsed, &vec![0, 1]);
    let report = codec_mapping(&parsed, &codecs);
    for entry in &report {
        assert!(entry.copy);
        assert_eq!(entry.new_codec, entry.old_codec);
    }
}

#[test]
fn report_transcode_changes_codec() {
    let parsed = vec![
        video(0, CodecId::Mpeg2),
        audio_with(1, CodecId::TrueHd, None, None),
        subtitle(2, CodecId::Srt),
    ];
    let codecs = get_codecs(&parsed, &vec![0, 1, 2]);
    let report = codec_mapping(&parsed, &codecs);
    assert_eq!(report.len(), 3);
    for entry in &report {
        assert!(!entry.copy);
        assert_ne!(entry.new_codec, entry.old_codec);
    }
    assert_eq!(report[0].new_codec, CodecId::H264);
    assert_eq!(report[1].new_codec, CodecId::Flac);
    assert_eq!(report[2].new_codec, CodecId::Ssa);
}

#[test]
fn decisions_follow_selection_order() {
    let parsed = vec![
        audio_with(0, CodecId::Aac, Some("eng"), None),
        video(1, CodecId::H264),
    ];
    let codecs = get_codecs(&parsed, &vec![1, 0]);
    assert_eq!(codecs, vec![(1, None), (0, None)]);
}
