//! End-to-end runs of the per-file pipeline: classification, selection and
//! codec resolution composed as the application drives them.

use video_converter::codecs::MappingEntry;
use video_converter::plan::process_file;
use video_converter::streams::parse_stream_metadata;
use video_converter::streams::CodecId;
use video_converter::streams::MediaKind;
use video_converter::streams::Profile;
use video_converter::streams::RawFieldOrder;
use video_converter::streams::RawStream;

fn raw(index: usize, kind: MediaKind, codec: CodecId, lang: Option<&str>) -> RawStream {
    RawStream {
        index,
        kind,
        codec,
        lang: lang.map(|s| s.to_string()),
        field_order: Some(RawFieldOrder::Progressive),
        profile: None,
    }
}

#[test]
fn pipeline_h264_dts_hdma_pgs() {
    // one H.264 video (no language), one DTS HD-MA English audio, one PGS
    // English subtitle: everything selected; video and subtitle copied,
    // audio re-encoded losslessly to FLAC
    let streams = vec![
        raw(0, MediaKind::Video, CodecId::H264, None),
        RawStream {
            profile: Some(Profile::DtsHdMa),
            ..raw(1, MediaKind::Audio, CodecId::Dts, Some("eng"))
        },
        raw(2, MediaKind::Subtitle, CodecId::HdmvPgsSubtitle, Some("eng")),
    ];
    let parsed = parse_stream_metadata(&streams);
    let plan = process_file(&parsed).expect("one video stream");
    assert_eq!(plan.mappings, vec![0, 1, 2]);
    assert_eq!(
        plan.codecs,
        vec![(0, None), (1, Some(CodecId::Flac)), (2, None)]
    );
    assert_eq!(
        plan.report,
        vec![
            MappingEntry { index: 0, old_codec: CodecId::H264, new_codec: CodecId::H264, copy: true },
            MappingEntry { index: 1, old_codec: CodecId::Dts, new_codec: CodecId::Flac, copy: false },
            MappingEntry {
                index: 2,
                old_codec: CodecId::HdmvPgsSubtitle,
                new_codec: CodecId::HdmvPgsSubtitle,
                copy: true,
            },
        ]
    );
}

#[test]
fn pipeline_mpeg2_foreign_audio_no_subs() {
    // one MPEG-2 video, audio tagged "fre" and "jpn" and none tagged "eng",
    // no subtitles: the audio fallback keeps both, video goes to H.264,
    // both audio streams to AAC
    let streams = vec![
        raw(0, MediaKind::Video, CodecId::Mpeg2, None),
        raw(1, MediaKind::Audio, CodecId::Ac3, Some("fre")),
        raw(2, MediaKind::Audio, CodecId::Dts, Some("jpn")),
    ];
    let parsed = parse_stream_metadata(&streams);
    let plan = process_file(&parsed).expect("one video stream");
    assert_eq!(plan.mappings, vec![0, 1, 2]);
    assert_eq!(
        plan.codecs,
        vec![
            (0, Some(CodecId::H264)),
            (1, Some(CodecId::Aac)),
            (2, Some(CodecId::Aac)),
        ]
    );
}

#[test]
fn pipeline_two_videos_rejected() {
    // two video streams: the selector rejects the file, reporting the
    // count, and no decision is produced
    let streams = vec![
        raw(0, MediaKind::Video, CodecId::H264, None),
        raw(1, MediaKind::Video, CodecId::Hevc, None),
        raw(2, MediaKind::Audio, CodecId::Aac, Some("eng")),
    ];
    let parsed = parse_stream_metadata(&streams);
    let err = process_file(&parsed).expect_err("two video streams");
    assert_eq!(err.num_video_streams, 2);
}

#[test]
fn pipeline_no_video_rejected() {
    let streams = vec![raw(0, MediaKind::Audio, CodecId::Flac, Some("eng"))];
    let parsed = parse_stream_metadata(&streams);
    let err = process_file(&parsed).expect_err("no video stream");
    assert_eq!(err.num_video_streams, 0);
}
