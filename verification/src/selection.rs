//! Stream selection: which stream indices of a classified file are kept.
//!
//! Policy: the single video stream is always kept (zero or several video
//! streams reject the file); audio and subtitle streams tagged English are
//! preferred, and if a kind has no English-tagged stream, every stream of
//! that kind is kept instead. The plan lists the video group first, then
//! audio, then subtitles, each group in container order.

use vstd::prelude::*;

use crate::streams::StreamType;

verus! {

/// Rejection of a file whose video stream count is not exactly one; carries
/// the observed count so the caller can report it.
#[derive(Clone, Copy, PartialEq, Eq, Structural, Debug)]
pub struct SelectionError {
    pub num_video_streams: usize,
}

/// Whether a language tag is the fixed English locale the policy prefers.
pub open spec fn is_eng(lang: Option<String>) -> bool {
    match lang {
        Some(l) => l@ == "eng"@,
        None => false,
    }
}

/// The indices of the streams satisfying `p`, in container-list order.
pub open spec fn selected_indices(s: Seq<StreamType>, p: spec_fn(StreamType) -> bool) -> Seq<usize>
    decreases s.len(),
{
    if s.len() == 0 {
        Seq::empty()
    } else if p(s.last()) {
        selected_indices(s.drop_last(), p).push(s.last().stream_index())
    } else {
        selected_indices(s.drop_last(), p)
    }
}

/// The indices of all video streams.
pub open spec fn video_indices(s: Seq<StreamType>) -> Seq<usize> {
    selected_indices(s, |t: StreamType| t.is_video())
}

/// The indices of the English-tagged audio streams.
pub open spec fn eng_audio_indices(s: Seq<StreamType>) -> Seq<usize> {
    selected_indices(s, |t: StreamType| t.is_audio() && is_eng(t.lang()))
}

/// The indices of all audio streams.
pub open spec fn all_audio_indices(s: Seq<StreamType>) -> Seq<usize> {
    selected_indices(s, |t: StreamType| t.is_audio())
}

/// The indices of the English-tagged subtitle streams.
pub open spec fn eng_subtitle_indices(s: Seq<StreamType>) -> Seq<usize> {
    selected_indices(s, |t: StreamType| t.is_subtitle() && is_eng(t.lang()))
}

/// The indices of all subtitle streams.
pub open spec fn all_subtitle_indices(s: Seq<StreamType>) -> Seq<usize> {
    selected_indices(s, |t: StreamType| t.is_subtitle())
}

/// The audio group of the plan: English-tagged streams if any exist, else
/// every audio stream.
pub open spec fn audio_selection(s: Seq<StreamType>) -> Seq<usize> {
    if eng_audio_indices(s).len() > 0 {
        eng_audio_indices(s)
    } else {
        all_audio_indices(s)
    }
}

/// The subtitle group of the plan, under the same two-tier policy as audio.
/// A file without subtitles yields an empty group, which is not an error.
pub open spec fn subtitle_selection(s: Seq<StreamType>) -> Seq<usize> {
    if eng_subtitle_indices(s).len() > 0 {
        eng_subtitle_indices(s)
    } else {
        all_subtitle_indices(s)
    }
}

/// The whole selection plan: video group, then audio group, then subtitle
/// group.
pub open spec fn mappings_spec(s: Seq<StreamType>) -> Seq<usize> {
    video_indices(s) + audio_selection(s) + subtitle_selection(s)
}

fn lang_is_eng(lang: &Option<String>) -> (b: bool)
    ensures
        b == is_eng(*lang),
{
    match lang {
        Some(l) => {
            let eng: String = "eng".to_owned();
            *l == eng
        },
        None => false,
    }
}

/// Selects the stream indices to keep, or rejects the file when its video
/// stream count is not exactly one. On success the plan is exactly
/// `mappings_spec`; on rejection the error carries the observed video
/// stream count.
pub fn get_mappings(parsed: &Vec<StreamType>) -> (r: Result<Vec<usize>, SelectionError>)
    ensures
        r is Ok <==> video_indices(parsed@).len() == 1,
        r matches Ok(m) ==> m@ == mappings_spec(parsed@),
        r matches Err(e) ==> e.num_video_streams == video_indices(parsed@).len(),
{
    let mut video_mappings: Vec<usize> = Vec::new();
    let mut audio_mappings: Vec<usize> = Vec::new();
    let mut subtitle_mappings: Vec<usize> = Vec::new();

    let mut i: usize = 0;
    while i < parsed.len()
        invariant
            i <= parsed.len(),
            video_mappings@ == video_indices(parsed@.take(i as int)),
            audio_mappings@ == eng_audio_indices(parsed@.take(i as int)),
            subtitle_mappings@ == eng_subtitle_indices(parsed@.take(i as int)),
        decreases parsed.len() - i,
    {
        match &parsed[i] {
            StreamType::Video(video) => {
                video_mappings.push(video.index);
            },
            StreamType::Audio(audio) => {
                if lang_is_eng(&audio.lang) {
                    audio_mappings.push(audio.index);
                }
            },
            StreamType::Subtitle(subtitle) => {
                if lang_is_eng(&subtitle.lang) {
                    subtitle_mappings.push(subtitle.index);
                }
            },
        }
        proof {
            assert(parsed@.take(i as int + 1).drop_last() =~= parsed@.take(i as int));
            assert(parsed@.take(i as int + 1).last() == parsed@[i as int]);
        }
        i = i + 1;
    }
    proof {
        assert(parsed@.take(parsed@.len() as int) =~= parsed@);
    }

    if video_mappings.len() != 1 {
        let num_vids = video_mappings.len();
        return Err(SelectionError { num_video_streams: num_vids });
    }

    if audio_mappings.len() == 0 {
        // no English streams were detected, so use all audio streams
        proof {
            assert(audio_mappings@ =~= Seq::<usize>::empty());
        }
        let mut j: usize = 0;
        while j < parsed.len()
            invariant
                j <= parsed.len(),
                audio_mappings@ == all_audio_indices(parsed@.take(j as int)),
            decreases parsed.len() - j,
        {
            match &parsed[j] {
                StreamType::Audio(audio) => {
                    audio_mappings.push(audio.index);
                },
                _ => {},
            }
            proof {
                assert(parsed@.take(j as int + 1).drop_last() =~= parsed@.take(j as int));
                assert(parsed@.take(j as int + 1).last() == parsed@[j as int]);
            }
            j = j + 1;
        }
        proof {
            assert(parsed@.take(parsed@.len() as int) =~= parsed@);
        }
    }

    if subtitle_mappings.len() == 0 {
        // no English streams were detected, so use all subtitle streams
        proof {
            assert(subtitle_mappings@ =~= Seq::<usize>::empty());
        }
        let mut j: usize = 0;
        while j < parsed.len()
            invariant
                j <= parsed.len(),
                subtitle_mappings@ == all_subtitle_indices(parsed@.take(j as int)),
            decreases parsed.len() - j,
        {
            match &parsed[j] {
                StreamType::Subtitle(subtitle) => {
                    subtitle_mappings.push(subtitle.index);
                },
                _ => {},
            }
            proof {
                assert(parsed@.take(j as int + 1).drop_last() =~= parsed@.take(j as int));
                assert(parsed@.take(j as int + 1).last() == parsed@[j as int]);
            }
            j = j + 1;
        }
        proof {
            assert(parsed@.take(parsed@.len() as int) =~= parsed@);
        }
    }

    let mut result = video_mappings;
    result.append(&mut audio_mappings);
    result.append(&mut subtitle_mappings);
    proof {
        assert(result@ =~= mappings_spec(parsed@));
    }
    Ok(result)
}

/// The data-model invariant after classification when no stream was
/// dropped: each descriptor sits at the position its container index
/// names.
pub open spec fn index_consistent(s: Seq<StreamType>) -> bool {
    forall|i: int| 0 <= i < s.len() ==> (#[trigger] s[i].stream_index()) as int == i
}

proof fn lemma_selected_in_bounds(s: Seq<StreamType>, p: spec_fn(StreamType) -> bool)
    requires
        index_consistent(s),
    ensures
        forall|j: int|
            0 <= j < selected_indices(s, p).len() ==> ((#[trigger] selected_indices(s, p)[j]) as int)
                < s.len(),
    decreases s.len(),
{
    if s.len() > 0 {
        assert forall|i: int|
            0 <= i < s.drop_last().len() implies (#[trigger] s.drop_last()[i].stream_index())
            as int == i by {
            assert(s.drop_last()[i] == s[i]);
        }
        lemma_selected_in_bounds(s.drop_last(), p);
        let sub = selected_indices(s.drop_last(), p);
        assert(s.last() == s[s.len() - 1]);
        assert((s[s.len() - 1].stream_index()) as int == s.len() - 1);
        assert forall|j: int|
            0 <= j < selected_indices(s, p).len() implies ((#[trigger] selected_indices(s, p)[j])
            as int) < s.len() by {
            if p(s.last()) {
                if j < sub.len() {
                    assert(selected_indices(s, p)[j] == sub[j]);
                } else {
                    assert(selected_indices(s, p)[j] == s.last().stream_index());
                }
            } else {
                assert(selected_indices(s, p)[j] == sub[j]);
            }
        }
    }
}

/// Under the data-model invariant, every index the plan selects is the
/// position of a descriptor in the classified list.
pub proof fn lemma_mappings_in_bounds(s: Seq<StreamType>)
    requires
        index_consistent(s),
    ensures
        forall|j: int|
            0 <= j < mappings_spec(s).len() ==> ((#[trigger] mappings_spec(s)[j]) as int) < s.len(),
{
    lemma_selected_in_bounds(s, |t: StreamType| t.is_video());
    lemma_selected_in_bounds(s, |t: StreamType| t.is_audio() && is_eng(t.lang()));
    lemma_selected_in_bounds(s, |t: StreamType| t.is_audio());
    lemma_selected_in_bounds(s, |t: StreamType| t.is_subtitle() && is_eng(t.lang()));
    lemma_selected_in_bounds(s, |t: StreamType| t.is_subtitle());
}

/// Every stream satisfying the predicate contributes its index to the
/// selected group.
pub proof fn lemma_selected_contains(s: Seq<StreamType>, p: spec_fn(StreamType) -> bool, i: int)
    requires
        0 <= i < s.len(),
        p(s[i]),
    ensures
        selected_indices(s, p).contains(s[i].stream_index()),
    decreases s.len(),
{
    if i == s.len() - 1 {
        assert(selected_indices(s, p).last() == s[i].stream_index());
    } else {
        lemma_selected_contains(s.drop_last(), p, i);
        let sub = selected_indices(s.drop_last(), p);
        let k = choose|k: int| 0 <= k < sub.len() && sub[k] == s[i].stream_index();
        assert(selected_indices(s, p)[k] == s[i].stream_index());
    }
}

/// A group is non-empty exactly when some stream satisfies its predicate.
pub proof fn lemma_selected_nonempty(s: Seq<StreamType>, p: spec_fn(StreamType) -> bool)
    ensures
        selected_indices(s, p).len() > 0 <==> exists|i: int| 0 <= i < s.len() && p(s[i]),
    decreases s.len(),
{
    if s.len() == 0 {
    } else {
        lemma_selected_nonempty(s.drop_last(), p);
        if p(s.last()) {
            assert(p(s[s.len() - 1]));
        } else {
            if exists|i: int| 0 <= i < s.len() && p(s[i]) {
                let i = choose|i: int| 0 <= i < s.len() && p(s[i]);
                assert(i < s.len() - 1);
                assert(p(s.drop_last()[i]));
            }
        }
    }
}

/// A file with exactly one video stream always has that stream selected,
/// and its index is the first entry of the plan.
pub proof fn lemma_selector_includes_video(s: Seq<StreamType>, i: int)
    requires
        video_indices(s).len() == 1,
        0 <= i < s.len(),
        s[i].is_video(),
    ensures
        mappings_spec(s)[0] == s[i].stream_index(),
        mappings_spec(s).contains(s[i].stream_index()),
{
    lemma_selected_contains(s, |t: StreamType| t.is_video(), i);
    let v = video_indices(s);
    let k = choose|k: int| 0 <= k < v.len() && v[k] == s[i].stream_index();
    assert(k == 0);
    assert(mappings_spec(s)[0] == v[0]);
}

/// The two-tier language policy for audio: when some audio stream is tagged
/// English the selected audio group is exactly the English-tagged streams,
/// otherwise it is every audio stream of the file.
pub proof fn lemma_audio_language_fallback(s: Seq<StreamType>)
    ensures
        (exists|i: int| 0 <= i < s.len() && s[i].is_audio() && is_eng(s[i].lang()))
            ==> audio_selection(s) == eng_audio_indices(s),
        !(exists|i: int| 0 <= i < s.len() && s[i].is_audio() && is_eng(s[i].lang()))
            ==> audio_selection(s) == all_audio_indices(s),
{
    lemma_selected_nonempty(s, |t: StreamType| t.is_audio() && is_eng(t.lang()));
}

/// The two-tier language policy for subtitles, identical to audio.
pub proof fn lemma_subtitle_language_fallback(s: Seq<StreamType>)
    ensures
        (exists|i: int| 0 <= i < s.len() && s[i].is_subtitle() && is_eng(s[i].lang()))
            ==> subtitle_selection(s) == eng_subtitle_indices(s),
        !(exists|i: int| 0 <= i < s.len() && s[i].is_subtitle() && is_eng(s[i].lang()))
            ==> subtitle_selection(s) == all_subtitle_indices(s),
{
    lemma_selected_nonempty(s, |t: StreamType| t.is_subtitle() && is_eng(t.lang()));
}

} // verus!
