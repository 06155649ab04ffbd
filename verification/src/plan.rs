//! The per-file pipeline: selection and codec resolution composed into one
//! call, as the application runs it for each discovered file.

use vstd::prelude::*;

use crate::codecs::codec_mapping;
use crate::codecs::decision;
use crate::codecs::get_codecs;
use crate::codecs::report_entry;
use crate::codecs::MappingEntry;
use crate::selection::get_mappings;
use crate::selection::index_consistent;
use crate::selection::lemma_mappings_in_bounds;
use crate::selection::mappings_spec;
use crate::selection::video_indices;
use crate::selection::SelectionError;
use crate::streams::CodecId;
use crate::streams::StreamType;

verus! {

/// The complete plan for one file: the selected indices, the codec
/// decision for each of them, and the report entries in the same order.
#[derive(Debug)]
pub struct FilePlan {
    pub mappings: Vec<usize>,
    pub codecs: Vec<(usize, Option<CodecId>)>,
    pub report: Vec<MappingEntry>,
}

/// Runs selection and codec resolution for one classified file: on success
/// the plan selects exactly `mappings_spec`, pairs every selected index
/// with its decision, and lays the decisions out as report entries; a file
/// without exactly one video stream is rejected with the observed count,
/// and no plan is produced.
pub fn process_file(parsed: &Vec<StreamType>) -> (r: Result<FilePlan, SelectionError>)
    requires
        index_consistent(parsed@),
    ensures
        r is Ok <==> video_indices(parsed@).len() == 1,
        r matches Ok(p) ==> {
            &&& p.mappings@ == mappings_spec(parsed@)
            &&& p.codecs@.len() == p.mappings@.len()
            &&& forall|j: int|
                0 <= j < p.codecs@.len() ==> #[trigger] p.codecs@[j].0 == p.mappings@[j]
                    && p.codecs@[j].1 == decision(parsed@[p.mappings@[j] as int])
            &&& p.report@.len() == p.mappings@.len()
            &&& forall|j: int|
                0 <= j < p.report@.len() ==> #[trigger] p.report@[j] == report_entry(
                    p.mappings@[j],
                    parsed@[p.mappings@[j] as int].codec(),
                    decision(parsed@[p.mappings@[j] as int]),
                )
        },
        r matches Err(e) ==> e.num_video_streams == video_indices(parsed@).len(),
{
    let mappings = match get_mappings(parsed) {
        Ok(m) => m,
        Err(e) => {
            return Err(e);
        },
    };
    proof {
        lemma_mappings_in_bounds(parsed@);
    }
    let codecs = get_codecs(parsed, &mappings);
    proof {
        assert forall|j: int| 0 <= j < codecs@.len() implies ((#[trigger] codecs@[j].0) as int)
            < parsed@.len() by {
            assert(codecs@[j].0 == mappings@[j]);
            assert((mappings_spec(parsed@)[j] as int) < parsed@.len());
        }
    }
    let report = codec_mapping(parsed, &codecs);
    Ok(FilePlan { mappings, codecs, report })
}

} // verus!
