//! Search data assembly: pairing the hits of a list-search call with the
//! records of the follow-up detail lookup, and building each item's link.
//!
//! The remote calls themselves are a collaborator's business; this module
//! receives their plain results and computes what the application shows.

use vstd::prelude::*;
use crate::results::ResultItem;

verus! {

/// Why a submission failed: the collaborator could not be reached, or what
/// it sent back could not be decoded. Either way the failure is fatal only
/// to that submission.
#[derive(Clone, Copy, PartialEq, Eq, Structural, Debug)]
pub enum SearchFailure {
    Network,
    Decode,
}

/// One hit of the list-search call: its snippet fields and the video
/// identifier that keys the detail lookup.
pub struct SearchHit {
    pub title: String,
    pub channel: String,
    pub published_at: String,
    pub description: String,
    pub video_id: String,
}

/// One record of the detail/statistics lookup.
pub struct DetailRecord {
    pub duration: String,
    pub view_count: String,
}

/// The watchable link of the video with identifier `id`.
pub open spec fn link_of(id: Seq<char>) -> Seq<char> {
    "https://youtube.com/watch?v="@ + id
}

/// Build the watchable link of the video with identifier `id`.
pub fn video_link(id: &String) -> (r: String)
    ensures
        r@ == link_of(id@),
{
    let mut s = "https://youtube.com/watch?v=".to_owned();
    s.push_str(id.as_str());
    s
}

/// Whether `item` is exactly the merge of `hit` and `det`: the snippet
/// fields of the hit, the statistics of the detail record, and the link
/// built from the hit's identifier.
pub open spec fn merged_item(item: ResultItem, hit: SearchHit, det: DetailRecord) -> bool {
    &&& item.title@ == hit.title@
    &&& item.channel@ == hit.channel@
    &&& item.published_at@ == hit.published_at@
    &&& item.description@ == hit.description@
    &&& item.duration@ == det.duration@
    &&& item.view_count@ == det.view_count@
    &&& item.link@ == link_of(hit.video_id@)
}

/// Pair the search hits with the detail records by position: the i-th hit
/// with the i-th record. Where the two counts diverge, pairing stops at the
/// shorter length and the excess entries of either side are dropped.
pub fn merge_results(hits: &Vec<SearchHit>, details: &Vec<DetailRecord>) -> (r: Vec<ResultItem>)
    ensures
        r@.len() == if hits@.len() <= details@.len() {
            hits@.len()
        } else {
            details@.len()
        },
        forall|j: int|
            0 <= j < r@.len() ==> #[trigger] merged_item(r@[j], hits@[j], details@[j]),
{
    let mut out: Vec<ResultItem> = Vec::new();
    let n = if hits.len() <= details.len() {
        hits.len()
    } else {
        details.len()
    };
    for i in 0..n
        invariant
            n <= hits@.len(),
            n <= details@.len(),
            out@.len() == i,
            forall|j: int|
                0 <= j < i ==> #[trigger] merged_item(out@[j], hits@[j], details@[j]),
    {
        let item = ResultItem {
            title: hits[i].title.clone(),
            channel: hits[i].channel.clone(),
            published_at: hits[i].published_at.clone(),
            duration: details[i].duration.clone(),
            view_count: details[i].view_count.clone(),
            link: video_link(&hits[i].video_id),
            description: hits[i].description.clone(),
        };
        out.push(item);
    }
    out
}

} // verus!
