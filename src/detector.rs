use vstd::prelude::*;
use crate::models::{Codec, Container, ModeView, Transition, VideoMode};
use crate::text::{copy_string, str_eq};
use crate::urls::listed;

verus! {

/// Largest dissimilarity score (the perceptual metric scaled by 1000 and
/// truncated) at which a frame still matches a reference.
pub const MATCH_THRESHOLD: u32 = 900;

/// A score that counts as a match.
pub open spec fn similar(score: u32) -> bool {
    score <= MATCH_THRESHOLD
}

/// Index `i` holds the lowest score of `scores`, that score is a match, and
/// no earlier index ties with it.
pub open spec fn is_best_match(scores: Seq<u32>, i: int) -> bool {
    &&& 0 <= i < scores.len()
    &&& similar(scores[i])
    &&& forall|j: int| 0 <= j < scores.len() ==> scores[i] <= scores[j]
    &&& forall|j: int| 0 <= j < i ==> scores[i] < scores[j]
}

/// The best match among `scores`, if any score is a match.
pub open spec fn best_match_of(scores: Seq<u32>) -> Option<int> {
    if exists|i: int| is_best_match(scores, i) {
        Some(choose|i: int| is_best_match(scores, i))
    } else {
        None
    }
}

/// At most one index is the best match.
pub proof fn lemma_best_match_unique(scores: Seq<u32>, i: int, j: int)
    requires
        is_best_match(scores, i),
        is_best_match(scores, j),
    ensures
        i == j,
{
    if i < j {
        assert(scores[j] < scores[i]);
    } else if j < i {
        assert(scores[i] < scores[j]);
    }
}

/// A frame identical to reference `i` scores zero against it; if no earlier
/// reference also scores zero, reference `i` is the one matched.
pub proof fn lemma_identical_frame_matches(scores: Seq<u32>, i: int)
    requires
        0 <= i < scores.len(),
        scores[i] == 0,
        forall|j: int| 0 <= j < i ==> scores[j] > 0,
    ensures
        best_match_of(scores) == Some(i),
{
    assert(is_best_match(scores, i));
    let k = choose|k: int| is_best_match(scores, k);
    lemma_best_match_unique(scores, i, k);
}

/// Whether a single score is a match.
pub fn is_similar(score: u32) -> (r: bool)
    ensures
        r == similar(score),
{
    score <= MATCH_THRESHOLD
}

/// Index of the lowest matching score, the earliest one on ties; `None` when
/// no score is a match.
pub fn best_match(scores: &Vec<u32>) -> (r: Option<usize>)
    ensures
        r is None <==> forall|j: int| 0 <= j < scores.len() ==> !similar(scores[j]),
        r matches Some(i) ==> is_best_match(scores@, i as int),
        r matches Some(i) ==> best_match_of(scores@) == Some(i as int),
        r is None ==> best_match_of(scores@) is None,
{
    let mut best: Option<usize> = None;
    let mut i: usize = 0;
    while i < scores.len()
        invariant
            i <= scores.len(),
            best is None <==> forall|j: int| 0 <= j < i ==> !similar(scores[j]),
            best matches Some(b) ==> b < i && similar(scores[b as int])
                && (forall|j: int| 0 <= j < i ==> scores[b as int] <= scores[j])
                && (forall|j: int| 0 <= j < b ==> scores[b as int] < scores[j]),
        decreases scores.len() - i,
    {
        let s = scores[i];
        if s <= MATCH_THRESHOLD {
            match best {
                None => {
                    best = Some(i);
                },
                Some(b) => {
                    if s < scores[b] {
                        best = Some(i);
                    }
                },
            }
        }
        i = i + 1;
    }
    proof {
        if let Some(b) = best {
            assert(is_best_match(scores@, b as int));
            let k = choose|k: int| is_best_match(scores@, k);
            lemma_best_match_unique(scores@, b as int, k);
        } else {
            assert forall|k: int| !is_best_match(scores@, k) by {
                if 0 <= k < scores.len() {
                    assert(!similar(scores[k]));
                }
            }
        }
    }
    best
}

/// The reference slates, identified by their URLs, in the order their
/// dissimilarity scores are given.
pub struct SlateDetector {
    urls: Vec<String>,
}

impl View for SlateDetector {
    type V = Seq<Seq<char>>;

    closed spec fn view(&self) -> Seq<Seq<char>> {
        self.urls@.map_values(|u: String| u@)
    }
}

impl SlateDetector {
    /// A detector over the slates `urls`, in order.
    pub fn new(urls: Vec<String>) -> (r: SlateDetector)
        ensures
            r@ == urls@.map_values(|u: String| u@),
    {
        SlateDetector { urls }
    }

    /// Number of reference slates.
    pub fn len(&self) -> (r: usize)
        ensures
            r == self@.len(),
    {
        self.urls.len()
    }

    /// Whether a frame with dissimilarity `scores` (one per reference, in
    /// order) matches some reference.
    pub fn is_match(&self, scores: &Vec<u32>) -> (r: bool)
        requires
            scores.len() == self@.len(),
        ensures
            r == exists|i: int| 0 <= i < scores.len() && similar(#[trigger] scores[i]),
    {
        best_match(scores).is_some()
    }

    /// URL of the slate that a frame with dissimilarity `scores` (one per
    /// reference, in order) matches best, if any.
    pub fn matched_slate(&self, scores: &Vec<u32>) -> (r: Option<String>)
        requires
            scores.len() == self@.len(),
        ensures
            match best_match_of(scores@) {
                Some(i) => r is Some && r.unwrap()@ == self@[i],
                None => r is None,
            },
    {
        match best_match(scores) {
            Some(i) => Some(copy_string(&self.urls[i])),
            None => None,
        }
    }
}

/// URL of a slate mode.
pub open spec fn slate_url_of(m: ModeView) -> Option<Seq<char>> {
    match m {
        ModeView::Slate(u) => Some(u),
        ModeView::Content => None,
    }
}

/// Some transition of `ts` has a slate with URL `u` as its `from` or `to` mode.
pub open spec fn references_slate(ts: Seq<Transition>, u: Seq<char>) -> bool {
    exists|i: int|
        0 <= i < ts.len() && (#[trigger] ts[i].from@ == ModeView::Slate(u) || ts[i].to@
            == ModeView::Slate(u))
}

/// Appends the URL of `m` to `urls` unless it is content or already there.
fn add_slate_url(urls: &mut Vec<String>, m: &VideoMode)
    requires
        forall|a: int, b: int| 0 <= a < b < old(urls).len() ==> old(urls)[a]@ != old(urls)[b]@,
    ensures
        forall|a: int, b: int| 0 <= a < b < final(urls).len() ==> final(urls)[a]@ != final(urls)[b]@,
        forall|u: Seq<char>|
            #[trigger] listed(final(urls)@, u) <==> (listed(old(urls)@, u) || slate_url_of(m@) == Some(u)),
{
    if let VideoMode::Slate { url } = m {
        let mut i: usize = 0;
        while i < urls.len()
            invariant
                i <= urls.len(),
                urls@ == old(urls)@,
                m@ == ModeView::Slate(url@),
                forall|a: int, b: int| 0 <= a < b < urls.len() ==> urls[a]@ != urls[b]@,
                forall|k: int| 0 <= k < i ==> urls[k]@ != url@,
            decreases urls.len() - i,
        {
            if str_eq(urls[i].as_str(), url.as_str()) {
                assert(listed(urls@, url@));
                assert forall|u: Seq<char>| #[trigger] listed(urls@, u) <==> (listed(old(urls)@, u)
                    || slate_url_of(m@) == Some(u)) by {}
                return;
            }
            i = i + 1;
        }
        let ghost before = urls@;
        urls.push(copy_string(url));
        assert forall|u: Seq<char>| #[trigger] listed(urls@, u) implies (listed(before, u) || slate_url_of(m@) == Some(u)) by {
            let k = choose|k: int| 0 <= k < urls.len() && urls[k]@ == u;
            if k < before.len() {
                assert(before[k]@ == u);
            }
        }
        assert forall|u: Seq<char>| #[trigger] listed(before, u) implies listed(urls@, u) by {
            let k = choose|k: int| 0 <= k < before.len() && before[k]@ == u;
            assert(urls[k]@ == u);
        }
        assert(urls[before.len() as int]@ == url@);
    }
}

/// The distinct URLs of the slates that `transitions` refer to, in order of
/// first reference: these are the reference images a detector compares with.
pub fn slate_urls(transitions: &Vec<Transition>) -> (r: Vec<String>)
    ensures
        forall|a: int, b: int| 0 <= a < b < r.len() ==> r[a]@ != r[b]@,
        forall|u: Seq<char>| #[trigger] listed(r@, u) <==> references_slate(transitions@, u),
{
    let mut urls: Vec<String> = Vec::new();
    let mut i: usize = 0;
    while i < transitions.len()
        invariant
            i <= transitions.len(),
            forall|a: int, b: int| 0 <= a < b < urls.len() ==> urls[a]@ != urls[b]@,
            forall|u: Seq<char>|
                #[trigger] listed(urls@, u) <==> references_slate(transitions@.subrange(0, i as int), u),
        decreases transitions.len() - i,
    {
        add_slate_url(&mut urls, &transitions[i].from);
        add_slate_url(&mut urls, &transitions[i].to);
        proof {
            let pre = transitions@.subrange(0, i as int);
            let post = transitions@.subrange(0, i + 1);
            assert forall|u: Seq<char>| #[trigger] references_slate(post, u) == (references_slate(pre, u) || slate_url_of(
                transitions[i as int].from@,
            ) == Some(u) || slate_url_of(transitions[i as int].to@) == Some(u)) by {
                if references_slate(post, u) {
                    let j = choose|j: int|
                        0 <= j < post.len() && (#[trigger] post[j].from@ == ModeView::Slate(u)
                            || post[j].to@ == ModeView::Slate(u));
                    if j < i {
                        assert(pre[j] == post[j]);
                    }
                }
                if references_slate(pre, u) {
                    let j = choose|j: int|
                        0 <= j < pre.len() && (#[trigger] pre[j].from@ == ModeView::Slate(u)
                            || pre[j].to@ == ModeView::Slate(u));
                    assert(post[j] == pre[j]);
                }
                if slate_url_of(transitions[i as int].from@) == Some(u) || slate_url_of(transitions[i as int].to@) == Some(u) {
                    assert(post[i as int] == transitions[i as int]);
                }
            }
        }
        i = i + 1;
    }
    assert(transitions@.subrange(0, transitions.len() as int) == transitions@);
    urls
}

/// Ingest pipelines the frame source can build.
#[derive(Clone, Copy, Debug, PartialEq, Eq, Structural)]
pub enum IngestFormat {
    /// H.264 in MPEG-TS, RTP payload type 33.
    MpegTsH264,
    /// Raw H.264 over RTP, payload type 96.
    RawH264,
}

/// The ingest pipeline for a container and codec; `None` for combinations
/// that are not supported.
pub fn ingest_format(container: Container, codec: Codec) -> (r: Option<IngestFormat>)
    ensures
        r == match (container, codec) {
            (Container::MpegTs, Codec::H264) => Some(IngestFormat::MpegTsH264),
            (Container::RawVideo, Codec::H264) => Some(IngestFormat::RawH264),
            _ => None,
        },
{
    match (container, codec) {
        (Container::MpegTs, Codec::H264) => Some(IngestFormat::MpegTsH264),
        (Container::RawVideo, Codec::H264) => Some(IngestFormat::RawH264),
        _ => None,
    }
}

} // verus!
