use vstd::prelude::*;
use crate::format::{CamFormat, Encoding};

verus! {

/// The frame rates that a device offers at one resolution.
#[derive(Debug, PartialEq, Eq)]
pub struct ResolutionRates {
    pub width: u32,
    pub height: u32,
    pub rates: Vec<u32>,
}

/// The greatest of a sequence of frame rates, 0 for none.
pub open spec fn max_rate(rates: Seq<u32>) -> u32
    decreases rates.len(),
{
    if rates.len() == 0 {
        0
    } else {
        let earlier = max_rate(rates.drop_last());
        if rates.last() > earlier {
            rates.last()
        } else {
            earlier
        }
    }
}

/// The candidate that one resolution gives: its greatest frame rate. A
/// resolution without frame rates gives none.
pub open spec fn candidate_of(entry: ResolutionRates, encoding: Encoding) -> Option<CamFormat> {
    if entry.rates@.len() == 0 {
        None
    } else {
        Some(
            CamFormat {
                width: entry.width,
                height: entry.height,
                frame_rate: max_rate(entry.rates@),
                format: encoding,
            },
        )
    }
}

/// The candidates of a capability list, in its order.
pub open spec fn candidates_of(entries: Seq<ResolutionRates>, encoding: Encoding) -> Seq<
    CamFormat,
>
    decreases entries.len(),
{
    if entries.len() == 0 {
        Seq::empty()
    } else {
        let earlier = candidates_of(entries.drop_last(), encoding);
        match candidate_of(entries.last(), encoding) {
            Some(candidate) => earlier.push(candidate),
            None => earlier,
        }
    }
}

/// Which of two candidates is kept, `a` being the one seen earlier.
///
/// Where both reach the suggested frame rate the wider one is kept,
/// otherwise the faster one. A tie keeps `a`.
pub open spec fn prefer(a: CamFormat, b: CamFormat, suggested_fps: u32) -> CamFormat {
    if a.frame_rate >= suggested_fps && b.frame_rate >= suggested_fps {
        if b.width > a.width {
            b
        } else {
            a
        }
    } else {
        if b.frame_rate > a.frame_rate {
            b
        } else {
            a
        }
    }
}

/// The candidate that is left when a sequence of them is reduced from left
/// to right by `prefer`.
pub open spec fn reduce(candidates: Seq<CamFormat>, suggested_fps: u32) -> CamFormat
    recommends
        candidates.len() > 0,
    decreases candidates.len(),
{
    if candidates.len() <= 1 {
        candidates[0]
    } else {
        prefer(reduce(candidates.drop_last(), suggested_fps), candidates.last(), suggested_fps)
    }
}

/// The mode that is picked from a sequence of candidates: the one that the
/// reduction leaves, or `fallback` where there is no candidate.
pub open spec fn picked(candidates: Seq<CamFormat>, suggested_fps: u32, fallback: CamFormat) -> CamFormat {
    if candidates.len() == 0 {
        fallback
    } else {
        reduce(candidates, suggested_fps)
    }
}

/// The greatest frame rate of a resolution, 0 where it has none.
pub fn greatest_rate(rates: &Vec<u32>) -> (best: u32)
    ensures
        best == max_rate(rates@),
{
    let mut best: u32 = 0;
    let mut i: usize = 0;
    while i < rates.len()
        invariant
            i <= rates.len(),
            best == max_rate(rates@.take(i as int)),
        decreases rates.len() - i,
    {
        assert(rates@.take(i + 1).drop_last() =~= rates@.take(i as int));
        if rates[i] > best {
            best = rates[i];
        }
        i = i + 1;
    }
    assert(rates@.take(i as int) =~= rates@);
    best
}

/// One candidate for each resolution that has a frame rate, in the order of
/// the list: the resolution at its greatest frame rate.
pub fn candidates(entries: &Vec<ResolutionRates>, encoding: Encoding) -> (found: Vec<CamFormat>)
    ensures
        found@ == candidates_of(entries@, encoding),
{
    let mut found: Vec<CamFormat> = Vec::new();
    let mut i: usize = 0;
    while i < entries.len()
        invariant
            i <= entries.len(),
            found@ == candidates_of(entries@.take(i as int), encoding),
        decreases entries.len() - i,
    {
        assert(entries@.take(i + 1).drop_last() =~= entries@.take(i as int));
        let entry = &entries[i];
        if entry.rates.len() > 0 {
            found.push(
                CamFormat {
                    width: entry.width,
                    height: entry.height,
                    frame_rate: greatest_rate(&entry.rates),
                    format: encoding,
                },
            );
        }
        i = i + 1;
    }
    assert(entries@.take(i as int) =~= entries@);
    found
}

/// Keeps one of two candidates, `a` being the one seen earlier.
pub fn prefer_format(a: CamFormat, b: CamFormat, suggested_fps: u32) -> (kept: CamFormat)
    ensures
        kept == prefer(a, b, suggested_fps),
{
    if a.frame_rate >= suggested_fps && b.frame_rate >= suggested_fps {
        if b.width > a.width {
            b
        } else {
            a
        }
    } else {
        if b.frame_rate > a.frame_rate {
            b
        } else {
            a
        }
    }
}

/// Picks a capture mode from candidates and a suggested frame rate.
///
/// The candidates are reduced pairwise from left to right, and a candidate
/// that loses a comparison is never looked at again: this is a greedy
/// heuristic, not a search for the best mode. Without candidates the answer
/// is `fallback`, the device's active mode.
pub fn pick_format(candidates: &Vec<CamFormat>, suggested_fps: u32, fallback: CamFormat) -> (chosen:
    CamFormat)
    ensures
        chosen == picked(candidates@, suggested_fps, fallback),
{
    if candidates.len() == 0 {
        return fallback;
    }
    let mut chosen = candidates[0];
    let mut i: usize = 1;
    assert(candidates@.take(1).len() == 1);
    while i < candidates.len()
        invariant
            1 <= i <= candidates.len(),
            chosen == reduce(candidates@.take(i as int), suggested_fps),
        decreases candidates.len() - i,
    {
        assert(candidates@.take(i + 1).drop_last() =~= candidates@.take(i as int));
        chosen = prefer_format(chosen, candidates[i], suggested_fps);
        i = i + 1;
    }
    assert(candidates@.take(i as int) =~= candidates@);
    chosen
}

/// Picks a capture mode of the given encoding from a device's capability
/// list: `pick_format` on the `candidates` of the list.
pub fn select_format(
    entries: &Vec<ResolutionRates>,
    encoding: Encoding,
    suggested_fps: u32,
    active: CamFormat,
) -> (chosen: CamFormat)
    ensures
        chosen == picked(candidates_of(entries@, encoding), suggested_fps, active),
{
    let found = candidates(entries, encoding);
    pick_format(&found, suggested_fps, active)
}

/// The greatest frame rate of a resolution is one of its frame rates and
/// none of them is greater.
pub proof fn lemma_max_rate_is_greatest(rates: Seq<u32>)
    requires
        rates.len() > 0,
    ensures
        exists|i: int| 0 <= i < rates.len() && rates[i] == max_rate(rates),
        forall|i: int| 0 <= i < rates.len() ==> rates[i] <= max_rate(rates),
    decreases rates.len(),
{
    if rates.len() == 1 {
        assert(max_rate(rates.drop_last()) == 0);
        assert(rates[0] == max_rate(rates));
    } else {
        let earlier = rates.drop_last();
        lemma_max_rate_is_greatest(earlier);
        let w = choose|i: int| 0 <= i < earlier.len() && earlier[i] == max_rate(earlier);
        if rates.last() > max_rate(earlier) {
            assert(rates[rates.len() - 1] == max_rate(rates));
        } else {
            assert(rates[w] == max_rate(rates));
        }
        assert forall|i: int| 0 <= i < rates.len() implies rates[i] <= max_rate(rates) by {
            if i < earlier.len() {
                assert(earlier[i] == rates[i]);
            }
        }
    }
}

/// The mode that is picked is one of the candidates.
pub proof fn lemma_picked_is_a_candidate(candidates: Seq<CamFormat>, suggested_fps: u32)
    requires
        candidates.len() > 0,
    ensures
        exists|i: int| 0 <= i < candidates.len() && candidates[i] == reduce(candidates, suggested_fps),
    decreases candidates.len(),
{
    if candidates.len() == 1 {
        assert(candidates[0] == reduce(candidates, suggested_fps));
    } else {
        let earlier = candidates.drop_last();
        lemma_picked_is_a_candidate(earlier, suggested_fps);
        let w = choose|i: int|
            0 <= i < earlier.len() && earlier[i] == reduce(earlier, suggested_fps);
        if reduce(candidates, suggested_fps) == candidates.last() {
            assert(candidates[candidates.len() - 1] == reduce(candidates, suggested_fps));
        } else {
            assert(candidates[w] == reduce(candidates, suggested_fps));
        }
    }
}

/// Where every candidate reaches the suggested frame rate, the mode that is
/// picked is the widest, and of several widest ones the first.
pub proof fn lemma_all_fast_enough_picks_widest(candidates: Seq<CamFormat>, suggested_fps: u32)
    requires
        candidates.len() > 0,
        forall|i: int| 0 <= i < candidates.len() ==> candidates[i].frame_rate >= suggested_fps,
    ensures
        forall|i: int|
            0 <= i < candidates.len() ==> candidates[i].width <= reduce(
                candidates,
                suggested_fps,
            ).width,
        exists|k: int|
            0 <= k < candidates.len() && candidates[k] == reduce(candidates, suggested_fps)
                && forall|j: int| 0 <= j < k ==> candidates[j].width < candidates[k].width,
    decreases candidates.len(),
{
    let chosen = reduce(candidates, suggested_fps);
    if candidates.len() == 1 {
        assert(candidates[0] == chosen);
    } else {
        let earlier = candidates.drop_last();
        let last = candidates.len() - 1;
        assert forall|i: int| 0 <= i < earlier.len() implies earlier[i].frame_rate
            >= suggested_fps by {
            assert(earlier[i] == candidates[i]);
        }
        lemma_all_fast_enough_picks_widest(earlier, suggested_fps);
        let before = reduce(earlier, suggested_fps);
        let w = choose|k: int|
            0 <= k < earlier.len() && earlier[k] == before && forall|j: int|
                0 <= j < k ==> earlier[j].width < earlier[k].width;
        assert(before.frame_rate >= suggested_fps) by {
            assert(earlier[w] == candidates[w]);
        }
        assert forall|i: int| 0 <= i < candidates.len() implies candidates[i].width
            <= chosen.width by {
            if i < earlier.len() {
                assert(earlier[i] == candidates[i]);
            }
        }
        if candidates[last].width > before.width {
            assert(chosen == candidates[last]);
            assert forall|j: int| 0 <= j < last implies candidates[j].width
                < candidates[last].width by {
                assert(earlier[j] == candidates[j]);
            }
        } else {
            assert(chosen == candidates[w]);
            assert forall|j: int| 0 <= j < w implies candidates[j].width
                < candidates[w].width by {
                assert(earlier[j] == candidates[j]);
                assert(earlier[w] == candidates[w]);
            }
        }
    }
}

/// Where no candidate reaches the suggested frame rate, the mode that is
/// picked is the fastest, and of several fastest ones the first.
pub proof fn lemma_none_fast_enough_picks_fastest(candidates: Seq<CamFormat>, suggested_fps: u32)
    requires
        candidates.len() > 0,
        forall|i: int| 0 <= i < candidates.len() ==> candidates[i].frame_rate < suggested_fps,
    ensures
        forall|i: int|
            0 <= i < candidates.len() ==> candidates[i].frame_rate <= reduce(
                candidates,
                suggested_fps,
            ).frame_rate,
        exists|k: int|
            0 <= k < candidates.len() && candidates[k] == reduce(candidates, suggested_fps)
                && forall|j: int| 0 <= j < k ==> candidates[j].frame_rate < candidates[k].frame_rate,
    decreases candidates.len(),
{
    let chosen = reduce(candidates, suggested_fps);
    if candidates.len() == 1 {
        assert(candidates[0] == chosen);
    } else {
        let earlier = candidates.drop_last();
        let last = candidates.len() - 1;
        assert forall|i: int| 0 <= i < earlier.len() implies earlier[i].frame_rate
            < suggested_fps by {
            assert(earlier[i] == candidates[i]);
        }
        lemma_none_fast_enough_picks_fastest(earlier, suggested_fps);
        let before = reduce(earlier, suggested_fps);
        let w = choose|k: int|
            0 <= k < earlier.len() && earlier[k] == before && forall|j: int|
                0 <= j < k ==> earlier[j].frame_rate < earlier[k].frame_rate;
        assert(before.frame_rate < suggested_fps) by {
            assert(earlier[w] == candidates[w]);
        }
        assert forall|i: int| 0 <= i < candidates.len() implies candidates[i].frame_rate
            <= chosen.frame_rate by {
            if i < earlier.len() {
                assert(earlier[i] == candidates[i]);
            }
        }
        if candidates[last].frame_rate > before.frame_rate {
            assert(chosen == candidates[last]);
            assert forall|j: int| 0 <= j < last implies candidates[j].frame_rate
                < candidates[last].frame_rate by {
                assert(earlier[j] == candidates[j]);
            }
        } else {
            assert(chosen == candidates[w]);
            assert forall|j: int| 0 <= j < w implies candidates[j].frame_rate
                < candidates[w].frame_rate by {
                assert(earlier[j] == candidates[j]);
                assert(earlier[w] == candidates[w]);
            }
        }
    }
}

/// The resolutions of a capability list that offer a frame rate, in the
/// order of the list.
pub open spec fn offering(entries: Seq<ResolutionRates>) -> Seq<ResolutionRates>
    decreases entries.len(),
{
    if entries.len() == 0 {
        Seq::empty()
    } else {
        let earlier = offering(entries.drop_last());
        if entries.last().rates@.len() > 0 {
            earlier.push(entries.last())
        } else {
            earlier
        }
    }
}

/// There is one candidate for each resolution that offers a frame rate, in
/// the order of the list, and none for a resolution that offers none. Where
/// every resolution offers one, that is one candidate for each resolution.
pub proof fn lemma_one_candidate_per_resolution(entries: Seq<ResolutionRates>, encoding: Encoding)
    ensures
        candidates_of(entries, encoding).len() == offering(entries).len(),
        forall|k: int|
            0 <= k < offering(entries).len() ==> candidate_of(
                #[trigger] offering(entries)[k],
                encoding,
            ) == Some(candidates_of(entries, encoding)[k]),
        (forall|i: int| 0 <= i < entries.len() ==> (#[trigger] entries[i]).rates@.len() > 0)
            ==> offering(entries) == entries,
    decreases entries.len(),
{
    if entries.len() > 0 {
        let earlier = entries.drop_last();
        lemma_one_candidate_per_resolution(earlier, encoding);
        if forall|i: int| 0 <= i < entries.len() ==> (#[trigger] entries[i]).rates@.len() > 0 {
            assert forall|i: int| 0 <= i < earlier.len() implies (#[trigger] earlier[i]).rates@.len()
                > 0 by {
                assert(earlier[i] == entries[i]);
            }
            assert(entries[entries.len() - 1].rates@.len() > 0);
            assert(offering(entries) =~= entries);
        }
    } else {
        assert(offering(entries) =~= entries);
    }
}

} // verus!
