//! Aggregation of listing summaries across pages: first-occurrence
//! deduplication by case-folded link, and the optional inclusion-keyword
//! filter.

use crate::listing::listing_views;
use crate::models::{view_opt, ListingModel, ListingResult, SearchParams, VehicleDetails};
use crate::text::{contains_fold, contains_fold_vec, eq_fold_vec, fold_seq, str_chars};
use vstd::prelude::*;
use vstd::string::StrSliceExecFns;

verus! {

// --- collecting detail-fetch results ---

/// The result of one detail task, as the collector sees it: a fetched
/// record, a normal fetch failure, or a crashed task. The two failure
/// kinds are distinct but count the same.
#[derive(Debug)]
pub enum DetailTaskResult {
    Fetched(VehicleDetails),
    Failed,
    Crashed,
}

/// Collects detail-fetch results as they complete, in any order: whatever
/// succeeded is kept, every failure is counted, and the batch is done
/// when every task has been recorded.
#[derive(Debug)]
pub struct DetailAggregator {
    pub successes: Vec<VehicleDetails>,
    pub failed: u64,
    pub processed: u64,
    pub total: u64,
}

impl DetailAggregator {
    /// Every task recorded so far is either a kept success or a counted
    /// failure.
    pub open spec fn wf(&self) -> bool {
        &&& self.processed == self.successes@.len() + self.failed
        &&& self.processed <= self.total
    }

    pub fn new(total: u64) -> (r: Self)
        ensures
            r.wf(),
            r.total == total,
            r.processed == 0,
            r.failed == 0,
            r.successes@.len() == 0,
    {
        DetailAggregator { successes: Vec::new(), failed: 0, processed: 0, total }
    }

    /// Records one completed task: a fetched record is kept, either kind
    /// of failure increments the failure count.
    pub fn record(&mut self, outcome: DetailTaskResult)
        requires
            old(self).wf(),
            old(self).processed < old(self).total,
        ensures
            final(self).wf(),
            final(self).total == old(self).total,
            final(self).processed == old(self).processed + 1,
            match outcome {
                DetailTaskResult::Fetched(d) => final(self).successes@ == old(
                    self,
                ).successes@.push(d) && final(self).failed == old(self).failed,
                _ => final(self).failed == old(self).failed + 1 && final(self).successes@ == old(
                    self,
                ).successes@,
            },
    {
        match outcome {
            DetailTaskResult::Fetched(d) => {
                self.successes.push(d);
            },
            _ => {
                self.failed = self.failed + 1;
            },
        }
        self.processed = self.processed + 1;
    }

    /// Progress is reported every twenty completions and at the end of
    /// the batch.
    pub fn should_report(&self) -> (r: bool)
        ensures
            r == (self.processed % 20 == 0 || self.processed == self.total),
    {
        self.processed % 20 == 0 || self.processed == self.total
    }

    /// The batch is complete once every task has been recorded.
    pub fn done(&self) -> (r: bool)
        ensures
            r == (self.processed == self.total),
    {
        self.processed == self.total
    }
}

/// The case-folded link of a row, the identity a listing is known by
/// within one scrape.
pub open spec fn folded_link(l: ListingModel) -> Seq<u32> {
    fold_seq(l.link)
}

/// Some row before position `k` has the case-folded link `fl`.
pub open spec fn link_in(s: Seq<ListingModel>, k: int, fl: Seq<u32>) -> bool {
    exists|j: int| 0 <= j < k && folded_link(s[j]) == fl
}

/// First-occurrence deduplication by case-folded link: a row stays exactly
/// when no earlier row has the same folded link.
pub open spec fn spec_dedup(s: Seq<ListingModel>) -> Seq<ListingModel>
    decreases s.len(),
{
    if s.len() == 0 {
        Seq::empty()
    } else if link_in(s, s.len() - 1, folded_link(s.last())) {
        spec_dedup(s.drop_last())
    } else {
        spec_dedup(s.drop_last()).push(s.last())
    }
}

/// A row matches the inclusion keyword when its title or its location
/// contains it, case-insensitively.
pub open spec fn matches_inclusion(l: ListingModel, kw: Seq<char>) -> bool {
    ||| (l.title matches Some(t) && contains_fold(t, kw))
    ||| (l.location matches Some(loc) && contains_fold(loc, kw))
}

/// The rows that match the inclusion keyword, in order.
pub open spec fn spec_filter_inclusion(s: Seq<ListingModel>, kw: Seq<char>) -> Seq<ListingModel>
    decreases s.len(),
{
    if s.len() == 0 {
        Seq::empty()
    } else {
        let front = spec_filter_inclusion(s.drop_last(), kw);
        if matches_inclusion(s.last(), kw) {
            front.push(s.last())
        } else {
            front
        }
    }
}

/// What the aggregator does to the merged rows: dedup, then, when an
/// inclusion keyword is set and non-empty, the inclusion filter.
pub open spec fn spec_finalize(s: Seq<ListingModel>, inclusion: Option<Seq<char>>) -> Seq<
    ListingModel,
> {
    let d = spec_dedup(s);
    match inclusion {
        Some(kw) => if kw.len() > 0 {
            spec_filter_inclusion(d, kw)
        } else {
            d
        },
        None => d,
    }
}

// --- what deduplication guarantees ---

/// Every entry of the deduplicated sequence is one of the input rows,
/// taken whole from the first position where its case-folded link occurs:
/// first-seen non-link fields are preserved.
pub proof fn lemma_dedup_entries(s: Seq<ListingModel>, k: int)
    requires
        0 <= k < spec_dedup(s).len(),
    ensures
        exists|i: int|
            {
                &&& 0 <= i < s.len()
                &&& spec_dedup(s)[k] == s[i]
                &&& !link_in(s, i, folded_link(s[i]))
            },
    decreases s.len(),
{
    let front = spec_dedup(s.drop_last());
    if link_in(s, s.len() - 1, folded_link(s.last())) {
        lemma_dedup_entries(s.drop_last(), k);
        let i = choose|i: int|
            {
                &&& 0 <= i < s.drop_last().len()
                &&& front[k] == s.drop_last()[i]
                &&& !link_in(s.drop_last(), i, folded_link(s.drop_last()[i]))
            };
        assert(s.drop_last()[i] == s[i]);
        assert forall|j: int| 0 <= j < i implies folded_link(s[j]) != folded_link(s[i]) by {
            assert(s.drop_last()[j] == s[j]);
        }
        assert(spec_dedup(s)[k] == s[i] && !link_in(s, i, folded_link(s[i])));
    } else {
        if k < front.len() {
            lemma_dedup_entries(s.drop_last(), k);
            let i = choose|i: int|
                {
                    &&& 0 <= i < s.drop_last().len()
                    &&& front[k] == s.drop_last()[i]
                    &&& !link_in(s.drop_last(), i, folded_link(s.drop_last()[i]))
                };
            assert(s.drop_last()[i] == s[i]);
            assert forall|j: int| 0 <= j < i implies folded_link(s[j]) != folded_link(s[i]) by {
                assert(s.drop_last()[j] == s[j]);
            }
            assert(spec_dedup(s)[k] == s[i] && !link_in(s, i, folded_link(s[i])));
        } else {
            let i = s.len() - 1;
            assert(spec_dedup(s)[k] == s[i] && !link_in(s, i, folded_link(s[i])));
        }
    }
}

/// No two entries of the deduplicated sequence share a case-folded link:
/// the output has exactly one entry per distinct link.
pub proof fn lemma_dedup_unique(s: Seq<ListingModel>, i: int, j: int)
    requires
        0 <= i < j < spec_dedup(s).len(),
    ensures
        folded_link(spec_dedup(s)[i]) != folded_link(spec_dedup(s)[j]),
    decreases s.len(),
{
    let front = spec_dedup(s.drop_last());
    if link_in(s, s.len() - 1, folded_link(s.last())) {
        lemma_dedup_unique(s.drop_last(), i, j);
    } else {
        if j < front.len() {
            lemma_dedup_unique(s.drop_last(), i, j);
        } else {
            lemma_dedup_entries(s.drop_last(), i);
            let m = choose|m: int|
                {
                    &&& 0 <= m < s.drop_last().len()
                    &&& front[i] == s.drop_last()[m]
                    &&& !link_in(s.drop_last(), m, folded_link(s.drop_last()[m]))
                };
            assert(s.drop_last()[m] == s[m]);
            assert(folded_link(s[m]) != folded_link(s.last()));
        }
    }
}

/// Every input row's case-folded link appears in the deduplicated
/// sequence.
pub proof fn lemma_dedup_complete(s: Seq<ListingModel>, i: int)
    requires
        0 <= i < s.len(),
    ensures
        exists|k: int|
            {
                &&& 0 <= k < spec_dedup(s).len()
                &&& folded_link(spec_dedup(s)[k]) == folded_link(s[i])
            },
    decreases s.len(),
{
    let front = spec_dedup(s.drop_last());
    if i < s.len() - 1 {
        lemma_dedup_complete(s.drop_last(), i);
        let k = choose|k: int|
            {
                &&& 0 <= k < front.len()
                &&& folded_link(front[k]) == folded_link(s.drop_last()[i])
            };
        assert(s.drop_last()[i] == s[i]);
        assert(spec_dedup(s)[k] == front[k]);
    } else {
        if link_in(s, s.len() - 1, folded_link(s.last())) {
            let j = choose|j: int|
                0 <= j < s.len() - 1 && folded_link(s[j]) == folded_link(s.last());
            lemma_dedup_complete(s.drop_last(), j);
            let k = choose|k: int|
                {
                    &&& 0 <= k < front.len()
                    &&& folded_link(front[k]) == folded_link(s.drop_last()[j])
                };
            assert(s.drop_last()[j] == s[j]);
            assert(spec_dedup(s)[k] == front[k]);
        } else {
            assert(spec_dedup(s)[front.len() as int] == s.last());
        }
    }
}

// --- what the inclusion filter guarantees ---

/// Every row the inclusion filter keeps matches the keyword by title or
/// location.
pub proof fn lemma_filter_matches(s: Seq<ListingModel>, kw: Seq<char>, k: int)
    requires
        0 <= k < spec_filter_inclusion(s, kw).len(),
    ensures
        exists|i: int|
            {
                &&& 0 <= i < s.len()
                &&& spec_filter_inclusion(s, kw)[k] == s[i]
                &&& matches_inclusion(s[i], kw)
            },
    decreases s.len(),
{
    let front = spec_filter_inclusion(s.drop_last(), kw);
    if matches_inclusion(s.last(), kw) && k == front.len() {
        assert(spec_filter_inclusion(s, kw)[k] == s[s.len() - 1]);
    } else {
        lemma_filter_matches(s.drop_last(), kw, k);
        let i = choose|i: int|
            {
                &&& 0 <= i < s.drop_last().len()
                &&& front[k] == s.drop_last()[i]
                &&& matches_inclusion(s.drop_last()[i], kw)
            };
        assert(s.drop_last()[i] == s[i]);
    }
}

/// Every input row that matches the keyword survives the inclusion
/// filter; one that matches by neither title nor location is removed.
pub proof fn lemma_filter_retains(s: Seq<ListingModel>, kw: Seq<char>, i: int)
    requires
        0 <= i < s.len(),
        matches_inclusion(s[i], kw),
    ensures
        exists|k: int|
            {
                &&& 0 <= k < spec_filter_inclusion(s, kw).len()
                &&& spec_filter_inclusion(s, kw)[k] == s[i]
            },
    decreases s.len(),
{
    let front = spec_filter_inclusion(s.drop_last(), kw);
    if i == s.len() - 1 {
        assert(spec_filter_inclusion(s, kw)[front.len() as int] == s[i]);
    } else {
        assert(s.drop_last()[i] == s[i]);
        lemma_filter_retains(s.drop_last(), kw, i);
        let k = choose|k: int|
            {
                &&& 0 <= k < front.len()
                &&& front[k] == s.drop_last()[i]
            };
        assert(spec_filter_inclusion(s, kw)[k] == front[k]);
    }
}

/// The inclusion filter preserves pairwise-distinct case-folded links.
pub proof fn lemma_filter_preserves_distinct(s: Seq<ListingModel>, kw: Seq<char>)
    requires
        forall|i: int, j: int|
            0 <= i < j < s.len() ==> folded_link(s[i]) != folded_link(s[j]),
    ensures
        forall|i: int, j: int|
            0 <= i < j < spec_filter_inclusion(s, kw).len() ==> folded_link(
                spec_filter_inclusion(s, kw)[i],
            ) != folded_link(spec_filter_inclusion(s, kw)[j]),
    decreases s.len(),
{
    if s.len() > 0 {
        let front = spec_filter_inclusion(s.drop_last(), kw);
        assert(forall|i: int, j: int|
            0 <= i < j < s.drop_last().len() ==> folded_link(s.drop_last()[i]) != folded_link(
                s.drop_last()[j],
            ));
        lemma_filter_preserves_distinct(s.drop_last(), kw);
        if matches_inclusion(s.last(), kw) {
            let out = spec_filter_inclusion(s, kw);
            assert forall|i: int, j: int|
                0 <= i < j < out.len() implies folded_link(out[i]) != folded_link(out[j]) by {
                if j < front.len() {
                    assert(out[i] == front[i] && out[j] == front[j]);
                } else {
                    assert(out[j] == s.last());
                    lemma_filter_matches(s.drop_last(), kw, i);
                    let m = choose|m: int|
                        {
                            &&& 0 <= m < s.drop_last().len()
                            &&& front[i] == s.drop_last()[m]
                            &&& matches_inclusion(s.drop_last()[m], kw)
                        };
                    assert(s.drop_last()[m] == s[m]);
                    assert(folded_link(s[m]) != folded_link(s[s.len() - 1]));
                }
            }
        }
    }
}

/// The aggregator's final output carries exactly one row per distinct
/// case-folded link, whatever inclusion keyword the query sets.
pub proof fn lemma_finalize_unique(
    s: Seq<ListingModel>,
    inclusion: Option<Seq<char>>,
    i: int,
    j: int,
)
    requires
        0 <= i < j < spec_finalize(s, inclusion).len(),
    ensures
        folded_link(spec_finalize(s, inclusion)[i]) != folded_link(spec_finalize(s, inclusion)[j]),
{
    let d = spec_dedup(s);
    assert forall|a: int, b: int|
        0 <= a < b < d.len() implies folded_link(d[a]) != folded_link(d[b]) by {
        lemma_dedup_unique(s, a, b);
    }
    match inclusion {
        Some(kw) => {
            if kw.len() > 0 {
                lemma_filter_preserves_distinct(d, kw);
            } else {
                lemma_dedup_unique(s, i, j);
            }
        },
        None => {
            lemma_dedup_unique(s, i, j);
        },
    }
}

// --- the aggregation, as code ---

fn link_seen(items: &Vec<ListingResult>, upto: usize, link: &String) -> (r: bool)
    requires
        upto <= items@.len(),
    ensures
        r == link_in(listing_views(items@), upto as int, fold_seq(link@)),
{
    let lc = str_chars(link.as_str());
    let mut j: usize = 0;
    while j < upto
        invariant
            upto <= items@.len(),
            j <= upto,
            lc@ == link@,
            forall|k: int|
                0 <= k < j ==> folded_link(listing_views(items@)[k]) != fold_seq(link@),
        decreases upto - j,
    {
        let jc = str_chars(items[j].link.as_str());
        if eq_fold_vec(&jc, &lc) {
            proof {
                assert(folded_link(listing_views(items@)[j as int]) == fold_seq(link@));
            }
            return true;
        }
        proof {
            assert(folded_link(listing_views(items@)[j as int]) != fold_seq(link@));
        }
        j += 1;
    }
    false
}

/// Deduplicates by case-insensitive link, keeping the first occurrence,
/// exactly as `spec_dedup` describes.
pub fn dedup_by_link(items: Vec<ListingResult>) -> (r: Vec<ListingResult>)
    ensures
        listing_views(r@) == spec_dedup(listing_views(items@)),
{
    let mut out: Vec<ListingResult> = Vec::new();
    let n = items.len();
    let mut i: usize = 0;
    proof {
        assert(listing_views(items@).take(0) =~= Seq::<ListingModel>::empty());
        assert(listing_views(out@) =~= spec_dedup(listing_views(items@).take(0)));
    }
    while i < n
        invariant
            n == items@.len(),
            i <= n,
            listing_views(out@) == spec_dedup(listing_views(items@).take(i as int)),
        decreases n - i,
    {
        let ghost s = listing_views(items@);
        let seen = link_seen(&items, i, &items[i].link);
        proof {
            assert(s.take(i + 1).drop_last() =~= s.take(i as int));
            assert(s.take(i + 1).last() == s[i as int]);
            assert(forall|j: int| 0 <= j < i ==> s.take(i + 1)[j] == s[j]);
            assert(link_in(s.take(i + 1), i as int, folded_link(s[i as int])) == link_in(
                s,
                i as int,
                folded_link(s[i as int]),
            ));
        }
        if !seen {
            let item = items[i].clone();
            proof {
                assert(item@ == s[i as int]);
            }
            out.push(item);
            proof {
                assert(listing_views(out@) =~= spec_dedup(s.take(i as int)).push(s[i as int]));
            }
        }
        i += 1;
    }
    proof {
        assert(listing_views(items@).take(n as int) =~= listing_views(items@));
    }
    out
}

fn matches_inclusion_exec(item: &ListingResult, kw: &Vec<char>) -> (r: bool)
    ensures
        r == matches_inclusion(item@, kw@),
{
    let title_hit = match &item.title {
        Some(t) => {
            let tc = str_chars(t.as_str());
            contains_fold_vec(&tc, kw)
        },
        None => false,
    };
    if title_hit {
        return true;
    }
    match &item.location {
        Some(loc) => {
            let lc = str_chars(loc.as_str());
            contains_fold_vec(&lc, kw)
        },
        None => false,
    }
}

/// Retains the rows that match the inclusion keyword, exactly as
/// `spec_filter_inclusion` describes.
pub fn filter_inclusion(items: Vec<ListingResult>, keyword: &String) -> (r: Vec<ListingResult>)
    ensures
        listing_views(r@) == spec_filter_inclusion(listing_views(items@), keyword@),
{
    let kw = str_chars(keyword.as_str());
    let mut out: Vec<ListingResult> = Vec::new();
    let n = items.len();
    let mut i: usize = 0;
    proof {
        assert(listing_views(items@).take(0) =~= Seq::<ListingModel>::empty());
        assert(listing_views(out@) =~= spec_filter_inclusion(
            listing_views(items@).take(0),
            keyword@,
        ));
    }
    while i < n
        invariant
            n == items@.len(),
            kw@ == keyword@,
            i <= n,
            listing_views(out@) == spec_filter_inclusion(
                listing_views(items@).take(i as int),
                keyword@,
            ),
        decreases n - i,
    {
        let ghost s = listing_views(items@);
        proof {
            assert(s.take(i + 1).drop_last() =~= s.take(i as int));
            assert(s.take(i + 1).last() == s[i as int]);
        }
        if matches_inclusion_exec(&items[i], &kw) {
            let item = items[i].clone();
            proof {
                assert(item@ == s[i as int]);
            }
            out.push(item);
            proof {
                assert(listing_views(out@) =~= spec_filter_inclusion(s.take(i as int), keyword@)
                    .push(s[i as int]));
            }
        }
        i += 1;
    }
    proof {
        assert(listing_views(items@).take(n as int) =~= listing_views(items@));
    }
    out
}

/// The aggregator's final pass over the merged rows: dedup by
/// case-insensitive link, then the inclusion filter when the query sets a
/// non-empty inclusion keyword, exactly as `spec_finalize` describes.
pub fn finalize_listings(items: Vec<ListingResult>, params: &SearchParams) -> (r: Vec<
    ListingResult,
>)
    ensures
        listing_views(r@) == spec_finalize(listing_views(items@), view_opt(params.inclusion)),
{
    let deduped = dedup_by_link(items);
    match &params.inclusion {
        Some(kw) => {
            if kw.as_str().is_empty() {
                deduped
            } else {
                filter_inclusion(deduped, kw)
            }
        },
        None => deduped,
    }
}

} // verus!
