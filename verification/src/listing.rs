//! Extraction of listing summaries from a search-results markup fragment.
//!
//! The site's fragment is a flat sequence of result blocks. A block begins
//! at each occurrence of the `result-item` class marker and runs to the
//! next occurrence (or the end of the fragment). Inside a block, a field
//! is the text between the first `>` after its class marker and the next
//! `<`, trimmed; the link is the `href` value following the `inner-link`
//! marker, quoted with either quote character. Blocks whose title matches
//! an exclusion term
//! (case-insensitively) are skipped, and blocks without a link are
//! dropped. Relative links are made absolute with the site's fixed origin.

use crate::models::{view_opt, ListingModel, ListingResult};
use crate::text::{
    char_vec, contains_fold, contains_fold_vec, extract_string, find_from, first_match_from,
    lemma_first_match_from, str_chars, trim_bounds, trimmed,
};
use vstd::prelude::*;
use vstd::string::StrSliceExecFns;
use vstd::string::StringExecFns;

verus! {

// --- the fixed markers of the fragment shape ---

pub open spec fn item_marker() -> Seq<char> {
    "result-item"@
}

pub open spec fn link_marker() -> Seq<char> {
    "inner-link"@
}

pub open spec fn href_dq_marker() -> Seq<char> {
    "href=\""@
}

pub open spec fn href_sq_marker() -> Seq<char> {
    "href='"@
}

pub open spec fn title_marker() -> Seq<char> {
    "title-with-trim"@
}

pub open spec fn price_marker() -> Seq<char> {
    "price-amount"@
}

pub open spec fn mileage_marker() -> Seq<char> {
    "odometer-proximity"@
}

pub open spec fn location_marker() -> Seq<char> {
    "proximity-text"@
}

pub open spec fn origin_prefix() -> Seq<char> {
    "https://www.autotrader.ca"@
}

// --- the extraction, as mathematics ---

/// The text of the field marked by `m` inside the block `[lo, hi)`: the
/// characters between the first `>` after the marker and the following
/// `<` (or the block end), trimmed. Absent when the marker or the `>` is
/// not found inside the block.
pub open spec fn field_text(t: Seq<char>, lo: int, hi: int, m: Seq<char>) -> Option<Seq<char>> {
    match first_match_from(t, m, lo) {
        Some(i) => if i < hi {
            match first_match_from(t, seq!['>'], i + m.len()) {
                Some(g) => if g < hi {
                    let e = match first_match_from(t, seq!['<'], g + 1) {
                        Some(l) => if l < hi {
                            l
                        } else {
                            hi
                        },
                        None => hi,
                    };
                    Some(trimmed(t, g + 1, e))
                } else {
                    None
                },
                None => None,
            }
        } else {
            None
        },
        None => None,
    }
}

/// The first `href` attribute opening at or after `from`, in either quote
/// style: its marker position, the position where its value starts, and
/// the quote character that closes it.
pub open spec fn first_href(t: Seq<char>, from: int) -> Option<(int, int, char)> {
    let dq = first_match_from(t, href_dq_marker(), from);
    let sq = first_match_from(t, href_sq_marker(), from);
    match (dq, sq) {
        (Some(a), Some(b)) => if a <= b {
            Some((a, a + href_dq_marker().len() as int, '"'))
        } else {
            Some((b, b + href_sq_marker().len() as int, '\''))
        },
        (Some(a), None) => Some((a, a + href_dq_marker().len() as int, '"')),
        (None, Some(b)) => Some((b, b + href_sq_marker().len() as int, '\'')),
        (None, None) => None,
    }
}

/// The raw link of the block `[lo, hi)`: the quoted `href` value after the
/// `inner-link` marker, in either quote style.
pub open spec fn link_href(t: Seq<char>, lo: int, hi: int) -> Option<Seq<char>> {
    match first_match_from(t, link_marker(), lo) {
        Some(i) => if i < hi {
            match first_href(t, i + link_marker().len()) {
                Some(h) => if h.0 < hi {
                    match first_match_from(t, seq![h.2], h.1) {
                        Some(q) => if q <= hi {
                            Some(t.subrange(h.1, q))
                        } else {
                            None
                        },
                        None => None,
                    }
                } else {
                    None
                },
                None => None,
            }
        } else {
            None
        },
        None => None,
    }
}

/// A link starting with `/` is relative to the site and is made absolute.
pub open spec fn normalize_link(l: Seq<char>) -> Seq<char> {
    if l.len() > 0 && l[0] == '/' {
        origin_prefix() + l
    } else {
        l
    }
}

/// A present title matches some exclusion term, case-insensitively.
pub open spec fn excluded_title(title: Option<Seq<char>>, excl: Seq<Seq<char>>) -> bool {
    match title {
        Some(tt) => exists|k: int| 0 <= k < excl.len() && contains_fold(tt, excl[k]),
        None => false,
    }
}

/// One block of the fragment: skipped entirely when its title matches an
/// exclusion term, dropped when it has no link, a row otherwise.
pub open spec fn parse_block(t: Seq<char>, lo: int, hi: int, excl: Seq<Seq<char>>) -> Option<
    ListingModel,
> {
    let title = field_text(t, lo, hi, title_marker());
    if excluded_title(title, excl) {
        None
    } else {
        match link_href(t, lo, hi) {
            Some(l) => Some(
                ListingModel {
                    link: normalize_link(l),
                    title: title,
                    price: field_text(t, lo, hi, price_marker()),
                    mileage: field_text(t, lo, hi, mileage_marker()),
                    location: field_text(t, lo, hi, location_marker()),
                },
            ),
            None => None,
        }
    }
}

/// The rows of the blocks starting at `start` (a marker occurrence), in
/// document order.
pub open spec fn parse_blocks(t: Seq<char>, start: int, excl: Seq<Seq<char>>) -> Seq<ListingModel>
    decreases t.len() - start,
    when 0 <= start <= t.len()
    via parse_blocks_dec
{
    let hi = match first_match_from(t, item_marker(), start + 1) {
        Some(j) => j,
        None => t.len() as int,
    };
    let rest = if hi < t.len() {
        parse_blocks(t, hi, excl)
    } else {
        Seq::empty()
    };
    match parse_block(t, start, hi, excl) {
        Some(l) => seq![l] + rest,
        None => rest,
    }
}

#[via_fn]
proof fn parse_blocks_dec(t: Seq<char>, start: int, excl: Seq<Seq<char>>) {
    lemma_first_match_from(t, item_marker(), start + 1);
}

/// What the extractor yields on a whole fragment: the rows of all blocks,
/// in document order.
pub open spec fn spec_parse_listings(t: Seq<char>, excl: Seq<Seq<char>>) -> Seq<ListingModel> {
    match first_match_from(t, item_marker(), 0) {
        Some(i) => parse_blocks(t, i, excl),
        None => Seq::empty(),
    }
}

pub open spec fn views_of(ss: Seq<String>) -> Seq<Seq<char>> {
    ss.map_values(|s: String| s@)
}

pub open spec fn listing_views(ls: Seq<ListingResult>) -> Seq<ListingModel> {
    ls.map_values(|l: ListingResult| l@)
}

// --- the extraction, as code ---

fn field_text_exec(s: &str, t: &Vec<char>, lo: usize, hi: usize, m: &Vec<char>) -> (r: Option<
    String,
>)
    requires
        t@ == s@,
        lo <= hi <= t@.len(),
    ensures
        view_opt(r) == field_text(t@, lo as int, hi as int, m@),
{
    let tn = t.len();
    let gt = char_vec('>');
    let lt = char_vec('<');
    match find_from(t, m, lo) {
        None => None,
        Some(i) => {
            if i >= hi {
                return None;
            }
            proof {
                lemma_first_match_from(t@, m@, lo as int);
            }
            match find_from(t, &gt, i + m.len()) {
                None => None,
                Some(g) => {
                    if g >= hi {
                        return None;
                    }
                    let e = match find_from(t, &lt, g + 1) {
                        Some(l) => {
                            proof {
                                lemma_first_match_from(t@, lt@, g + 1);
                            }
                            if l < hi {
                                l
                            } else {
                                hi
                            }
                        },
                        None => hi,
                    };
                    let r = trim_bounds(t, g + 1, e);
                    Some(extract_string(s, r.0, r.1))
                },
            }
        },
    }
}

fn link_href_exec(s: &str, t: &Vec<char>, lo: usize, hi: usize) -> (r: Option<String>)
    requires
        t@ == s@,
        lo <= hi <= t@.len(),
    ensures
        view_opt(r) == link_href(t@, lo as int, hi as int),
{
    let tn = t.len();
    let lm = str_chars("inner-link");
    let hd = str_chars("href=\"");
    let hs = str_chars("href='");
    match find_from(t, &lm, lo) {
        None => None,
        Some(i) => {
            if i >= hi {
                return None;
            }
            proof {
                lemma_first_match_from(t@, lm@, lo as int);
            }
            let from_attr = i + lm.len();
            let dq = find_from(t, &hd, from_attr);
            let sq = find_from(t, &hs, from_attr);
            proof {
                lemma_first_match_from(t@, hd@, from_attr as int);
                lemma_first_match_from(t@, hs@, from_attr as int);
            }
            let picked: Option<(usize, usize, char)> = match (dq, sq) {
                (Some(a), Some(b)) => if a <= b {
                    Some((a, a + hd.len(), '"'))
                } else {
                    Some((b, b + hs.len(), '\''))
                },
                (Some(a), None) => Some((a, a + hd.len(), '"')),
                (None, Some(b)) => Some((b, b + hs.len(), '\'')),
                (None, None) => None,
            };
            match picked {
                None => None,
                Some(h) => {
                    if h.0 >= hi {
                        return None;
                    }
                    let qv = char_vec(h.2);
                    match find_from(t, &qv, h.1) {
                        None => None,
                        Some(q) => {
                            if q <= hi {
                                proof {
                                    lemma_first_match_from(t@, qv@, h.1 as int);
                                }
                                Some(extract_string(s, h.1, q))
                            } else {
                                None
                            }
                        },
                    }
                },
            }
        },
    }
}

fn normalize_link_exec(l: String) -> (r: String)
    ensures
        r@ == normalize_link(l@),
{
    if !l.as_str().is_empty() && l.as_str().get_char(0) == '/' {
        let mut s = String::from_str("https://www.autotrader.ca");
        s.append(l.as_str());
        s
    } else {
        l
    }
}

fn any_exclusion_matches(tt: &String, excls: &Vec<Vec<char>>) -> (r: bool)
    ensures
        r == exists|k: int| 0 <= k < excls@.len() && contains_fold(tt@, excls@[k]@),
{
    let ttc = str_chars(tt.as_str());
    let mut k: usize = 0;
    while k < excls.len()
        invariant
            ttc@ == tt@,
            k <= excls@.len(),
            forall|j: int| 0 <= j < k ==> !contains_fold(tt@, excls@[j]@),
        decreases excls@.len() - k,
    {
        if contains_fold_vec(&ttc, &excls[k]) {
            return true;
        }
        k += 1;
    }
    false
}

/// Parses a search-results markup fragment into summary rows, exactly as
/// `spec_parse_listings` describes: one row per result block, skipping
/// blocks whose title matches an exclusion term and blocks without a
/// link, with relative links made absolute.
pub fn parse_listing_html(html_content: &str, exclusions: &Vec<String>) -> (r: Vec<ListingResult>)
    ensures
        listing_views(r@) == spec_parse_listings(html_content@, views_of(exclusions@)),
{
    let t = str_chars(html_content);
    let item_m = str_chars("result-item");
    let title_m = str_chars("title-with-trim");
    let price_m = str_chars("price-amount");
    let mileage_m = str_chars("odometer-proximity");
    let location_m = str_chars("proximity-text");
    let ghost ex = views_of(exclusions@);
    let mut excls: Vec<Vec<char>> = Vec::new();
    let mut k: usize = 0;
    while k < exclusions.len()
        invariant
            k <= exclusions@.len(),
            excls@.len() == k,
            forall|j: int| 0 <= j < k ==> excls@[j]@ == exclusions@[j]@,
        decreases exclusions@.len() - k,
    {
        excls.push(str_chars(exclusions[k].as_str()));
        k += 1;
    }
    proof {
        assert(forall|j: int|
            0 <= j < exclusions@.len() ==> ex[j] == exclusions@[j]@);
    }
    let mut out: Vec<ListingResult> = Vec::new();
    let tn = t.len();
    let first = find_from(&t, &item_m, 0);
    let c0 = match first {
        None => {
            proof {
                assert(listing_views(out@) =~= Seq::<ListingModel>::empty());
            }
            return out;
        },
        Some(c) => c,
    };
    proof {
        reveal_strlit("result-item");
        lemma_first_match_from(t@, item_m@, 0);
        assert(listing_views(out@) + parse_blocks(t@, c0 as int, ex) =~= parse_blocks(
            t@,
            c0 as int,
            ex,
        ));
    }
    let mut cur: usize = c0;
    loop
        invariant_except_break
            spec_parse_listings(t@, ex) == listing_views(out@) + parse_blocks(
                t@,
                cur as int,
                ex,
            ),
        invariant
            t@ == html_content@,
            item_m@ == item_marker(),
            title_m@ == title_marker(),
            price_m@ == price_marker(),
            mileage_m@ == mileage_marker(),
            location_m@ == location_marker(),
            ex == views_of(exclusions@),
            excls@.len() == exclusions@.len(),
            forall|j: int| 0 <= j < excls@.len() ==> excls@[j]@ == ex[j],
            tn == t@.len(),
            tn <= usize::MAX,
            cur < tn,
        ensures
            spec_parse_listings(t@, ex) == listing_views(out@),
        decreases t@.len() - cur,
    {
        let hi = match find_from(&t, &item_m, cur + 1) {
            Some(j) => j,
            None => t.len(),
        };
        proof {
            lemma_first_match_from(t@, item_m@, cur + 1);
        }
        let title = field_text_exec(html_content, &t, cur, hi, &title_m);
        let excluded = match &title {
            Some(tt) => any_exclusion_matches(tt, &excls),
            None => false,
        };
        proof {
            assert(excluded == excluded_title(view_opt(title), ex)) by {
                match title {
                    Some(s) => {
                        if excluded {
                            let k = choose|k: int|
                                0 <= k < excls@.len() && contains_fold(s@, excls@[k]@);
                            assert(contains_fold(s@, ex[k]));
                        } else {
                            assert forall|k: int|
                                0 <= k < ex.len() implies !contains_fold(s@, ex[k]) by {
                                assert(excls@[k]@ == ex[k]);
                            }
                        }
                    },
                    None => {},
                }
            }
        }
        let ghost old_out = out@;
        if !excluded {
            match link_href_exec(html_content, &t, cur, hi) {
                Some(l) => {
                    let price = field_text_exec(html_content, &t, cur, hi, &price_m);
                    let mileage = field_text_exec(html_content, &t, cur, hi, &mileage_m);
                    let location = field_text_exec(html_content, &t, cur, hi, &location_m);
                    let item = ListingResult {
                        link: normalize_link_exec(l),
                        title,
                        price,
                        mileage,
                        location,
                    };
                    proof {
                        assert(parse_block(t@, cur as int, hi as int, ex) == Some(item@));
                    }
                    out.push(item);
                    proof {
                        assert(listing_views(out@) =~= listing_views(old_out) + seq![item@]);
                    }
                },
                None => {
                    proof {
                        assert(parse_block(t@, cur as int, hi as int, ex) is None);
                    }
                },
            }
        } else {
            proof {
                assert(parse_block(t@, cur as int, hi as int, ex) is None);
            }
        }
        proof {
            assert(parse_blocks(t@, cur as int, ex) == (match parse_block(
                t@,
                cur as int,
                hi as int,
                ex,
            ) {
                Some(l) => seq![l] + (if hi < t@.len() {
                    parse_blocks(t@, hi as int, ex)
                } else {
                    Seq::empty()
                }),
                None => (if hi < t@.len() {
                    parse_blocks(t@, hi as int, ex)
                } else {
                    Seq::empty()
                }),
            }));
            if hi >= t@.len() {
                assert(listing_views(out@) + Seq::<ListingModel>::empty() =~= listing_views(
                    out@,
                ));
            }
        }
        if hi < t.len() {
            cur = hi;
        } else {
            break;
        }
    }
    out
}

// --- the exclusion guarantee ---

proof fn lemma_blocks_exclusion(t: Seq<char>, start: int, excl: Seq<Seq<char>>, i: int)
    requires
        0 <= start <= t.len(),
        0 <= i < parse_blocks(t, start, excl).len(),
    ensures
        !excluded_title(parse_blocks(t, start, excl)[i].title, excl),
    decreases t.len() - start,
{
    lemma_first_match_from(t, item_marker(), start + 1);
    let hi = match first_match_from(t, item_marker(), start + 1) {
        Some(j) => j,
        None => t.len() as int,
    };
    match parse_block(t, start, hi, excl) {
        Some(l) => {
            if i == 0 {
                assert(!excluded_title(l.title, excl));
            } else {
                assert(hi < t.len());
                lemma_blocks_exclusion(t, hi, excl, i - 1);
            }
        },
        None => {
            assert(hi < t.len());
            lemma_blocks_exclusion(t, hi, excl, i);
        },
    }
}

/// A listing whose title contains an exclusion term, in any case, never
/// appears in the extractor's output.
pub proof fn lemma_exclusion_respected(t: Seq<char>, excl: Seq<Seq<char>>, i: int)
    requires
        0 <= i < spec_parse_listings(t, excl).len(),
    ensures
        !excluded_title(spec_parse_listings(t, excl)[i].title, excl),
{
    match first_match_from(t, item_marker(), 0) {
        Some(s) => {
            lemma_first_match_from(t, item_marker(), 0);
            lemma_blocks_exclusion(t, s, excl, i);
        },
        None => {},
    }
}

} // verus!
