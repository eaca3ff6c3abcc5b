//! Retry and backoff policies of the page fetcher and the detail fetcher,
//! the search request payload, and the processing of the search endpoint's
//! response envelope.
//!
//! The fetchers are state machines: the driver performs one network
//! attempt, hands the outcome in, and does what the returned action says
//! (sleep and retry, give up, or parse). Within one fetch the attempts are
//! strictly sequential; the driver's only duties are the I/O itself and
//! obedience to the actions.

use crate::jsonval::{get_str_field, get_u64_field, json_from_str, json_parse, read_str_field,
    read_u64_field, JsonVal};
use crate::listing::{listing_views, parse_listing_html, spec_parse_listings, views_of};
use crate::models::{ListingModel, ListingResult, SearchParams};
use crate::text::{contains_sub, contains_sub_vec, dec_str, str_chars, u64_to_string};
use vstd::prelude::*;
use vstd::string::StrSliceExecFns;
use vstd::string::StringExecFns;

verus! {

/// Attempt budget of the page fetcher.
pub const PAGE_MAX_RETRIES: u32 = 5;

/// First backoff of the page fetcher, in milliseconds.
pub const PAGE_INITIAL_DELAY_MS: u64 = 500;

/// Attempt budget of the detail fetcher.
pub const DETAIL_MAX_RETRIES: u32 = 12;

/// First backoff of the detail fetcher, in milliseconds.
pub const DETAIL_INITIAL_DELAY_MS: u64 = 250;

/// Backoff cap of the detail fetcher, in milliseconds.
pub const DETAIL_MAX_DELAY_MS: u64 = 10000;

/// Default page size of the search endpoint.
pub const RESULTS_PER_PAGE: u32 = 100;

/// Cap on simultaneously in-flight detail fetches: the driver keeps at
/// most this many tasks running at once.
pub const DETAIL_CONCURRENCY: usize = 50;

// --- the page fetcher's retry policy ---

/// The page fetcher's backoff before its `a`-th retry: 500 ms, doubling
/// with every attempt, uncapped within the budget.
pub open spec fn page_backoff(a: int) -> int
    decreases a,
{
    if a <= 0 {
        500
    } else {
        2 * page_backoff(a - 1)
    }
}

proof fn lemma_page_backoff_values(a: int)
    requires
        0 <= a <= 5,
    ensures
        a == 0 ==> page_backoff(a) == 500,
        a == 1 ==> page_backoff(a) == 1000,
        a == 2 ==> page_backoff(a) == 2000,
        a == 3 ==> page_backoff(a) == 4000,
        a == 4 ==> page_backoff(a) == 8000,
        a == 5 ==> page_backoff(a) == 16000,
    decreases a,
{
    if a > 0 {
        lemma_page_backoff_values(a - 1);
    }
}

/// One page could not be fetched within the retry budget.
#[derive(Debug, Clone, PartialEq, Eq, Structural)]
pub struct PageFetchError {
    pub page: u32,
    pub attempts: u32,
}

impl PageFetchError {
    /// The operator-facing description of this failure.
    pub fn message(&self) -> (r: String)
        ensures
            r@ == "Failed to fetch page "@ + dec_str(self.page as int) + " after "@ + dec_str(
                self.attempts as int,
            ) + " attempts."@,
    {
        let mut s = String::from_str("Failed to fetch page ");
        s.append(u64_to_string(self.page as u64).as_str());
        s.append(" after ");
        s.append(u64_to_string(self.attempts as u64).as_str());
        s.append(" attempts.");
        s
    }
}

/// What the driver must do after a transient page failure: sleep for
/// `sleep_ms`, then retry, unless the budget is now exhausted.
#[derive(Debug, Clone, Copy, PartialEq, Eq, Structural)]
pub struct PageRetryStep {
    pub sleep_ms: u64,
    pub exhausted: bool,
}

/// The retry state of one page fetch: up to five attempts, exponential
/// backoff from 500 ms, doubling each attempt.
#[derive(Debug, Clone, PartialEq, Eq, Structural)]
pub struct PageFetcher {
    pub page: u32,
    pub attempt: u32,
    pub delay_ms: u64,
}

impl PageFetcher {
    pub open spec fn wf(&self) -> bool {
        &&& self.attempt <= PAGE_MAX_RETRIES
        &&& self.delay_ms == page_backoff(self.attempt as int)
    }

    pub fn new(page: u32) -> (r: Self)
        ensures
            r.wf(),
            r.page == page,
            r.attempt == 0,
            r.delay_ms == PAGE_INITIAL_DELAY_MS,
    {
        PageFetcher { page, attempt: 0, delay_ms: PAGE_INITIAL_DELAY_MS }
    }

    /// Consumes one attempt after a transient failure (network error,
    /// non-success status, undecodable envelope, or an empty anomalous
    /// result): the driver sleeps for the current backoff, the backoff
    /// doubles, and after the fifth attempt the fetch is exhausted.
    pub fn on_transient(&mut self) -> (r: PageRetryStep)
        requires
            old(self).wf(),
            old(self).attempt < PAGE_MAX_RETRIES,
        ensures
            final(self).wf(),
            final(self).page == old(self).page,
            final(self).attempt == old(self).attempt + 1,
            final(self).delay_ms == 2 * old(self).delay_ms,
            r.sleep_ms == old(self).delay_ms,
            r.exhausted == (old(self).attempt + 1 == PAGE_MAX_RETRIES),
    {
        proof {
            lemma_page_backoff_values(self.attempt as int);
        }
        let step = PageRetryStep {
            sleep_ms: self.delay_ms,
            exhausted: self.attempt + 1 == PAGE_MAX_RETRIES,
        };
        self.attempt = self.attempt + 1;
        self.delay_ms = self.delay_ms * 2;
        step
    }

    /// The typed failure that exhausting the budget yields: it identifies
    /// the page and the attempt count.
    pub fn exhausted_error(&self) -> (r: PageFetchError)
        ensures
            r.page == self.page,
            r.attempts == PAGE_MAX_RETRIES,
    {
        PageFetchError { page: self.page, attempts: PAGE_MAX_RETRIES }
    }
}

// --- the detail fetcher's retry policy ---

/// The outcome of one detail-page attempt, as the driver observed it.
#[derive(Debug, Clone, Copy, PartialEq, Eq, Structural)]
pub enum DetailEvent {
    /// The request itself failed.
    NetworkError,
    /// The server answered 429.
    RateLimitedStatus,
    /// The server answered another non-success status.
    HttpError { status: u16 },
    /// The response body could not be read.
    BodyReadError,
    /// A success body arrived; `rate_limited` says whether it carries a
    /// known rate-limit marker phrase (a disguised block page).
    Body { rate_limited: bool },
}

/// Why one detail page failed for good.
#[derive(Debug, Clone, Copy, PartialEq, Eq, Structural)]
pub enum DetailError {
    /// The rate-limit budget was exhausted: distinct from every other
    /// failure, for operator diagnosis.
    RateLimited { attempts: u32 },
    /// A non-success status other than 429: not retried.
    Http { status: u16 },
    /// The body could not be read: not retried.
    BodyRead,
    /// The network failed on the last attempt.
    Network,
}

/// What the driver must do next with one detail page.
#[derive(Debug, Clone, Copy, PartialEq, Eq, Structural)]
pub enum DetailAction {
    /// Sleep for `ms`, then send the request again.
    Sleep { ms: u64 },
    /// Give up on this page with the given failure.
    Fail { error: DetailError },
    /// The body is usable: run the extractor on it.
    Parse,
}

/// The retry state of one detail fetch: up to twelve attempts,
/// exponential backoff from 250 ms, doubling, capped at 10 s per wait.
#[derive(Debug, Clone, PartialEq, Eq, Structural)]
pub struct DetailFetcher {
    pub attempt: u32,
    pub delay_ms: u64,
}

impl DetailFetcher {
    pub open spec fn wf(&self) -> bool {
        &&& self.attempt < DETAIL_MAX_RETRIES
        &&& DETAIL_INITIAL_DELAY_MS <= self.delay_ms <= DETAIL_MAX_DELAY_MS
    }

    pub fn new() -> (r: Self)
        ensures
            r.wf(),
            r.attempt == 0,
            r.delay_ms == DETAIL_INITIAL_DELAY_MS,
    {
        DetailFetcher { attempt: 0, delay_ms: DETAIL_INITIAL_DELAY_MS }
    }

    /// The policy: 429 responses, rate-limit marker bodies and network
    /// errors are retried with backoff until the budget is exhausted;
    /// other error statuses and unreadable bodies fail immediately; a
    /// clean body is parsed.
    pub fn on_event(&mut self, ev: DetailEvent) -> (r: DetailAction)
        requires
            old(self).wf(),
        ensures
            final(self).wf(),
            (ev is NetworkError || ev is RateLimitedStatus || ev == (DetailEvent::Body {
                rate_limited: true,
            })) ==> if old(self).attempt + 1 < DETAIL_MAX_RETRIES {
                &&& r == (DetailAction::Sleep { ms: old(self).delay_ms })
                &&& final(self).attempt == old(self).attempt + 1
                &&& final(self).delay_ms == if 2 * old(self).delay_ms <= DETAIL_MAX_DELAY_MS {
                    2 * old(self).delay_ms
                } else {
                    DETAIL_MAX_DELAY_MS as int
                }
            } else {
                &&& r == (DetailAction::Fail {
                    error: if ev is NetworkError {
                        DetailError::Network
                    } else {
                        DetailError::RateLimited { attempts: DETAIL_MAX_RETRIES }
                    },
                })
                &&& *final(self) == *old(self)
            },
            ev matches DetailEvent::HttpError { status } ==> r == (DetailAction::Fail {
                error: DetailError::Http { status },
            }) && *final(self) == *old(self),
            ev is BodyReadError ==> r == (DetailAction::Fail { error: DetailError::BodyRead })
                && *final(self) == *old(self),
            ev == (DetailEvent::Body { rate_limited: false }) ==> r == DetailAction::Parse
                && *final(self) == *old(self),
    {
        match ev {
            DetailEvent::NetworkError | DetailEvent::RateLimitedStatus | DetailEvent::Body {
                rate_limited: true,
            } => {
                if self.attempt + 1 < DETAIL_MAX_RETRIES {
                    let sleep = self.delay_ms;
                    self.attempt = self.attempt + 1;
                    self.delay_ms = if 2 * self.delay_ms <= DETAIL_MAX_DELAY_MS {
                        2 * self.delay_ms
                    } else {
                        DETAIL_MAX_DELAY_MS
                    };
                    DetailAction::Sleep { ms: sleep }
                } else {
                    let error = match ev {
                        DetailEvent::NetworkError => DetailError::Network,
                        _ => DetailError::RateLimited { attempts: DETAIL_MAX_RETRIES },
                    };
                    DetailAction::Fail { error }
                }
            },
            DetailEvent::HttpError { status } => DetailAction::Fail {
                error: DetailError::Http { status },
            },
            DetailEvent::BodyReadError => DetailAction::Fail { error: DetailError::BodyRead },
            DetailEvent::Body { rate_limited: false } => DetailAction::Parse,
        }
    }
}

// --- rate-limit marker detection ---

pub open spec fn rate_limit_marker_a() -> Seq<char> {
    "Request unsuccessful."@
}

pub open spec fn rate_limit_marker_b() -> Seq<char> {
    "Too Many Requests"@
}

/// A 200-status body that nevertheless signals throttling: it contains a
/// known rate-limit marker phrase.
pub open spec fn spec_body_rate_limited(t: Seq<char>) -> bool {
    contains_sub(t, rate_limit_marker_a()) || contains_sub(t, rate_limit_marker_b())
}

/// Whether a success body carries a rate-limit marker phrase, exactly as
/// `spec_body_rate_limited` describes.
pub fn body_is_rate_limited(text: &str) -> (r: bool)
    ensures
        r == spec_body_rate_limited(text@),
{
    let t = str_chars(text);
    let ma = str_chars("Request unsuccessful.");
    let mb = str_chars("Too Many Requests");
    contains_sub_vec(&t, &ma) || contains_sub_vec(&t, &mb)
}

// --- the search request payload ---

/// One value of the search request payload.
#[derive(Debug, Clone, PartialEq)]
pub enum PayloadValue {
    Text(String),
    UInt(u64),
    Int(i64),
    Flag(bool),
    /// Sent as a JSON null.
    Null,
    /// Left out of the request entirely.
    Absent,
}

/// Mathematical view of one payload value.
pub ghost enum PayloadModel {
    Text(Seq<char>),
    UInt(u64),
    Int(i64),
    Flag(bool),
    Null,
    Absent,
}

impl View for PayloadValue {
    type V = PayloadModel;

    open spec fn view(&self) -> PayloadModel {
        match self {
            PayloadValue::Text(s) => PayloadModel::Text(s@),
            PayloadValue::UInt(n) => PayloadModel::UInt(*n),
            PayloadValue::Int(n) => PayloadModel::Int(*n),
            PayloadValue::Flag(b) => PayloadModel::Flag(*b),
            PayloadValue::Null => PayloadModel::Null,
            PayloadValue::Absent => PayloadModel::Absent,
        }
    }
}

pub open spec fn pair_views(ps: Seq<(String, PayloadValue)>) -> Seq<(Seq<char>, PayloadModel)> {
    ps.map_values(|p: (String, PayloadValue)| (p.0@, p.1@))
}

/// The fields of one search request, in order: every filter of the query,
/// with absent numeric bounds defaulted to permissive values, absent
/// flags defaulted to permissive trues, and the pagination offset
/// `page * page size`. An `Absent` value is left out of the sent payload;
/// a `Null` value is sent as JSON null.
pub open spec fn spec_search_payload(page: u32, p: SearchParams) -> Seq<(Seq<char>, PayloadModel)> {
    let rpp = match p.results_per_page {
        Some(r) => r,
        None => RESULTS_PER_PAGE,
    };
    seq![
        ("Address"@, PayloadModel::Text(match p.address {
            Some(a) => a@,
            None => "Kanata, ON"@,
        })),
        ("Proximity"@, PayloadModel::Int(match p.proximity {
            Some(x) => x as i64,
            None => -1i64,
        })),
        ("Make"@, match p.make {
            Some(m) => PayloadModel::Text(m@),
            None => PayloadModel::Null,
        }),
        ("Model"@, match p.model {
            Some(m) => PayloadModel::Text(m@),
            None => PayloadModel::Absent,
        }),
        ("Trim"@, match p.trim {
            Some(m) => PayloadModel::Text(m@),
            None => PayloadModel::Absent,
        }),
        ("PriceMin"@, PayloadModel::UInt(match p.price_min {
            Some(x) => x as u64,
            None => 0,
        })),
        ("PriceMax"@, PayloadModel::UInt(match p.price_max {
            Some(x) => x as u64,
            None => 999999,
        })),
        ("Skip"@, PayloadModel::UInt(((page as int) * (rpp as int)) as u64)),
        ("Top"@, PayloadModel::UInt(rpp as u64)),
        ("IsNew"@, PayloadModel::Flag(match p.is_new {
            Some(b) => b,
            None => true,
        })),
        ("IsUsed"@, PayloadModel::Flag(match p.is_used {
            Some(b) => b,
            None => true,
        })),
        ("WithPhotos"@, PayloadModel::Flag(match p.with_photos {
            Some(b) => b,
            None => true,
        })),
        ("WithPrice"@, PayloadModel::Flag(true)),
        ("YearMin"@, PayloadModel::UInt(match p.year_min {
            Some(x) => x as u64,
            None => 1950,
        })),
        ("YearMax"@, PayloadModel::UInt(match p.year_max {
            Some(x) => x as u64,
            None => 2050,
        })),
        ("OdometerMin"@, match p.odometer_min {
            Some(x) => PayloadModel::UInt(x as u64),
            None => PayloadModel::Absent,
        }),
        ("OdometerMax"@, match p.odometer_max {
            Some(x) => PayloadModel::UInt(x as u64),
            None => PayloadModel::Absent,
        }),
        ("micrositeType"@, PayloadModel::UInt(1)),
        ("Colours"@, match p.color {
            Some(m) => PayloadModel::Text(m@),
            None => PayloadModel::Absent,
        }),
        ("Drivetrain"@, match p.drivetrain {
            Some(m) => PayloadModel::Text(m@),
            None => PayloadModel::Absent,
        }),
        ("Transmissions"@, match p.transmission {
            Some(m) => PayloadModel::Text(m@),
            None => PayloadModel::Absent,
        }),
        ("IsDamaged"@, PayloadModel::Flag(match p.is_damaged {
            Some(b) => b,
            None => false,
        })),
        ("BodyType"@, match p.body_type {
            Some(m) => PayloadModel::Text(m@),
            None => PayloadModel::Absent,
        }),
        ("NumberOfDoors"@, match p.num_doors {
            Some(x) => PayloadModel::UInt(x as u64),
            None => PayloadModel::Absent,
        }),
        ("SeatingCapacity"@, match p.seating_capacity {
            Some(x) => PayloadModel::UInt(x as u64),
            None => PayloadModel::Absent,
        }),
    ]
}

fn text_or_null(o: &Option<String>) -> (r: PayloadValue)
    ensures
        r@ == match *o {
            Some(m) => PayloadModel::Text(m@),
            None => PayloadModel::Null,
        },
{
    match o {
        Some(m) => PayloadValue::Text(m.clone()),
        None => PayloadValue::Null,
    }
}

fn text_or_absent(o: &Option<String>) -> (r: PayloadValue)
    ensures
        r@ == match *o {
            Some(m) => PayloadModel::Text(m@),
            None => PayloadModel::Absent,
        },
{
    match o {
        Some(m) => PayloadValue::Text(m.clone()),
        None => PayloadValue::Absent,
    }
}

fn uint_or_absent(o: &Option<u32>) -> (r: PayloadValue)
    ensures
        r@ == match *o {
            Some(x) => PayloadModel::UInt(x as u64),
            None => PayloadModel::Absent,
        },
{
    match o {
        Some(x) => PayloadValue::UInt(*x as u64),
        None => PayloadValue::Absent,
    }
}

fn uint_or_default(o: &Option<u32>, d: u64) -> (r: PayloadValue)
    ensures
        r@ == PayloadModel::UInt(match *o {
            Some(x) => x as u64,
            None => d,
        }),
{
    match o {
        Some(x) => PayloadValue::UInt(*x as u64),
        None => PayloadValue::UInt(d),
    }
}

fn flag_or_default(o: &Option<bool>, d: bool) -> (r: PayloadValue)
    ensures
        r@ == PayloadModel::Flag(match *o {
            Some(b) => b,
            None => d,
        }),
{
    match o {
        Some(b) => PayloadValue::Flag(*b),
        None => PayloadValue::Flag(d),
    }
}

/// Builds the search request payload for one page, exactly as
/// `spec_search_payload` describes. The composition root turns the pairs
/// into the JSON body, skipping `Absent` values.
#[verifier::rlimit(50)]
pub fn build_search_payload(page: u32, params: &SearchParams) -> (r: Vec<(String, PayloadValue)>)
    ensures
        pair_views(r@) == spec_search_payload(page, *params),
{
    let rpp = match params.results_per_page {
        Some(r) => r,
        None => RESULTS_PER_PAGE,
    };
    let address = match &params.address {
        Some(a) => a.clone(),
        None => String::from_str("Kanata, ON"),
    };
    let proximity: i64 = match params.proximity {
        Some(x) => x as i64,
        None => -1,
    };
    proof {
        assert((page as int) * (rpp as int) < 0x1_0000_0000_0000_0000) by (nonlinear_arith)
            requires
                page as int <= 0xFFFF_FFFF,
                rpp as int <= 0xFFFF_FFFF,
        ;
    }
    let skip: u64 = (page as u64) * (rpp as u64);
    let mut v: Vec<(String, PayloadValue)> = Vec::new();
    v.push((String::from_str("Address"), PayloadValue::Text(address)));
    v.push((String::from_str("Proximity"), PayloadValue::Int(proximity)));
    v.push((String::from_str("Make"), text_or_null(&params.make)));
    v.push((String::from_str("Model"), text_or_absent(&params.model)));
    v.push((String::from_str("Trim"), text_or_absent(&params.trim)));
    v.push((String::from_str("PriceMin"), uint_or_default(&params.price_min, 0)));
    v.push((String::from_str("PriceMax"), uint_or_default(&params.price_max, 999999)));
    v.push((String::from_str("Skip"), PayloadValue::UInt(skip)));
    v.push((String::from_str("Top"), PayloadValue::UInt(rpp as u64)));
    v.push((String::from_str("IsNew"), flag_or_default(&params.is_new, true)));
    v.push((String::from_str("IsUsed"), flag_or_default(&params.is_used, true)));
    v.push((String::from_str("WithPhotos"), flag_or_default(&params.with_photos, true)));
    v.push((String::from_str("WithPrice"), PayloadValue::Flag(true)));
    v.push((String::from_str("YearMin"), uint_or_default(&params.year_min, 1950)));
    v.push((String::from_str("YearMax"), uint_or_default(&params.year_max, 2050)));
    v.push((String::from_str("OdometerMin"), uint_or_absent(&params.odometer_min)));
    v.push((String::from_str("OdometerMax"), uint_or_absent(&params.odometer_max)));
    v.push((String::from_str("micrositeType"), PayloadValue::UInt(1)));
    v.push((String::from_str("Colours"), text_or_absent(&params.color)));
    v.push((String::from_str("Drivetrain"), text_or_absent(&params.drivetrain)));
    v.push((String::from_str("Transmissions"), text_or_absent(&params.transmission)));
    v.push((String::from_str("IsDamaged"), flag_or_default(&params.is_damaged, false)));
    v.push((String::from_str("BodyType"), text_or_absent(&params.body_type)));
    v.push((String::from_str("NumberOfDoors"), uint_or_absent(&params.num_doors)));
    v.push((String::from_str("SeatingCapacity"), uint_or_absent(&params.seating_capacity)));
    proof {
        assert(pair_views(v@) =~= spec_search_payload(page, *params));
    }
    v
}

// --- processing the search endpoint's response envelope ---

/// One processed envelope: either listings with the page bound the
/// metadata gave, or an anomaly that the policy treats as transient.
#[derive(Debug)]
pub enum PageOutcome {
    /// The envelope yielded listings (possibly none, when the metadata
    /// said so) and a maximum page count.
    Results { listings: Vec<ListingResult>, max_page: u32 },
    /// No listings together with absent or unparsable pagination
    /// metadata: treated as a transient anomaly, not a legitimate empty
    /// result.
    Anomaly,
}

pub open spec fn trunc_u32(n: u64) -> u32 {
    (n % 0x1_0000_0000) as u32
}

/// A string field of the envelope, or empty when absent or not a string.
pub open spec fn str_field_or_empty(env: JsonVal, key: Seq<char>) -> Seq<char> {
    match get_str_field(env, key) {
        Some(s) => s,
        None => Seq::empty(),
    }
}

/// The page bound carried by a parsed pagination-metadata object: its
/// `maxPage` number, 1 when it carries none.
pub open spec fn spec_max_page(sd: JsonVal) -> u32 {
    match get_u64_field(sd, "maxPage"@) {
        Some(p) => trunc_u32(p),
        None => 1,
    }
}

/// What processing a decoded envelope yields: `None` is the anomaly.
/// Metadata that parses as JSON settles the page bound; metadata that is
/// absent or does not parse defaults the bound to 1 provided the fragment
/// still yielded listings — with no listings either way, the envelope
/// counts as a transient anomaly, not a legitimate empty result.
pub open spec fn spec_process_envelope(body: Seq<char>, excl: Seq<Seq<char>>) -> Option<
    (Seq<ListingModel>, u32),
> {
    match json_parse(body) {
        Some(env) => {
            let ads = str_field_or_empty(env, "AdsHtml"@);
            let meta = str_field_or_empty(env, "SearchResultsDataJson"@);
            let listings = spec_parse_listings(ads, excl);
            if meta.len() > 0 && json_parse(meta) is Some {
                Some((listings, spec_max_page(json_parse(meta)->Some_0)))
            } else if listings.len() == 0 {
                None
            } else {
                Some((listings, 1))
            }
        },
        None => None,
    }
}

/// Processes one response body of the search endpoint, exactly as
/// `spec_process_envelope` describes: decodes the envelope, extracts the
/// markup fragment and the pagination metadata, runs the extractor, and
/// classifies zero listings with absent or unparsable metadata as an
/// anomaly.
pub fn process_page_response(body: &str, exclusions: &Vec<String>) -> (r: PageOutcome)
    ensures
        match spec_process_envelope(body@, views_of(exclusions@)) {
            Some(p) => r matches PageOutcome::Results { listings, max_page } && listing_views(
                listings@,
            ) == p.0 && max_page == p.1,
            None => r is Anomaly,
        },
{
    let env = match json_from_str(body) {
        Some(env) => env,
        None => {
            return PageOutcome::Anomaly;
        },
    };
    let ads = match read_str_field(&env, "AdsHtml") {
        Some(s) => s,
        None => String::new(),
    };
    let meta = match read_str_field(&env, "SearchResultsDataJson") {
        Some(s) => s,
        None => String::new(),
    };
    let listings = parse_listing_html(ads.as_str(), exclusions);
    if !meta.as_str().is_empty() {
        match json_from_str(meta.as_str()) {
            Some(sd) => {
                let max_page = match read_u64_field(&sd, "maxPage") {
                    Some(p) => (p % 0x1_0000_0000u64) as u32,
                    None => 1,
                };
                return PageOutcome::Results { listings, max_page };
            },
            None => {},
        }
    }
    if listings.len() == 0 {
        PageOutcome::Anomaly
    } else {
        PageOutcome::Results { listings, max_page: 1 }
    }
}


} // verus!
