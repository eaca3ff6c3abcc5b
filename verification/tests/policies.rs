use autoscraper::fetch::{
    body_is_rate_limited, build_search_payload, process_page_response, DetailAction, DetailError,
    DetailEvent, DetailFetcher, PageFetcher, PageOutcome, PayloadValue,
};
use autoscraper::models::SearchParams;

fn empty_params() -> SearchParams {
    SearchParams {
        make: None,
        model: None,
        trim: None,
        color: None,
        year_min: None,
        year_max: None,
        price_min: None,
        price_max: None,
        odometer_min: None,
        odometer_max: None,
        address: None,
        proximity: None,
        is_new: None,
        is_used: None,
        is_damaged: None,
        with_photos: None,
        drivetrain: None,
        transmission: None,
        body_type: None,
        num_doors: None,
        seating_capacity: None,
        exclusions: None,
        inclusion: None,
        results_per_page: None,
    }
}

#[test]
fn page_fetcher_attempts_exactly_five_times_then_fails() {
    let mut f = PageFetcher::new(3);
    let mut attempts: u32 = 0;
    let mut total_sleep: u64 = 0;
    let mut sleeps: Vec<u64> = Vec::new();
    loop {
        // the server answers 500: every attempt is a transient failure
        attempts += 1;
        let step = f.on_transient();
        total_sleep += step.sleep_ms;
        sleeps.push(step.sleep_ms);
        if step.exhausted {
            break;
        }
    }
    assert_eq!(attempts, 5);
    assert_eq!(sleeps, vec![500, 1000, 2000, 4000, 8000]);
    assert!(total_sleep >= 500 + 1000 + 2000 + 4000);
    let err = f.exhausted_error();
    assert_eq!(err.page, 3);
    assert_eq!(err.attempts, 5);
    assert_eq!(err.message(), "Failed to fetch page 3 after 5 attempts.");
}

#[test]
fn detail_fetcher_fails_immediately_on_404() {
    let mut f = DetailFetcher::new();
    let a = f.on_event(DetailEvent::HttpError { status: 404 });
    assert_eq!(a, DetailAction::Fail { error: DetailError::Http { status: 404 } });
}

#[test]
fn detail_fetcher_fails_immediately_on_unreadable_body() {
    let mut f = DetailFetcher::new();
    let a = f.on_event(DetailEvent::BodyReadError);
    assert_eq!(a, DetailAction::Fail { error: DetailError::BodyRead });
}

#[test]
fn detail_fetcher_parses_a_clean_body() {
    let mut f = DetailFetcher::new();
    let a = f.on_event(DetailEvent::Body { rate_limited: false });
    assert_eq!(a, DetailAction::Parse);
}

#[test]
fn detail_fetcher_retries_429_up_to_twelve_attempts() {
    let mut f = DetailFetcher::new();
    let mut attempts: u32 = 0;
    let mut sleeps: Vec<u64> = Vec::new();
    loop {
        attempts += 1;
        match f.on_event(DetailEvent::RateLimitedStatus) {
            DetailAction::Sleep { ms } => sleeps.push(ms),
            DetailAction::Fail { error } => {
                assert_eq!(error, DetailError::RateLimited { attempts: 12 });
                break;
            },
            DetailAction::Parse => panic!("a rate-limited attempt must not be parsed"),
        }
    }
    assert_eq!(attempts, 12);
    assert_eq!(sleeps, vec![250, 500, 1000, 2000, 4000, 8000, 10000, 10000, 10000, 10000, 10000]);
}

#[test]
fn detail_fetcher_treats_marker_bodies_as_rate_limits() {
    let mut f = DetailFetcher::new();
    let a = f.on_event(DetailEvent::Body { rate_limited: true });
    assert_eq!(a, DetailAction::Sleep { ms: 250 });
}

#[test]
fn detail_fetcher_network_error_exhaustion_is_a_network_failure() {
    let mut f = DetailFetcher::new();
    let mut last = DetailAction::Parse;
    for _ in 0..12 {
        last = f.on_event(DetailEvent::NetworkError);
    }
    assert_eq!(last, DetailAction::Fail { error: DetailError::Network });
}

#[test]
fn rate_limit_markers_are_recognized() {
    assert!(body_is_rate_limited("<html>Request unsuccessful. Incapsula</html>"));
    assert!(body_is_rate_limited("prefix Too Many Requests suffix"));
    assert!(!body_is_rate_limited("<html>a perfectly ordinary page</html>"));
}

fn envelope(ads_html: &str, meta: Option<&str>) -> String {
    let mut env = serde_json::Map::new();
    env.insert(
        "AdsHtml".to_string(),
        serde_json::Value::String(ads_html.to_string()),
    );
    if let Some(m) = meta {
        env.insert(
            "SearchResultsDataJson".to_string(),
            serde_json::Value::String(m.to_string()),
        );
    }
    serde_json::Value::Object(env).to_string()
}

fn one_listing() -> &'static str {
    "<div class=\"result-item\"><a class=\"inner-link\" href=\"/a/1\">x</a></div>"
}

#[test]
fn envelope_with_metadata_yields_its_max_page() {
    let body = envelope(one_listing(), Some("{\"maxPage\":7}"));
    match process_page_response(&body, &vec![]) {
        PageOutcome::Results { listings, max_page } => {
            assert_eq!(listings.len(), 1);
            assert_eq!(max_page, 7);
        },
        PageOutcome::Anomaly => panic!("a well-formed envelope is no anomaly"),
    }
}

#[test]
fn unparsable_metadata_defaults_to_one_page() {
    let body = envelope(one_listing(), Some("not json"));
    match process_page_response(&body, &vec![]) {
        PageOutcome::Results { listings, max_page } => {
            assert_eq!(listings.len(), 1);
            assert_eq!(max_page, 1);
        },
        PageOutcome::Anomaly => panic!("listings with bad metadata still count"),
    }
}

#[test]
fn empty_fragment_without_metadata_is_an_anomaly() {
    let body = envelope("", None);
    assert!(matches!(process_page_response(&body, &vec![]), PageOutcome::Anomaly));
}

#[test]
fn empty_fragment_with_unparsable_metadata_is_an_anomaly() {
    let body = envelope("", Some("not json"));
    assert!(matches!(process_page_response(&body, &vec![]), PageOutcome::Anomaly));
}

#[test]
fn parsable_metadata_makes_an_empty_fragment_a_legitimate_result() {
    let body = envelope("", Some("{\"maxPage\":1}"));
    match process_page_response(&body, &vec![]) {
        PageOutcome::Results { listings, max_page } => {
            assert_eq!(listings.len(), 0);
            assert_eq!(max_page, 1);
        },
        PageOutcome::Anomaly => panic!("valid metadata settles the page bound"),
    }
}

#[test]
fn undecodable_envelope_is_an_anomaly() {
    assert!(matches!(process_page_response("garbage", &vec![]), PageOutcome::Anomaly));
}

#[test]
fn listings_without_metadata_default_to_one_page() {
    let body = envelope(one_listing(), None);
    match process_page_response(&body, &vec![]) {
        PageOutcome::Results { listings, max_page } => {
            assert_eq!(listings.len(), 1);
            assert_eq!(max_page, 1);
        },
        PageOutcome::Anomaly => panic!("listings without metadata still count"),
    }
}

#[test]
fn payload_defaults_are_permissive() {
    let pairs = build_search_payload(2, &empty_params());
    let find = |name: &str| -> PayloadValue {
        pairs
            .iter()
            .find(|p| p.0 == name)
            .map(|p| p.1.clone())
            .expect("field must be present")
    };
    assert_eq!(pairs.len(), 25);
    assert_eq!(find("Address"), PayloadValue::Text("Kanata, ON".to_string()));
    assert_eq!(find("Proximity"), PayloadValue::Int(-1));
    assert_eq!(find("Make"), PayloadValue::Null);
    assert_eq!(find("Model"), PayloadValue::Absent);
    assert_eq!(find("PriceMin"), PayloadValue::UInt(0));
    assert_eq!(find("PriceMax"), PayloadValue::UInt(999999));
    assert_eq!(find("Skip"), PayloadValue::UInt(200));
    assert_eq!(find("Top"), PayloadValue::UInt(100));
    assert_eq!(find("IsNew"), PayloadValue::Flag(true));
    assert_eq!(find("IsUsed"), PayloadValue::Flag(true));
    assert_eq!(find("WithPhotos"), PayloadValue::Flag(true));
    assert_eq!(find("WithPrice"), PayloadValue::Flag(true));
    assert_eq!(find("YearMin"), PayloadValue::UInt(1950));
    assert_eq!(find("YearMax"), PayloadValue::UInt(2050));
    assert_eq!(find("IsDamaged"), PayloadValue::Flag(false));
    assert_eq!(find("micrositeType"), PayloadValue::UInt(1));
    assert_eq!(find("OdometerMin"), PayloadValue::Absent);
}

#[test]
fn payload_carries_the_query_fields() {
    let mut p = empty_params();
    p.make = Some("Honda".to_string());
    p.model = Some("Civic".to_string());
    p.year_min = Some(2018);
    p.year_max = Some(2022);
    p.results_per_page = Some(50);
    let pairs = build_search_payload(1, &p);
    let find = |name: &str| -> PayloadValue {
        pairs
            .iter()
            .find(|q| q.0 == name)
            .map(|q| q.1.clone())
            .expect("field must be present")
    };
    assert_eq!(find("Make"), PayloadValue::Text("Honda".to_string()));
    assert_eq!(find("Model"), PayloadValue::Text("Civic".to_string()));
    assert_eq!(find("YearMin"), PayloadValue::UInt(2018));
    assert_eq!(find("YearMax"), PayloadValue::UInt(2022));
    assert_eq!(find("Skip"), PayloadValue::UInt(50));
    assert_eq!(find("Top"), PayloadValue::UInt(50));
}
