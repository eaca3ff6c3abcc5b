use autoscraper::aggregate::{
    dedup_by_link, filter_inclusion, finalize_listings, DetailAggregator, DetailTaskResult,
};
use autoscraper::models::{ListingResult, SearchParams, VehicleDetails};

fn listing(link: &str, title: Option<&str>, location: Option<&str>) -> ListingResult {
    ListingResult {
        link: link.to_string(),
        title: title.map(|s| s.to_string()),
        price: None,
        mileage: None,
        location: location.map(|s| s.to_string()),
    }
}

fn params_with_inclusion(kw: Option<&str>) -> SearchParams {
    SearchParams {
        make: None,
        model: None,
        trim: None,
        color: None,
        year_min: None,
        year_max: None,
        price_min: None,
        price_max: None,
        odometer_min: None,
        odometer_max: None,
        address: None,
        proximity: None,
        is_new: None,
        is_used: None,
        is_damaged: None,
        with_photos: None,
        drivetrain: None,
        transmission: None,
        body_type: None,
        num_doors: None,
        seating_capacity: None,
        exclusions: None,
        inclusion: kw.map(|s| s.to_string()),
        results_per_page: None,
    }
}

#[test]
fn dedup_keeps_one_entry_per_case_insensitive_link() {
    let input = vec![
        listing("https://site/A/1", Some("first"), None),
        listing("https://site/a/2", Some("second"), None),
        listing("https://site/a/1", Some("duplicate of first"), None),
        listing("HTTPS://SITE/A/2", Some("duplicate of second"), None),
        listing("https://site/a/3", Some("third"), None),
    ];
    let out = dedup_by_link(input);
    assert_eq!(out.len(), 3);
    assert_eq!(out[0].link, "https://site/A/1");
    assert_eq!(out[0].title.as_deref(), Some("first"));
    assert_eq!(out[1].link, "https://site/a/2");
    assert_eq!(out[1].title.as_deref(), Some("second"));
    assert_eq!(out[2].link, "https://site/a/3");
}

#[test]
fn dedup_preserves_first_seen_fields() {
    let mut first = listing("https://site/x", Some("keep me"), Some("Ottawa"));
    first.price = Some("$1".to_string());
    let second = listing("https://site/X", Some("drop me"), Some("Toronto"));
    let out = dedup_by_link(vec![first.clone(), second]);
    assert_eq!(out.len(), 1);
    assert_eq!(out[0], first);
}

#[test]
fn inclusion_filter_matches_title_or_location_in_any_case() {
    let input = vec![
        listing("l1", Some("2019 Honda Civic Hybrid"), None),
        listing("l2", Some("2019 HONDA CIVIC HYBRID"), None),
        listing("l3", Some("2019 Honda Civic"), Some("Hybridville")),
        listing("l4", Some("2019 Honda Civic"), Some("Ottawa")),
        listing("l5", None, None),
    ];
    let out = filter_inclusion(input, &"hybrid".to_string());
    let links: Vec<&str> = out.iter().map(|l| l.link.as_str()).collect();
    assert_eq!(links, vec!["l1", "l2", "l3"]);
}

#[test]
fn finalize_dedups_then_filters() {
    let input = vec![
        listing("https://site/1", Some("Accord Hybrid"), None),
        listing("https://site/2", Some("Accord"), None),
        listing("HTTPS://SITE/1", Some("Accord Hybrid again"), None),
    ];
    let out = finalize_listings(input, &params_with_inclusion(Some("hybrid")));
    assert_eq!(out.len(), 1);
    assert_eq!(out[0].link, "https://site/1");
}

#[test]
fn empty_inclusion_keyword_filters_nothing() {
    let input = vec![
        listing("https://site/1", Some("Accord"), None),
        listing("https://site/2", None, None),
    ];
    let out = finalize_listings(input, &params_with_inclusion(Some("")));
    assert_eq!(out.len(), 2);
}

fn some_details() -> VehicleDetails {
    VehicleDetails {
        make: Some("Honda".to_string()),
        model: None,
        year: None,
        trim: None,
        price: None,
        drivetrain: None,
        kilometres: None,
        status: None,
        body_type: None,
        engine: None,
        cylinder: None,
        transmission: None,
        exterior_colour: None,
        doors: None,
        fuel_type: None,
        city_fuel_economy: None,
        hwy_fuel_economy: None,
        link: Some("https://site/1".to_string()),
    }
}

#[test]
fn aggregator_counts_successes_and_both_failure_kinds() {
    let mut agg = DetailAggregator::new(4);
    agg.record(DetailTaskResult::Fetched(some_details()));
    agg.record(DetailTaskResult::Failed);
    agg.record(DetailTaskResult::Crashed);
    assert!(!agg.done());
    agg.record(DetailTaskResult::Fetched(some_details()));
    assert!(agg.done());
    assert_eq!(agg.successes.len(), 2);
    assert_eq!(agg.failed, 2);
    assert_eq!(agg.processed, 4);
}

#[test]
fn aggregator_reports_every_twenty_and_at_the_end() {
    let mut agg = DetailAggregator::new(25);
    let mut reported: Vec<u64> = Vec::new();
    for _ in 0..25 {
        agg.record(DetailTaskResult::Failed);
        if agg.should_report() {
            reported.push(agg.processed);
        }
    }
    assert_eq!(reported, vec![20, 25]);
}
