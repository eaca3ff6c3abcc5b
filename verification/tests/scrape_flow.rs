use autoscraper::aggregate::finalize_listings;
use autoscraper::fetch::{process_page_response, PageOutcome};
use autoscraper::models::{ListingResult, SearchParams};

fn params() -> SearchParams {
    SearchParams {
        make: Some("Honda".to_string()),
        model: Some("Civic".to_string()),
        trim: None,
        color: None,
        year_min: Some(2018),
        year_max: Some(2022),
        price_min: None,
        price_max: None,
        odometer_min: None,
        odometer_max: None,
        address: None,
        proximity: None,
        is_new: None,
        is_used: None,
        is_damaged: None,
        with_photos: None,
        drivetrain: None,
        transmission: None,
        body_type: None,
        num_doors: None,
        seating_capacity: None,
        exclusions: Some(vec!["salvage".to_string()]),
        inclusion: None,
        results_per_page: None,
    }
}

fn block(link: &str, title: &str) -> String {
    format!(
        "<div class=\"result-item\"><a class=\"inner-link\" href=\"{}\">go</a>\
         <span class=\"title-with-trim\">{}</span></div>",
        link, title
    )
}

fn envelope(ads_html: &str, max_page: u32) -> String {
    let mut env = serde_json::Map::new();
    env.insert(
        "AdsHtml".to_string(),
        serde_json::Value::String(ads_html.to_string()),
    );
    env.insert(
        "SearchResultsDataJson".to_string(),
        serde_json::Value::String(format!("{{\"maxPage\":{}}}", max_page)),
    );
    serde_json::Value::Object(env).to_string()
}

/// A stub server: three pages of two listings each. One listing repeats
/// the first page's first listing under a different case, and one title
/// carries an exclusion term.
#[test]
fn three_stub_pages_yield_four_unique_listings() {
    let p = params();
    let exclusions = p.exclusions.clone().unwrap_or_default();

    let page_bodies = vec![
        envelope(
            &format!(
                "{}{}",
                block("/a/honda/civic/1", "2019 Honda Civic"),
                block("/a/honda/civic/2", "2020 Honda Civic"),
            ),
            3,
        ),
        envelope(
            &format!(
                "{}{}",
                block("/a/honda/civic/3", "2018 Honda Civic"),
                block("/a/honda/civic/4", "2021 Honda Civic SALVAGE"),
            ),
            3,
        ),
        envelope(
            &format!(
                "{}{}",
                block("/A/HONDA/CIVIC/1", "2019 Honda Civic duplicate"),
                block("/a/honda/civic/5", "2022 Honda Civic"),
            ),
            3,
        ),
    ];

    let mut max_page_seen: u32 = 0;
    let mut all: Vec<ListingResult> = Vec::new();
    for body in &page_bodies {
        match process_page_response(body, &exclusions) {
            PageOutcome::Results { mut listings, max_page } => {
                max_page_seen = max_page;
                all.append(&mut listings);
            },
            PageOutcome::Anomaly => panic!("the stub pages are well-formed"),
        }
    }
    assert_eq!(max_page_seen, 3);
    // six listings served; one was excluded by title at extraction
    assert_eq!(all.len(), 5);

    let unique = finalize_listings(all, &p);
    assert_eq!(unique.len(), 4);
    let links: Vec<&str> = unique.iter().map(|l| l.link.as_str()).collect();
    assert_eq!(
        links,
        vec![
            "https://www.autotrader.ca/a/honda/civic/1",
            "https://www.autotrader.ca/a/honda/civic/2",
            "https://www.autotrader.ca/a/honda/civic/3",
            "https://www.autotrader.ca/a/honda/civic/5",
        ]
    );
}
