use autoscraper::detail::extract_vehicle_info_from_html;
use autoscraper::listing::parse_listing_html;

fn block(link: &str, title: &str, price: &str, mileage: &str, location: &str) -> String {
    format!(
        "<div class=\"result-item\"><a class=\"inner-link\" href=\"{}\">go</a>\
         <span class=\"title-with-trim\"> {} </span>\
         <span class=\"price-amount\">{}</span>\
         <span class=\"odometer-proximity\">{}</span>\
         <span class=\"proximity-text\">{}</span></div>",
        link, title, price, mileage, location
    )
}

#[test]
fn parses_one_block_with_all_fields() {
    let html = block("/a/1", "2019 Honda Civic", "$20,000", "50,000 km", "Ottawa, ON");
    let out = parse_listing_html(&html, &vec![]);
    assert_eq!(out.len(), 1);
    assert_eq!(out[0].link, "https://www.autotrader.ca/a/1");
    assert_eq!(out[0].title.as_deref(), Some("2019 Honda Civic"));
    assert_eq!(out[0].price.as_deref(), Some("$20,000"));
    assert_eq!(out[0].mileage.as_deref(), Some("50,000 km"));
    assert_eq!(out[0].location.as_deref(), Some("Ottawa, ON"));
}

#[test]
fn parses_single_quoted_attributes() {
    let html = "<div class='result-item'><a class='inner-link' href='/a/1'></a>\
                <span class='title-with-trim'> Honda Civic </span>\
                <span class='price-amount'>$20,000</span></div>";
    let out = parse_listing_html(html, &vec![]);
    assert_eq!(out.len(), 1);
    assert_eq!(out[0].link, "https://www.autotrader.ca/a/1");
    assert_eq!(out[0].title.as_deref(), Some("Honda Civic"));
    assert_eq!(out[0].price.as_deref(), Some("$20,000"));
    assert_eq!(out[0].mileage, None);
    assert_eq!(out[0].location, None);
}

#[test]
fn mixed_quote_styles_pick_the_first_href() {
    let html = "<div class=\"result-item\"><a class=\"inner-link\" href='/sq/1'>x</a></div>\
                <div class='result-item'><a class='inner-link' href=\"/dq/2\">x</a></div>";
    let out = parse_listing_html(html, &vec![]);
    assert_eq!(out.len(), 2);
    assert_eq!(out[0].link, "https://www.autotrader.ca/sq/1");
    assert_eq!(out[1].link, "https://www.autotrader.ca/dq/2");
}

#[test]
fn absolute_links_are_kept_as_they_are() {
    let html = block("https://elsewhere.example/x", "T", "1", "2", "3");
    let out = parse_listing_html(&html, &vec![]);
    assert_eq!(out[0].link, "https://elsewhere.example/x");
}

#[test]
fn preserves_document_order_across_blocks() {
    let html = format!("{}{}", block("/a/1", "First", "1", "1", "1"), block("/a/2", "Second", "2", "2", "2"));
    let out = parse_listing_html(&html, &vec![]);
    assert_eq!(out.len(), 2);
    assert_eq!(out[0].title.as_deref(), Some("First"));
    assert_eq!(out[1].title.as_deref(), Some("Second"));
}

#[test]
fn block_without_link_is_dropped() {
    let html = "<div class=\"result-item\"><span class=\"title-with-trim\">No link here</span></div>";
    let out = parse_listing_html(html, &vec![]);
    assert_eq!(out.len(), 0);
}

#[test]
fn missing_optional_fields_become_absent() {
    let html = "<div class=\"result-item\"><a class=\"inner-link\" href=\"/only\">x</a></div>";
    let out = parse_listing_html(html, &vec![]);
    assert_eq!(out.len(), 1);
    assert_eq!(out[0].link, "https://www.autotrader.ca/only");
    assert_eq!(out[0].title, None);
    assert_eq!(out[0].price, None);
    assert_eq!(out[0].mileage, None);
    assert_eq!(out[0].location, None);
}

#[test]
fn excluded_title_never_appears_in_any_case() {
    let html = format!(
        "{}{}{}",
        block("/a/1", "2019 Honda Civic", "1", "1", "1"),
        block("/a/2", "2018 Honda Civic SALVAGE title", "2", "2", "2"),
        block("/a/3", "2020 Honda Civic salvage unit", "3", "3", "3"),
    );
    let out = parse_listing_html(&html, &vec!["Salvage".to_string()]);
    assert_eq!(out.len(), 1);
    assert_eq!(out[0].link, "https://www.autotrader.ca/a/1");
}

#[test]
fn empty_fragment_yields_nothing() {
    let out = parse_listing_html("", &vec!["x".to_string()]);
    assert_eq!(out.len(), 0);
}

fn detail_page(page_data: &str) -> String {
    format!(
        "<html><body><script>window.__TRADER__ = x; pageData: {}, more: 1</script></body></html>",
        page_data
    )
}

#[test]
fn extracts_hero_fields_and_spec_list() {
    let html = detail_page(
        "{\"HeroViewModel\":{\"Make\":\"Honda\",\"Model\":\"Civic\",\"Year\":2020,\
         \"Trim\":\"EX\",\"Price\":\"25,000\",\"mileage\":\"30,000 km\",\"drivetrain\":\"FWD\"},\
         \"Specifications\":{\"Specs\":[\
           {\"Key\":\"Status\",\"Value\":\"Used\"},\
           {\"Key\":\"Fuel Type\",\"Value\":\"Gas\"},\
           {\"Key\":\"City Fuel Economy\",\"Value\":\"7.9L/100km\"},\
           {\"Key\":\"Ignored Key\",\"Value\":\"whatever\"}]}}",
    );
    let d = extract_vehicle_info_from_html(&html, "https://www.autotrader.ca/a/1").unwrap();
    assert_eq!(d.make.as_deref(), Some("Honda"));
    assert_eq!(d.model.as_deref(), Some("Civic"));
    assert_eq!(d.year.as_deref(), Some("2020"));
    assert_eq!(d.trim.as_deref(), Some("EX"));
    assert_eq!(d.price.as_deref(), Some("25,000"));
    assert_eq!(d.kilometres.as_deref(), Some("30,000 km"));
    assert_eq!(d.drivetrain.as_deref(), Some("FWD"));
    assert_eq!(d.status.as_deref(), Some("Used"));
    assert_eq!(d.fuel_type.as_deref(), Some("Gas"));
    assert_eq!(d.city_fuel_economy.as_deref(), Some("7.9"));
    assert_eq!(d.hwy_fuel_economy, None);
    assert_eq!(d.link.as_deref(), Some("https://www.autotrader.ca/a/1"));
}

#[test]
fn balanced_braces_pick_the_exact_object_boundary() {
    // nested object-valued fields: the scan must stop at the matching
    // brace, not at the first closing brace
    let html = detail_page(
        "{\"HeroViewModel\":{\"Make\":\"Kia\",\"Year\":2021},\
         \"Specifications\":{\"Specs\":[{\"Key\":\"Doors\",\"Value\":\"4\"}]}}",
    );
    let d = extract_vehicle_info_from_html(&html, "u").unwrap();
    assert_eq!(d.make.as_deref(), Some("Kia"));
    assert_eq!(d.year.as_deref(), Some("2021"));
    assert_eq!(d.doors.as_deref(), Some("4"));
}

#[test]
fn later_spec_entries_overwrite_earlier_ones() {
    let html = detail_page(
        "{\"Specifications\":{\"Specs\":[\
           {\"Key\":\"Engine\",\"Value\":\"old\"},\
           {\"Key\":\"Engine\",\"Value\":\"new\"}]}}",
    );
    let d = extract_vehicle_info_from_html(&html, "u").unwrap();
    assert_eq!(d.engine.as_deref(), Some("new"));
    assert_eq!(d.make, None);
}

#[test]
fn missing_marker_fails_with_the_url() {
    let err = extract_vehicle_info_from_html("<html>no data</html>", "https://x/y").unwrap_err();
    assert_eq!(err.url, "https://x/y");
}

#[test]
fn unbalanced_object_fails() {
    let html = "<script>__TRADER__ pageData: {\"a\": {\"b\": 1}</script>";
    assert!(extract_vehicle_info_from_html(html, "u").is_err());
}

#[test]
fn invalid_json_fails() {
    let html = detail_page("{not json}");
    assert!(extract_vehicle_info_from_html(&html, "u").is_err());
}
