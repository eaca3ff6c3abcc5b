//! Extraction of one vehicle's details from its detail page.
//!
//! The page carries its data in an inline script: after the `__TRADER__`
//! marker, the text `pageData: ` is followed by a JSON object. The object
//! is delimited by scanning for the brace that balances its opening brace
//! (string content is not brace-aware; the document structure is trusted).
//! The object's `HeroViewModel` fields and its `Specifications.Specs`
//! key/value list populate the detail row; unknown keys are ignored and
//! fuel-economy values are cut at the first unit letter and trimmed.

use crate::jsonval::{
    get_str_field, get_u64_field, json_from_str, json_get, json_as_array, json_model, json_parse,
    obj_get, read_str_field, read_u64_field, JsonVal,
};
use crate::models::{VehicleDetails, VehicleModel};
use crate::text::{
    char_vec, dec_str, extract_string, find_from, first_match_from, lemma_first_match_from,
    str_chars, str_eq, trim_bounds, trimmed, u64_to_string,
};
use vstd::prelude::*;
use vstd::string::StrSliceExecFns;
use vstd::string::StringExecFns;

verus! {

/// Extraction failed on one page; carries the page's address for
/// diagnostics.
#[derive(Debug, Clone, PartialEq)]
pub struct ExtractionError {
    pub url: String,
}

pub open spec fn trader_marker() -> Seq<char> {
    "__TRADER__"@
}

pub open spec fn page_data_marker() -> Seq<char> {
    "pageData: "@
}

// --- balanced-brace delimitation, as mathematics ---

/// The position of the brace that closes `depth` open braces, scanning
/// from `i`.
pub open spec fn brace_close(t: Seq<char>, i: int, depth: int) -> Option<int>
    decreases t.len() - i,
    when 0 <= i <= t.len() && depth >= 1
{
    if i >= t.len() {
        None
    } else if t[i] == '{' {
        brace_close(t, i + 1, depth + 1)
    } else if t[i] == '}' {
        if depth == 1 {
            Some(i)
        } else {
            brace_close(t, i + 1, depth - 1)
        }
    } else {
        brace_close(t, i + 1, depth)
    }
}

/// The first balanced object at or after `from`: the character range from
/// the first `{` through its matching `}`, inclusive of both.
pub open spec fn balanced_object(t: Seq<char>, from: int) -> Option<(int, int)> {
    match first_match_from(t, seq!['{'], from) {
        Some(j) => match brace_close(t, j + 1, 1) {
            Some(k) => Some((j, k + 1)),
            None => None,
        },
        None => None,
    }
}

/// Finds the first balanced object at or after `from`, exactly as
/// `balanced_object` describes it.
pub fn find_balanced_object(t: &Vec<char>, from: usize) -> (r: Option<(usize, usize)>)
    ensures
        r matches Some(p) ==> {
            &&& balanced_object(t@, from as int) == Some((p.0 as int, p.1 as int))
            &&& p.0 < p.1 <= t@.len()
        },
        r is None ==> balanced_object(t@, from as int) is None,
{
    let n = t.len();
    let ob = char_vec('{');
    match find_from(t, &ob, from) {
        None => None,
        Some(j) => {
            proof {
                lemma_first_match_from(t@, seq!['{'], from as int);
            }
            let mut i = j + 1;
            let mut depth: usize = 1;
            loop
                invariant
                    n == t@.len(),
                    first_match_from(t@, seq!['{'], from as int) == Some(j as int),
                    j < n,
                    j + 1 <= i <= n,
                    1 <= depth <= i,
                    brace_close(t@, j + 1, 1) == brace_close(t@, i as int, depth as int),
                ensures
                    brace_close(t@, j + 1, 1) is None,
                decreases n - i,
            {
                if i >= n {
                    break ;
                }
                let c = t[i];
                if c == '{' {
                    depth += 1;
                } else if c == '}' {
                    if depth == 1 {
                        proof {
                            assert(brace_close(t@, i as int, depth as int) == Some(i as int));
                        }
                        return Some((j, i + 1));
                    }
                    depth -= 1;
                }
                i += 1;
            }
            None
        },
    }
}

// --- reading the page-data object, as mathematics ---

pub open spec fn opt_str(o: Option<JsonVal>, key: Seq<char>) -> Option<Seq<char>> {
    match o {
        Some(h) => get_str_field(h, key),
        None => None,
    }
}

pub open spec fn opt_u64(o: Option<JsonVal>, key: Seq<char>) -> Option<u64> {
    match o {
        Some(h) => get_u64_field(h, key),
        None => None,
    }
}

/// The detail row before the specification list is applied: the
/// `HeroViewModel` fields, with the year rendered in decimal, and the
/// page's own address as the link.
pub open spec fn base_details(j: JsonVal, url: Seq<char>) -> VehicleModel {
    let hero = obj_get(j, "HeroViewModel"@);
    VehicleModel {
        make: opt_str(hero, "Make"@),
        model: opt_str(hero, "Model"@),
        year: match opt_u64(hero, "Year"@) {
            Some(y) => Some(dec_str(y as int)),
            None => None,
        },
        trim: opt_str(hero, "Trim"@),
        price: opt_str(hero, "Price"@),
        drivetrain: opt_str(hero, "drivetrain"@),
        kilometres: opt_str(hero, "mileage"@),
        status: None,
        body_type: None,
        engine: None,
        cylinder: None,
        transmission: None,
        exterior_colour: None,
        doors: None,
        fuel_type: None,
        city_fuel_economy: None,
        hwy_fuel_economy: None,
        link: Some(url),
    }
}

/// The `Specifications.Specs` list of the page-data object, empty when
/// absent or not a list.
pub open spec fn spec_pairs(j: JsonVal) -> Seq<JsonVal> {
    match obj_get(j, "Specifications"@) {
        Some(sv) => match obj_get(sv, "Specs"@) {
            Some(JsonVal::Arr { items }) => items,
            _ => Seq::empty(),
        },
        _ => Seq::empty(),
    }
}

/// A fuel-economy value cut at the first `L` (the unit separator) and
/// trimmed.
pub open spec fn fuel_trim(v: Seq<char>) -> Seq<char> {
    let e = match first_match_from(v, seq!['L'], 0) {
        Some(l) => l,
        None => v.len() as int,
    };
    trimmed(v, 0, e)
}

/// One entry of the specification list applied to the row: a recognized
/// key populates its field, an unknown key changes nothing.
pub open spec fn apply_spec_item(d: VehicleModel, item: JsonVal) -> VehicleModel {
    match (get_str_field(item, "Key"@), get_str_field(item, "Value"@)) {
        (Some(k), Some(v)) => {
            if k == "Status"@ {
                VehicleModel { status: Some(v), ..d }
            } else if k == "Body Type"@ {
                VehicleModel { body_type: Some(v), ..d }
            } else if k == "Engine"@ {
                VehicleModel { engine: Some(v), ..d }
            } else if k == "Cylinder"@ {
                VehicleModel { cylinder: Some(v), ..d }
            } else if k == "Transmission"@ {
                VehicleModel { transmission: Some(v), ..d }
            } else if k == "Exterior Colour"@ {
                VehicleModel { exterior_colour: Some(v), ..d }
            } else if k == "Doors"@ {
                VehicleModel { doors: Some(v), ..d }
            } else if k == "Fuel Type"@ {
                VehicleModel { fuel_type: Some(v), ..d }
            } else if k == "City Fuel Economy"@ {
                VehicleModel { city_fuel_economy: Some(fuel_trim(v)), ..d }
            } else if k == "Hwy Fuel Economy"@ {
                VehicleModel { hwy_fuel_economy: Some(fuel_trim(v)), ..d }
            } else {
                d
            }
        },
        _ => d,
    }
}

/// The specification list applied in order; a later entry overwrites an
/// earlier one with the same key.
pub open spec fn apply_spec_items(d: VehicleModel, items: Seq<JsonVal>) -> VehicleModel
    decreases items.len(),
{
    if items.len() == 0 {
        d
    } else {
        apply_spec_item(apply_spec_items(d, items.drop_last()), items.last())
    }
}

/// The detail row a parsed page-data object yields.
pub open spec fn spec_details_of(j: JsonVal, url: Seq<char>) -> VehicleModel {
    apply_spec_items(base_details(j, url), spec_pairs(j))
}

/// Where the page-data JSON object lies in the document: after the
/// `__TRADER__` marker and the `pageData: ` prefix that follows it.
pub open spec fn detail_json_range(t: Seq<char>) -> Option<(int, int)> {
    match first_match_from(t, trader_marker(), 0) {
        Some(m) => match first_match_from(t, page_data_marker(), m) {
            Some(p) => balanced_object(t, p + page_data_marker().len()),
            None => None,
        },
        None => None,
    }
}

/// What extraction yields on a whole document: the detail row of the
/// embedded page-data object, or nothing when the object is missing or
/// not valid JSON.
pub open spec fn spec_extract_details(t: Seq<char>, url: Seq<char>) -> Option<VehicleModel> {
    match detail_json_range(t) {
        Some(r) => match json_parse(t.subrange(r.0, r.1)) {
            Some(j) => Some(spec_details_of(j, url)),
            None => None,
        },
        None => None,
    }
}

// --- the extraction, as code ---

fn fuel_economy_prefix(v: &String) -> (r: String)
    ensures
        r@ == fuel_trim(v@),
{
    let vc = str_chars(v.as_str());
    let lv = char_vec('L');
    let e = match find_from(&vc, &lv, 0) {
        Some(l) => {
            proof {
                lemma_first_match_from(vc@, seq!['L'], 0);
            }
            l
        },
        None => vc.len(),
    };
    let tr = trim_bounds(&vc, 0, e);
    extract_string(v.as_str(), tr.0, tr.1)
}

/// Extracts a detail row from a detail page, exactly as
/// `spec_extract_details` describes; on failure the error carries the
/// page's address.
pub fn extract_vehicle_info_from_html(html_content: &str, url: &str) -> (r: Result<
    VehicleDetails,
    ExtractionError,
>)
    ensures
        match spec_extract_details(html_content@, url@) {
            Some(m) => r matches Ok(d) && d@ == m,
            None => r matches Err(e) && e.url@ == url@,
        },
{
    let t = str_chars(html_content);
    let tn = t.len();
    let trader_m = str_chars("__TRADER__");
    let pd_m = str_chars("pageData: ");
    let failure = ExtractionError { url: url.to_owned() };
    let m = match find_from(&t, &trader_m, 0) {
        Some(m) => m,
        None => {
            return Err(failure);
        },
    };
    let p = match find_from(&t, &pd_m, m) {
        Some(p) => p,
        None => {
            return Err(failure);
        },
    };
    proof {
        lemma_first_match_from(t@, pd_m@, m as int);
    }
    let range = match find_balanced_object(&t, p + pd_m.len()) {
        Some(range) => range,
        None => {
            return Err(failure);
        },
    };
    let json_text = extract_string(html_content, range.0, range.1);
    let parsed = match json_from_str(json_text.as_str()) {
        Some(parsed) => parsed,
        None => {
            return Err(failure);
        },
    };
    let ghost jm = json_model(parsed);
    let v = &parsed;
    let hero_opt = json_get(v, "HeroViewModel");
    let mut d = VehicleDetails {
        make: None,
        model: None,
        year: None,
        trim: None,
        price: None,
        drivetrain: None,
        kilometres: None,
        status: None,
        body_type: None,
        engine: None,
        cylinder: None,
        transmission: None,
        exterior_colour: None,
        doors: None,
        fuel_type: None,
        city_fuel_economy: None,
        hwy_fuel_economy: None,
        link: Some(url.to_owned()),
    };
    match hero_opt {
        Some(hero) => {
            d.make = read_str_field(hero, "Make");
            d.model = read_str_field(hero, "Model");
            d.year = match read_u64_field(hero, "Year") {
                Some(y) => Some(u64_to_string(y)),
                None => None,
            };
            d.trim = read_str_field(hero, "Trim");
            d.price = read_str_field(hero, "Price");
            d.drivetrain = read_str_field(hero, "drivetrain");
            d.kilometres = read_str_field(hero, "mileage");
        },
        None => {},
    }
    proof {
        assert(d@ == base_details(jm, url@));
    }
    let ghost base = d@;
    let specs_opt = match json_get(v, "Specifications") {
        Some(sv) => match json_get(sv, "Specs") {
            Some(sp) => json_as_array(sp),
            None => None,
        },
        None => None,
    };
    match specs_opt {
        Some(arr) => {
            let ghost items = spec_pairs(jm);
            proof {
                assert(arr@.len() == items.len());
            }
            let an = arr.len();
            let mut idx: usize = 0;
            while idx < an
                invariant
                    an == arr@.len(),
                    an == items.len(),
                    idx <= an,
                    forall|i: int| 0 <= i < items.len() ==> json_model(arr@[i]) == items[i],
                    d@ == apply_spec_items(base, items.take(idx as int)),
                decreases an - idx,
            {
                let item = &arr[idx];
                let ghost before = d@;
                let key = read_str_field(item, "Key");
                let value = read_str_field(item, "Value");
                match (key, value) {
                    (Some(k), Some(val)) => {
                        if str_eq(k.as_str(), "Status") {
                            d.status = Some(val);
                        } else if str_eq(k.as_str(), "Body Type") {
                            d.body_type = Some(val);
                        } else if str_eq(k.as_str(), "Engine") {
                            d.engine = Some(val);
                        } else if str_eq(k.as_str(), "Cylinder") {
                            d.cylinder = Some(val);
                        } else if str_eq(k.as_str(), "Transmission") {
                            d.transmission = Some(val);
                        } else if str_eq(k.as_str(), "Exterior Colour") {
                            d.exterior_colour = Some(val);
                        } else if str_eq(k.as_str(), "Doors") {
                            d.doors = Some(val);
                        } else if str_eq(k.as_str(), "Fuel Type") {
                            d.fuel_type = Some(val);
                        } else if str_eq(k.as_str(), "City Fuel Economy") {
                            d.city_fuel_economy = Some(fuel_economy_prefix(&val));
                        } else if str_eq(k.as_str(), "Hwy Fuel Economy") {
                            d.hwy_fuel_economy = Some(fuel_economy_prefix(&val));
                        }
                    },
                    _ => {},
                }
                proof {
                    assert(d@ == apply_spec_item(before, items[idx as int]));
                    assert(items.take(idx + 1).drop_last() =~= items.take(idx as int));
                    assert(items.take(idx + 1).last() == items[idx as int]);
                }
                idx += 1;
            }
            proof {
                assert(items.take(an as int) =~= items);
            }
        },
        None => {
            proof {
                assert(spec_pairs(jm) =~= Seq::<JsonVal>::empty());
                assert(apply_spec_items(base, spec_pairs(jm)) == base);
            }
        },
    }
    Ok(d)
}

} // verus!
