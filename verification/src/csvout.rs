//! The row layout of the output file: a fixed header and one row per
//! detail record, with an empty string for every absent field, never a
//! textual null. The composition root writes the rows to disk.

use crate::models::{view_opt, VehicleDetails, VehicleModel};
use vstd::prelude::*;
use vstd::string::StringExecFns;

verus! {

/// The fixed column names of the output file, in order.
pub open spec fn spec_csv_header() -> Seq<Seq<char>> {
    seq![
        "Link"@,
        "Make"@,
        "Model"@,
        "Year"@,
        "Trim"@,
        "Price"@,
        "Drivetrain"@,
        "Kilometres"@,
        "Status"@,
        "Body Type"@,
        "Engine"@,
        "Cylinder"@,
        "Transmission"@,
        "Exterior Colour"@,
        "Doors"@,
        "Fuel Type"@,
        "City Fuel Economy"@,
        "Hwy Fuel Economy"@,
    ]
}

pub open spec fn field_or_empty(o: Option<Seq<char>>) -> Seq<char> {
    match o {
        Some(s) => s,
        None => Seq::empty(),
    }
}

/// One record's cells, in column order.
pub open spec fn spec_csv_record(d: VehicleModel) -> Seq<Seq<char>> {
    seq![
        field_or_empty(d.link),
        field_or_empty(d.make),
        field_or_empty(d.model),
        field_or_empty(d.year),
        field_or_empty(d.trim),
        field_or_empty(d.price),
        field_or_empty(d.drivetrain),
        field_or_empty(d.kilometres),
        field_or_empty(d.status),
        field_or_empty(d.body_type),
        field_or_empty(d.engine),
        field_or_empty(d.cylinder),
        field_or_empty(d.transmission),
        field_or_empty(d.exterior_colour),
        field_or_empty(d.doors),
        field_or_empty(d.fuel_type),
        field_or_empty(d.city_fuel_economy),
        field_or_empty(d.hwy_fuel_economy),
    ]
}

pub open spec fn string_views(ss: Seq<String>) -> Seq<Seq<char>> {
    ss.map_values(|s: String| s@)
}

/// The header row, exactly as `spec_csv_header` describes.
pub fn csv_header() -> (r: Vec<String>)
    ensures
        string_views(r@) == spec_csv_header(),
{
    let mut v: Vec<String> = Vec::new();
    v.push(String::from_str("Link"));
    v.push(String::from_str("Make"));
    v.push(String::from_str("Model"));
    v.push(String::from_str("Year"));
    v.push(String::from_str("Trim"));
    v.push(String::from_str("Price"));
    v.push(String::from_str("Drivetrain"));
    v.push(String::from_str("Kilometres"));
    v.push(String::from_str("Status"));
    v.push(String::from_str("Body Type"));
    v.push(String::from_str("Engine"));
    v.push(String::from_str("Cylinder"));
    v.push(String::from_str("Transmission"));
    v.push(String::from_str("Exterior Colour"));
    v.push(String::from_str("Doors"));
    v.push(String::from_str("Fuel Type"));
    v.push(String::from_str("City Fuel Economy"));
    v.push(String::from_str("Hwy Fuel Economy"));
    proof {
        assert(string_views(v@) =~= spec_csv_header());
    }
    v
}

fn cell(o: &Option<String>) -> (r: String)
    ensures
        r@ == field_or_empty(view_opt(*o)),
{
    match o {
        Some(s) => s.clone(),
        None => String::new(),
    }
}

/// One record's row, exactly as `spec_csv_record` describes: an absent
/// field becomes the empty string.
pub fn csv_record(d: &VehicleDetails) -> (r: Vec<String>)
    ensures
        string_views(r@) == spec_csv_record(d@),
{
    let mut v: Vec<String> = Vec::new();
    v.push(cell(&d.link));
    v.push(cell(&d.make));
    v.push(cell(&d.model));
    v.push(cell(&d.year));
    v.push(cell(&d.trim));
    v.push(cell(&d.price));
    v.push(cell(&d.drivetrain));
    v.push(cell(&d.kilometres));
    v.push(cell(&d.status));
    v.push(cell(&d.body_type));
    v.push(cell(&d.engine));
    v.push(cell(&d.cylinder));
    v.push(cell(&d.transmission));
    v.push(cell(&d.exterior_colour));
    v.push(cell(&d.doors));
    v.push(cell(&d.fuel_type));
    v.push(cell(&d.city_fuel_economy));
    v.push(cell(&d.hwy_fuel_economy));
    proof {
        assert(string_views(v@) =~= spec_csv_record(d@));
    }
    v
}

} // verus!
