//! Data model of one scrape: the query description, the summary rows the
//! search pages yield, and the detail rows the vehicle pages yield.

use vstd::prelude::*;

verus! {

/// The view of an optional string: present text as a character sequence.
pub open spec fn view_opt(o: Option<String>) -> Option<Seq<char>> {
    match o {
        Some(s) => Some(s@),
        None => None,
    }
}

/// Immutable query description, supplied once per scrape and read-only
/// throughout. Absent numeric bounds and flags are given permissive
/// defaults when the request payload is built.
#[derive(Debug, Clone)]
pub struct SearchParams {
    pub make: Option<String>,
    pub model: Option<String>,
    pub trim: Option<String>,
    pub color: Option<String>,
    pub year_min: Option<u32>,
    pub year_max: Option<u32>,
    pub price_min: Option<u32>,
    pub price_max: Option<u32>,
    pub odometer_min: Option<u32>,
    pub odometer_max: Option<u32>,
    pub address: Option<String>,
    pub proximity: Option<i32>,
    pub is_new: Option<bool>,
    pub is_used: Option<bool>,
    pub is_damaged: Option<bool>,
    pub with_photos: Option<bool>,
    pub drivetrain: Option<String>,
    pub transmission: Option<String>,
    pub body_type: Option<String>,
    pub num_doors: Option<u32>,
    pub seating_capacity: Option<u32>,
    pub exclusions: Option<Vec<String>>,
    pub inclusion: Option<String>,
    pub results_per_page: Option<u32>,
}

/// Copies an optional string; the view is kept.
pub fn clone_opt(o: &Option<String>) -> (r: Option<String>)
    ensures
        view_opt(r) == view_opt(*o),
{
    match o {
        Some(s) => Some(s.clone()),
        None => None,
    }
}

/// One summary row from a search-results page. The link is always present
/// and identifies the listing within a scrape; all other fields are
/// best-effort text.
#[derive(Debug, PartialEq)]
pub struct ListingResult {
    pub link: String,
    pub title: Option<String>,
    pub price: Option<String>,
    pub mileage: Option<String>,
    pub location: Option<String>,
}

impl Clone for ListingResult {
    fn clone(&self) -> (res: Self)
        ensures
            res@ == self@,
    {
        ListingResult {
            link: self.link.clone(),
            title: clone_opt(&self.title),
            price: clone_opt(&self.price),
            mileage: clone_opt(&self.mileage),
            location: clone_opt(&self.location),
        }
    }
}

/// Mathematical view of a summary row.
pub ghost struct ListingModel {
    pub link: Seq<char>,
    pub title: Option<Seq<char>>,
    pub price: Option<Seq<char>>,
    pub mileage: Option<Seq<char>>,
    pub location: Option<Seq<char>>,
}

impl View for ListingResult {
    type V = ListingModel;

    open spec fn view(&self) -> ListingModel {
        ListingModel {
            link: self.link@,
            title: view_opt(self.title),
            price: view_opt(self.price),
            mileage: view_opt(self.mileage),
            location: view_opt(self.location),
        }
    }
}

/// One detail row extracted from a vehicle detail page. Source data is
/// unreliable, so every field is optional text; partial records are valid.
#[derive(Debug, Clone, PartialEq)]
pub struct VehicleDetails {
    pub make: Option<String>,
    pub model: Option<String>,
    pub year: Option<String>,
    pub trim: Option<String>,
    pub price: Option<String>,
    pub drivetrain: Option<String>,
    pub kilometres: Option<String>,
    pub status: Option<String>,
    pub body_type: Option<String>,
    pub engine: Option<String>,
    pub cylinder: Option<String>,
    pub transmission: Option<String>,
    pub exterior_colour: Option<String>,
    pub doors: Option<String>,
    pub fuel_type: Option<String>,
    pub city_fuel_economy: Option<String>,
    pub hwy_fuel_economy: Option<String>,
    pub link: Option<String>,
}

/// Mathematical view of a detail row.
pub ghost struct VehicleModel {
    pub make: Option<Seq<char>>,
    pub model: Option<Seq<char>>,
    pub year: Option<Seq<char>>,
    pub trim: Option<Seq<char>>,
    pub price: Option<Seq<char>>,
    pub drivetrain: Option<Seq<char>>,
    pub kilometres: Option<Seq<char>>,
    pub status: Option<Seq<char>>,
    pub body_type: Option<Seq<char>>,
    pub engine: Option<Seq<char>>,
    pub cylinder: Option<Seq<char>>,
    pub transmission: Option<Seq<char>>,
    pub exterior_colour: Option<Seq<char>>,
    pub doors: Option<Seq<char>>,
    pub fuel_type: Option<Seq<char>>,
    pub city_fuel_economy: Option<Seq<char>>,
    pub hwy_fuel_economy: Option<Seq<char>>,
    pub link: Option<Seq<char>>,
}

impl View for VehicleDetails {
    type V = VehicleModel;

    open spec fn view(&self) -> VehicleModel {
        VehicleModel {
            make: view_opt(self.make),
            model: view_opt(self.model),
            year: view_opt(self.year),
            trim: view_opt(self.trim),
            price: view_opt(self.price),
            drivetrain: view_opt(self.drivetrain),
            kilometres: view_opt(self.kilometres),
            status: view_opt(self.status),
            body_type: view_opt(self.body_type),
            engine: view_opt(self.engine),
            cylinder: view_opt(self.cylinder),
            transmission: view_opt(self.transmission),
            exterior_colour: view_opt(self.exterior_colour),
            doors: view_opt(self.doors),
            fuel_type: view_opt(self.fuel_type),
            city_fuel_economy: view_opt(self.city_fuel_economy),
            hwy_fuel_economy: view_opt(self.hwy_fuel_economy),
            link: view_opt(self.link),
        }
    }
}

/// The identity token submitted by the login form of the surrounding
/// application.
#[derive(Debug, Clone)]
pub struct LoginForm {
    pub id_token: String,
}

/// A saved search stored for a user: a document id, a user-chosen name,
/// and the search parameters themselves.
#[derive(Debug, Clone)]
pub struct SavedPayload {
    pub id: String,
    pub name: String,
    pub params: SearchParams,
}

/// Per-user settings stored alongside the saved searches.
#[derive(Debug, Clone)]
pub struct UserSettings {
    pub search_tokens: Option<i64>,
    pub can_use_ai: Option<bool>,
}

} // verus!
