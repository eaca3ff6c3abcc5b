//! Verified core of a car-listing scraper: extraction of listing summaries
//! and vehicle details from semi-structured markup, retry/backoff policies
//! for the page and detail fetchers, aggregation (dedup and keyword
//! filters), and the CSV row layout of the output file.

pub mod aggregate;
pub mod api;
pub mod auth;
pub mod config;
pub mod csvout;
pub mod detail;
pub mod fetch;
pub mod firestore;
pub mod jsonval;
pub mod listing;
pub mod models;
pub mod text;
