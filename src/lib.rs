//! Builds an RSS feed of the latest manga chapters from series metadata
//! served as JSON by an upstream API.
pub mod aggregate;
pub mod client;
pub mod date;
pub mod feed;
pub mod json;
pub mod model;
pub mod parser;
