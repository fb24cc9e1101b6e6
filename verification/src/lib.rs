//! Republishes bibliographic literature records as an RSS feed.
//!
//! The pipeline has three stages: a query-string builder for the upstream
//! request URL, a record mapper that turns each upstream record into a
//! normalized feed item with deterministic fallbacks, and a feed assembler
//! that serializes the ordered items into an RSS document.

pub mod digits;
pub mod feed;
pub mod mapper;
pub mod model;
pub mod pubdate;
pub mod query;
