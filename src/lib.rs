//! Ingests the UNESCO World Heritage list (a repeating-row XML feed) and
//! enriches each site with photographs found through the Flickr API.
//!
//! The library holds the pipeline's logic: the row extractor, the mapping
//! of rows to monuments, the Flickr request and merge rules, the photo
//! enrichment state machine and the rules of idempotent insertion.
//! Transport and storage are handed in by the caller.

mod text;
pub mod monument;
pub mod record;
pub mod rows;
pub mod catalog;
pub mod flickr;
pub mod domain;
pub mod store;
pub mod enrich;
