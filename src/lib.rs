//! Offer aggregation: joins job offers with per-city scores and news, and
//! ranks the joined offers for a student.
pub mod catalog;
pub mod enrichment;
pub mod error;
pub mod ids;
pub mod news;
pub mod offer;
pub mod query;
pub mod ranking;
pub mod recommendation;
pub mod student;
