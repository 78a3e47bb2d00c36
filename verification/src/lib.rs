//! Job offers gathered from three job boards: page addresses, field
//! extraction, aggregation and CSV export.

pub mod csv;
pub mod job_offers_scraper;
pub mod markup;
pub mod plan;
pub mod text;
