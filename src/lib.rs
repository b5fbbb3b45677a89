//! Core logic of a map data service: region codes, tile query regions,
//! feature collection assembly, ingestion schema checks and attribute
//! extraction, and the replace-transaction state machine.

pub mod region;
pub mod text;
pub mod tile;
pub mod assemble;
pub mod properties;
pub mod division;
pub mod post_office;
pub mod schema;
pub mod replace;
pub mod crs;
pub mod confirm;
