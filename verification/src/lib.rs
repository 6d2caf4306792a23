//! Verified core of the countingsheep ingestion service.

pub mod config;
pub mod error;
pub mod error_tracking;
pub mod ingest;
pub mod instant;
pub mod json;
pub mod producer;
pub mod sheep;
pub mod stamp;
pub mod text;
