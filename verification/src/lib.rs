//! A verified client library for the MetroHero transit-data REST API:
//! a station directory resolving codes and names, typed response schemas
//! with JSON parsing and rendering, and an API gateway that maps upstream
//! HTTP outcomes to a closed error taxonomy.
pub mod client;
pub mod errors;
pub mod json;
pub mod jtext;
pub mod lines;
pub mod parse;
pub mod render;
pub mod schemas;
pub mod stations;
pub mod strutil;

pub use client::MetroHeroClient;
pub use errors::MetroHeroError;
pub use lines::LineCode;
pub use schemas::{TrainPrediction, TripInfo};
pub use stations::StationCode;
