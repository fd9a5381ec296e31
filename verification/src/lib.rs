//! Typed client library for a hosted rocket-launch data API.
//!
//! The library builds correctly encoded query parameters for seven read-only
//! resource collections (companies, launches, locations, missions, pads, tags,
//! vehicles), prepares authenticated request URLs, and extracts typed records
//! from decoded JSON response envelopes.
//!
//! Each resource has a parameter builder that accumulates optional filters and
//! renders them into an ordered, immutable parameter set. The rendering rules
//! (decimal integers, `true`/`false` booleans, `YYYY-MM-DD` dates, the
//! `asc`/`desc` sort direction) are stated as specification functions and the
//! executable code is verified against them.

pub mod api_models;
pub mod builders;
pub mod client;
pub mod datetime;
pub mod decode;
pub mod json;
pub mod params;
pub mod render;

pub use builders::CommonParams;
pub use builders::CompanyParamsBuilder;
pub use builders::LaunchParamsBuilder;
pub use builders::LocationParamsBuilder;
pub use builders::MissionParamsBuilder;
pub use builders::PadParamsBuilder;
pub use builders::TagParamsBuilder;
pub use builders::VehicleParamsBuilder;
pub use client::RocketLaunchLive;
pub use datetime::Date;
pub use datetime::DateTime;
pub use datetime::Time;
pub use json::Json;
pub use params::Direction;
pub use params::Params;
