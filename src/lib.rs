//! Current-weather lookups: query building, response decoding and presentation.
pub mod iter;
pub mod json;
pub mod model;
pub mod number;
pub mod present;
pub mod query;
pub mod report;
