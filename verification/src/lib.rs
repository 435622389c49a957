//! Weather forecasts by city name, behind a read-through geocoding cache.
//!
//! The library holds the decisions of the service: which coordinates a city
//! resolves to and when the geocoding service has to be asked, how the table of
//! known cities grows, how a fetched hourly series is shaped for display, and who
//! may see the statistics page. Network and database traffic stay with the caller,
//! which hands the replies it got to the functions here.

pub mod utils;
pub mod store;
pub mod geocode;
pub mod pipeline;
pub mod users;
