//! From a city's name to its forecast: coordinates first, through the cache,
//! then the hourly series for those coordinates, shaped for display. The first
//! failure on the way ends the request; nothing partial is returned.

use vstd::prelude::*;
use vstd::string::StringExecFns;
use crate::geocode::{resolve, resolve_outcome, rows_after_resolve, Outside};
use crate::store::CityTable;
use crate::utils::{zip_series, AppError, ErrorKind, LatLong, Reading, WeatherDisplay, WeatherResponse};

verus! {

/// How many cities the statistics page lists.
pub const RECENT_CITIES: usize = 10;

/// What the weather service did with one question.
#[derive(Debug)]
pub enum FetchReply {
    /// Its answer.
    Fetched(WeatherResponse),
    /// No usable answer.
    Unavailable,
}

/// The address that answers with the best match for `city`.
pub fn geocoding_endpoint(city: &str) -> (url: String)
    ensures
        url@ == "https://geocoding-api.open-meteo.com/v1/search?name="@ + city@
            + "&count=1&language=en&format=json"@,
{
    String::from_str("https://geocoding-api.open-meteo.com/v1/search?name=").concat(city).concat(
        "&count=1&language=en&format=json",
    )
}

/// The address that answers with the hourly temperatures at a place, whose
/// coordinates are given as decimal text.
pub fn weather_endpoint(latitude: &str, longitude: &str) -> (url: String)
    ensures
        url@ == "https://api.open-meteo.com/v1/forecast?latitude="@ + latitude@ + "&longitude="@
            + longitude@ + "&hourly=temperature_2m"@,
{
    String::from_str("https://api.open-meteo.com/v1/forecast?latitude=").concat(latitude).concat(
        "&longitude=",
    ).concat(longitude).concat("&hourly=temperature_2m")
}

/// The hours of the forecast that a request ends with, or why it fails: a
/// failure to resolve the city comes first, then one of the weather service.
pub open spec fn forecast_outcome(resolved: Result<LatLong, ErrorKind>, weather: FetchReply) -> Result<
    Seq<Reading>,
    ErrorKind,
> {
    match resolved {
        Err(kind) => Err(kind),
        Ok(_) => match weather {
            FetchReply::Fetched(response) => Ok(
                zip_series(response.hourly.time@, response.hourly.temperature_2m@),
            ),
            FetchReply::Unavailable => Err(ErrorKind::UpstreamUnavailable),
        },
    }
}

/// Turns the weather service's reply for `city` into the page's content, or
/// into the failure of the request.
pub fn shape(city: &str, weather: FetchReply) -> (page: Result<WeatherDisplay, AppError>)
    ensures
        match page {
            Ok(display) => {
                &&& weather matches FetchReply::Fetched(response)
                &&& display.city@ == city@
                &&& display.series() == zip_series(
                    response.hourly.time@,
                    response.hourly.temperature_2m@,
                )
            },
            Err(e) => {
                &&& weather is Unavailable
                &&& e.kind == ErrorKind::UpstreamUnavailable
                &&& e.city@ == city@
            },
        },
{
    match weather {
        FetchReply::Fetched(response) => Ok(WeatherDisplay::new(city.to_owned(), response)),
        FetchReply::Unavailable => Err(AppError::new(ErrorKind::UpstreamUnavailable, city)),
    }
}

/// How a request for a forecast ended.
#[derive(Debug)]
pub struct Served {
    pub page: Result<WeatherDisplay, AppError>,
    /// The coordinates for which the weather service was asked; none where
    /// the request failed before it came to that.
    pub fetched_at: Option<LatLong>,
}

/// Answers a request for the forecast of `name`: resolves the city through the
/// cache, asks the weather service for the coordinates found, and shapes its
/// reply. A request that cannot be resolved fails with the cache's error; the
/// weather service is then not asked and `weather` plays no part.
pub fn get_forecast(table: &mut CityTable, name: &str, outside: &Outside, weather: FetchReply) -> (served:
    Served)
    requires
        old(table).wf(),
    ensures
        final(table).wf(),
        final(table)@ == rows_after_resolve(old(table)@, name@, *outside),
        served.fetched_at == match resolve_outcome(old(table)@, name@, *outside) {
            Ok(coords) => Some(coords),
            Err(_) => None,
        },
        match served.page {
            Ok(display) => {
                &&& display.city@ == name@
                &&& forecast_outcome(resolve_outcome(old(table)@, name@, *outside), weather) == Ok::<
                    Seq<Reading>,
                    ErrorKind,
                >(display.series())
            },
            Err(e) => {
                &&& e.city@ == name@
                &&& forecast_outcome(resolve_outcome(old(table)@, name@, *outside), weather)
                    == Err::<Seq<Reading>, ErrorKind>(e.kind)
            },
        },
{
    let resolved = resolve(table, name, outside);
    match resolved.outcome {
        Ok(coords) => Served { page: shape(name, weather), fetched_at: Some(coords) },
        Err(e) => Served { page: Err(e), fetched_at: None },
    }
}

/// The cities for the statistics page: the last ones stored, newest first.
pub fn get_last_cities(table: &CityTable) -> (names: Vec<String>)
    requires
        table.wf(),
    ensures
        crate::utils::texts(names@) == crate::store::recent(table@, RECENT_CITIES as nat),
{
    table.list_recent(RECENT_CITIES)
}

} // verus!
