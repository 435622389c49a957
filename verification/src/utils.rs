//! The values that travel between the outside services and the pages.

use vstd::prelude::*;
use vstd::string::StringExecFns;

verus! {

/// A point on the globe. Each component is the bit pattern of an IEEE 754
/// double, so that two pairs are equal exactly when they were resolved to the
/// same numbers.
#[derive(Clone, Copy, Debug, PartialEq, Eq, Structural)]
pub struct LatLong {
    pub latitude: u64,
    pub longitude: u64,
}

/// What the geocoding service answers: its matches, best first.
#[derive(Debug, Clone)]
pub struct GeoResponse {
    pub results: Vec<LatLong>,
}

impl GeoResponse {
    /// The first match, if the service found any.
    pub fn first_match(&self) -> (found: Option<LatLong>)
        ensures
            found == (if self.results@.len() > 0 {
                Some(self.results@[0])
            } else {
                None
            }),
    {
        if self.results.len() > 0 {
            Some(self.results[0])
        } else {
            None
        }
    }
}

/// The query string of the forecast page.
#[derive(Debug, Clone)]
pub struct WeatherQuery {
    pub city: String,
}

/// The hourly part of a weather answer: two arrays that run in parallel. The
/// temperatures are held as the text in which they are shown.
#[derive(Debug, Clone)]
pub struct Hourly {
    pub time: Vec<String>,
    pub temperature_2m: Vec<String>,
}

/// What the weather service answers for one pair of coordinates.
#[derive(Debug, Clone)]
pub struct WeatherResponse {
    pub latitude: u64,
    pub longitude: u64,
    pub timezone: String,
    pub hourly: Hourly,
}

/// One hour of a forecast.
#[derive(Debug, Clone)]
pub struct Forecast {
    pub date: String,
    pub temperature: String,
}

/// A city's forecast, ready to be rendered.
#[derive(Debug, Clone)]
pub struct WeatherDisplay {
    pub city: String,
    pub forecasts: Vec<Forecast>,
}

/// The landing page, which shows nothing that depends on a request.
#[derive(Debug, Clone, Copy)]
pub struct IndexTemplate;

/// Why a request could not be answered.
#[derive(Clone, Copy, Debug, PartialEq, Eq, Structural)]
pub enum ErrorKind {
    /// The geocoding service knows no place of that name.
    NotFound,
    /// One of the two outside services could not be reached or answered nonsense.
    UpstreamUnavailable,
    /// The table of known cities could not be read.
    StoreUnavailable,
}

impl ErrorKind {
    /// What the client is told of a failure of this kind.
    pub open spec fn text_spec(self) -> Seq<char> {
        match self {
            ErrorKind::NotFound => "No results found"@,
            ErrorKind::UpstreamUnavailable => "an outside service did not answer"@,
            ErrorKind::StoreUnavailable => "the table of cities could not be read"@,
        }
    }

    /// What the client is told of a failure of this kind.
    pub fn text(self) -> (words: &'static str)
        ensures
            words@ == self.text_spec(),
    {
        match self {
            ErrorKind::NotFound => "No results found",
            ErrorKind::UpstreamUnavailable => "an outside service did not answer",
            ErrorKind::StoreUnavailable => "the table of cities could not be read",
        }
    }
}

/// A failed request: what went wrong, and for which city.
#[derive(Debug, Clone)]
pub struct AppError {
    pub kind: ErrorKind,
    pub city: String,
}

impl AppError {
    /// The failure `kind` for the request that asked for `city`.
    pub fn new(kind: ErrorKind, city: &str) -> (e: AppError)
        ensures
            e.kind == kind,
            e.city@ == city@,
    {
        AppError { kind, city: city.to_owned() }
    }

    /// The body of the response that reports this failure.
    pub fn message(&self) -> (body: String)
        ensures
            body@ == "Something went wrong: "@ + self.kind.text_spec(),
    {
        String::from_str("Something went wrong: ").concat(self.kind.text())
    }

    /// True when the caller can mend the request by asking for another city.
    pub fn is_user_correctable(&self) -> (yes: bool)
        ensures
            yes == (self.kind == ErrorKind::NotFound),
    {
        match self.kind {
            ErrorKind::NotFound => true,
            _ => false,
        }
    }
}

/// What each of the strings says, in order.
pub open spec fn texts(strings: Seq<String>) -> Seq<Seq<char>> {
    Seq::new(strings.len(), |i: int| strings[i]@)
}

/// One hour as a pair of texts: the time label and the temperature.
pub type Reading = (Seq<char>, Seq<char>);

/// The two parallel arrays paired up position by position. Where one array is
/// longer than the other, what has no partner is left out.
pub open spec fn zip_series(time: Seq<String>, temperature: Seq<String>) -> Seq<Reading> {
    Seq::new(
        if time.len() <= temperature.len() { time.len() } else { temperature.len() },
        |i: int| (time[i]@, temperature[i]@),
    )
}

impl WeatherDisplay {
    /// The hours of this forecast, in order.
    pub open spec fn series(&self) -> Seq<Reading> {
        Seq::new(
            self.forecasts@.len(),
            |i: int| (self.forecasts@[i].date@, self.forecasts@[i].temperature@),
        )
    }

    /// Shapes a weather answer for display: the city as given, and one forecast
    /// for each position that both hourly arrays reach.
    pub fn new(city: String, response: WeatherResponse) -> (display: WeatherDisplay)
        ensures
            display.city@ == city@,
            display.series() == zip_series(
                response.hourly.time@,
                response.hourly.temperature_2m@,
            ),
    {
        let time = &response.hourly.time;
        let temperature = &response.hourly.temperature_2m;
        let n: usize = if time.len() <= temperature.len() {
            time.len()
        } else {
            temperature.len()
        };
        let mut forecasts: Vec<Forecast> = Vec::new();
        let mut i: usize = 0;
        while i < n
            invariant
                i <= n,
                n <= time@.len(),
                n <= temperature@.len(),
                forecasts@.len() == i,
                forall|k: int|
                    0 <= k < i ==> {
                        &&& (#[trigger] forecasts@[k]).date@ == time@[k]@
                        &&& forecasts@[k].temperature@ == temperature@[k]@
                    },
            decreases n - i,
        {
            forecasts.push(Forecast { date: time[i].clone(), temperature: temperature[i].clone() });
            i += 1;
        }
        let display = WeatherDisplay { city, forecasts };
        assert(display.series() =~= zip_series(time@, temperature@));
        display
    }
}

} // verus!
