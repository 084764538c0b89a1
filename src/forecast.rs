use vstd::prelude::*;
use vstd::string::*;

use crate::symbol::{icon_of, map_symbol_to_icon, IconName};

verus! {

/// The application identifier, sent as the `User-Agent` of every request:
/// the forecast service refuses anonymous requests.
pub const APP_ID: &'static str = "io.github.cosmic-utils.cosmic-ext-applet-weather";

/// The forecast endpoint, before its query.
pub const FORECAST_ENDPOINT: &'static str = "https://api.met.no/weatherapi/locationforecast/2.0/compact";

/// A location as the decimal text of its latitude and longitude in degrees.
/// The text is passed on to the forecast service as it is.
#[derive(Clone, Debug, PartialEq, Eq)]
pub struct Coordinates {
    pub latitude: String,
    pub longitude: String,
}

/// Why a refresh produced no forecast.
#[derive(Clone, Copy, Debug, PartialEq, Eq, Structural)]
pub enum FetchError {
    /// The network failed, or the service answered with a non-success status.
    Transport,
    /// The response body does not have the expected shape.
    Schema,
}

/// One entry of the forecast's time series, as far as the applet reads it:
/// the air temperature truncated to whole degrees Celsius, and the symbol
/// code of the next hour, absent where the entry has no next-hour summary.
#[derive(Clone, Debug, PartialEq, Eq)]
pub struct ForecastPoint {
    pub air_temperature: i32,
    pub symbol_code: Option<String>,
}

/// The current conditions: whole degrees Celsius and a vendor symbol code.
#[derive(Clone, Debug, PartialEq, Eq)]
pub struct ForecastSample {
    pub temperature: i32,
    pub symbol_code: String,
}

/// The symbol code that stands where a forecast gives none.
pub open spec fn default_symbol_code() -> Seq<char> {
    "clearsky"@
}

/// `s` is the placeholder sample: zero degrees under a clear sky.
pub open spec fn is_default_sample(s: ForecastSample) -> bool {
    s.temperature == 0 && s.symbol_code@ == default_symbol_code()
}

/// The symbol code of a forecast entry, `clearsky` where it has none.
pub open spec fn point_symbol_code(p: ForecastPoint) -> Seq<char> {
    match p.symbol_code {
        Some(code) => code@,
        None => default_symbol_code(),
    }
}

/// `s` describes the current conditions of the time series `series`: those of
/// its first entry, or the placeholder when it is empty.
pub open spec fn is_current_sample(series: Seq<ForecastPoint>, s: ForecastSample) -> bool {
    if series.len() == 0 {
        is_default_sample(s)
    } else {
        s.temperature == series[0].air_temperature && s.symbol_code@ == point_symbol_code(
            series[0],
        )
    }
}

/// The request URL of the forecast for `latitude` and `longitude`.
pub open spec fn forecast_url_of(latitude: Seq<char>, longitude: Seq<char>) -> Seq<char> {
    FORECAST_ENDPOINT@ + "?lat="@ + latitude + "&lon="@ + longitude
}

impl Default for ForecastSample {
    /// The placeholder that stands in for a forecast that could not be had.
    fn default() -> (r: ForecastSample)
        ensures
            is_default_sample(r),
    {
        ForecastSample { temperature: 0, symbol_code: String::from_str("clearsky") }
    }
}

impl ForecastSample {
    /// The generic icon of the sample's symbol code.
    pub fn icon(&self) -> (r: IconName)
        ensures
            r == icon_of(self.symbol_code@),
    {
        map_symbol_to_icon(self.symbol_code.as_str())
    }
}

/// The current conditions of a forecast time series: its first entry, whose
/// missing symbol code reads as `clearsky`; the placeholder sample when the
/// series is empty. Later entries are not read.
pub fn current_sample(timeseries: &Vec<ForecastPoint>) -> (r: ForecastSample)
    ensures
        is_current_sample(timeseries@, r),
{
    if timeseries.len() == 0 {
        return ForecastSample::default();
    }
    let first = &timeseries[0];
    let symbol_code = match &first.symbol_code {
        Some(code) => code.clone(),
        None => String::from_str("clearsky"),
    };
    ForecastSample { temperature: first.air_temperature, symbol_code }
}

/// Whether an HTTP status lets the response body be read: any 2xx status
/// does, any other is a transport failure.
pub fn check_status(status: u16) -> (r: Result<(), FetchError>)
    ensures
        r == (if 200 <= status < 300 {
            Ok(())
        } else {
            Err(FetchError::Transport)
        }),
{
    if 200 <= status && status < 300 {
        Ok(())
    } else {
        Err(FetchError::Transport)
    }
}

/// The request URL of the forecast at `coordinates`, with the latitude and
/// longitude text placed in the query as it is.
pub fn forecast_url(coordinates: &Coordinates) -> (r: String)
    ensures
        r@ == forecast_url_of(coordinates.latitude@, coordinates.longitude@),
{
    let mut url = String::from_str(FORECAST_ENDPOINT);
    url.append("?lat=");
    url.append(coordinates.latitude.as_str());
    url.append("&lon=");
    url.append(coordinates.longitude.as_str());
    url
}

} // verus!
