//! Weather panel applet core: symbol-code mapping, forecast normalisation,
//! request construction and the applet's refresh decisions.

pub mod applet;
pub mod forecast;
pub mod geo;
pub mod symbol;
mod text;
pub mod units;

pub use applet::{
    build_report, AppletState, Effects, Message, Panel, SettingChange, Settings, WeatherReport,
};
pub use forecast::{
    check_status, current_sample, forecast_url, Coordinates, FetchError, ForecastPoint,
    ForecastSample, APP_ID,
};
pub use geo::{resolve, IpLocation, LocationSource, IP_LOCATION_URL};
pub use symbol::{map_symbol_to_icon, IconName};
pub use units::{celsius_to_fahrenheit, decimal_text, display_temperature};
