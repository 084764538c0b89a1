use vstd::prelude::*;

use crate::forecast::{current_sample, is_current_sample, Coordinates, FetchError, ForecastPoint, ForecastSample};
use crate::geo::{resolve, source_of, IpLocation, LocationSource};
use crate::symbol::{icon_of, IconName};
use crate::units::{display_temperature, temperature_text};

verus! {

/// The user's settings, as they are persisted.
#[derive(Clone, Debug, PartialEq, Eq)]
pub struct Settings {
    /// The configured latitude, as decimal text.
    pub latitude: String,
    /// The configured longitude, as decimal text.
    pub longitude: String,
    pub use_fahrenheit: bool,
    pub use_ip_location: bool,
}

/// What the panel shows.
#[derive(Clone, Debug, PartialEq, Eq)]
pub struct Panel {
    /// Whole degrees Celsius.
    pub temperature: i32,
    pub icon: IconName,
    pub city: String,
    pub region: String,
}

/// The applet: settings and what is shown.
#[derive(Clone, Debug, PartialEq, Eq)]
pub struct AppletState {
    pub settings: Settings,
    pub panel: Panel,
}

/// The outcome of a refresh that succeeded: the current conditions, and the
/// place names of an IP lookup where one was made and gave them.
#[derive(Clone, Debug, PartialEq, Eq)]
pub struct WeatherReport {
    pub sample: ForecastSample,
    pub city: Option<String>,
    pub region: Option<String>,
}

/// What the applet reacts to.
#[derive(Debug, PartialEq, Eq)]
pub enum Message {
    /// The periodic timer fired.
    Tick,
    /// A refresh finished.
    UpdateWeather(Result<WeatherReport, FetchError>),
    /// The user edited the latitude.
    UpdateLatitude(String),
    /// The user edited the longitude.
    UpdateLongitude(String),
    /// The user switched the Fahrenheit display on or off.
    ToggleFahrenheit(bool),
    /// The user switched the IP lookup on or off.
    ToggleIpLocation(bool),
}

/// A setting to write back to the configuration store.
#[derive(Clone, Debug, PartialEq, Eq)]
pub enum SettingChange {
    Latitude(String),
    Longitude(String),
    UseFahrenheit(bool),
    UseIpLocation(bool),
}

/// The work that a message asks of the host: at most one setting to save and
/// at most one refresh to start.
#[derive(Clone, Debug, PartialEq, Eq)]
pub struct Effects {
    pub save: Option<SettingChange>,
    pub fetch: Option<LocationSource>,
}

/// The coordinate source of a refresh under `settings`.
pub open spec fn source_for(settings: Settings) -> LocationSource {
    source_of(
        settings.use_ip_location,
        Coordinates { latitude: settings.latitude, longitude: settings.longitude },
    )
}

/// A reported place name replaces the shown one; an absent one keeps it.
pub open spec fn kept_or_replaced(shown: String, reported: Option<String>) -> String {
    match reported {
        Some(name) => name,
        None => shown,
    }
}

/// The panel after a refresh: the reported conditions, or zero degrees under
/// a clear sky when the refresh failed. Place names change only where the
/// report names them.
pub open spec fn refreshed_panel(panel: Panel, result: Result<WeatherReport, FetchError>) -> Panel {
    match result {
        Ok(report) => Panel {
            temperature: report.sample.temperature,
            icon: icon_of(report.sample.symbol_code@),
            city: kept_or_replaced(panel.city, report.city),
            region: kept_or_replaced(panel.region, report.region),
        },
        Err(_) => Panel {
            temperature: 0,
            icon: IconName::Clear,
            city: panel.city,
            region: panel.region,
        },
    }
}

/// Effects that save `change`, and start a refresh under `settings` when `fetch` holds.
pub open spec fn save_effects(change: SettingChange, settings: Settings, fetch: bool) -> Effects {
    Effects {
        save: Some(change),
        fetch: if fetch {
            Some(source_for(settings))
        } else {
            None
        },
    }
}

/// The applet's state and effects after `message`.
pub open spec fn step(s: AppletState, message: Message) -> (AppletState, Effects) {
    match message {
        Message::Tick => (s, Effects { save: None, fetch: Some(source_for(s.settings)) }),
        Message::UpdateWeather(result) => (
            AppletState { settings: s.settings, panel: refreshed_panel(s.panel, result) },
            Effects { save: None, fetch: None },
        ),
        Message::UpdateLatitude(text) => {
            let settings = Settings { latitude: text, ..s.settings };
            (
                AppletState { settings, panel: s.panel },
                save_effects(SettingChange::Latitude(text), settings, true),
            )
        },
        Message::UpdateLongitude(text) => {
            let settings = Settings { longitude: text, ..s.settings };
            (
                AppletState { settings, panel: s.panel },
                save_effects(SettingChange::Longitude(text), settings, true),
            )
        },
        Message::ToggleFahrenheit(on) => {
            let settings = Settings { use_fahrenheit: on, ..s.settings };
            (
                AppletState { settings, panel: s.panel },
                save_effects(SettingChange::UseFahrenheit(on), settings, false),
            )
        },
        Message::ToggleIpLocation(on) => {
            let settings = Settings { use_ip_location: on, ..s.settings };
            (
                AppletState { settings, panel: s.panel },
                save_effects(SettingChange::UseIpLocation(on), settings, true),
            )
        },
    }
}

/// A failed refresh, whatever its cause, shows zero degrees under a clear sky,
/// leaves settings and place names as they were and asks for nothing more;
/// the next tick still starts a refresh from the same coordinate source.
pub proof fn lemma_failed_refresh_then_tick(s: AppletState, error: FetchError)
    ensures
        ({
            let (after, effects) = step(s, Message::UpdateWeather(Err(error)));
            &&& after.panel.temperature == 0
            &&& after.panel.icon == IconName::Clear
            &&& after.panel.city == s.panel.city
            &&& after.panel.region == s.panel.region
            &&& after.settings == s.settings
            &&& effects.save is None
            &&& effects.fetch is None
            &&& step(after, Message::Tick).1.fetch == Some(source_for(s.settings))
        }),
{
}

/// Switching the IP lookup on or off starts exactly one refresh, at once, and
/// it uses the newly chosen source: an IP lookup when switched on, the
/// configured coordinates when switched off.
pub proof fn lemma_ip_toggle_fetches_from_new_source(s: AppletState, on: bool)
    ensures
        ({
            let (after, effects) = step(s, Message::ToggleIpLocation(on));
            &&& after.settings.use_ip_location == on
            &&& effects.fetch == Some(source_for(after.settings))
            &&& on ==> effects.fetch == Some(LocationSource::IpLookup)
            &&& !on ==> effects.fetch == Some(
                LocationSource::Configured(
                    Coordinates {
                        latitude: s.settings.latitude,
                        longitude: s.settings.longitude,
                    },
                ),
            )
        }),
{
}

impl AppletState {
    /// The applet at start-up: `settings` as loaded, and zero degrees under a
    /// clear sky with no place names until the first refresh.
    pub fn new(settings: Settings) -> (r: AppletState)
        ensures
            r.settings == settings,
            r.panel.temperature == 0,
            r.panel.icon == IconName::Clear,
            r.panel.city@.len() == 0,
            r.panel.region@.len() == 0,
    {
        AppletState {
            settings,
            panel: Panel {
                temperature: 0,
                icon: IconName::Clear,
                city: String::new(),
                region: String::new(),
            },
        }
    }

    /// Where the next refresh takes its coordinates from.
    pub fn location_source(&self) -> (r: LocationSource)
        ensures
            r == source_for(self.settings),
    {
        let configured = Coordinates {
            latitude: self.settings.latitude.clone(),
            longitude: self.settings.longitude.clone(),
        };
        resolve(self.settings.use_ip_location, configured)
    }

    /// The shown temperature, in the unit that the settings ask for.
    pub fn format_temperature(&self) -> (r: String)
        ensures
            r@ == temperature_text(self.panel.temperature as int, self.settings.use_fahrenheit),
    {
        display_temperature(self.panel.temperature, self.settings.use_fahrenheit)
    }

    /// Reacts to `message`: updates the state and returns the setting to
    /// save and the refresh to start, if any. A tick and every edit of the
    /// location or of the IP-lookup switch start one refresh; a failed
    /// refresh shows zero degrees under a clear sky.
    pub fn update(&mut self, message: Message) -> (r: Effects)
        ensures
            (*final(self), r) == step(*old(self), message),
    {
        match message {
            Message::Tick => Effects { save: None, fetch: Some(self.location_source()) },
            Message::UpdateWeather(result) => {
                match result {
                    Ok(report) => {
                        self.panel.temperature = report.sample.temperature;
                        self.panel.icon = report.sample.icon();
                        if let Some(city) = report.city {
                            self.panel.city = city;
                        }
                        if let Some(region) = report.region {
                            self.panel.region = region;
                        }
                    },
                    Err(_) => {
                        self.panel.temperature = 0;
                        self.panel.icon = IconName::Clear;
                    },
                }
                Effects { save: None, fetch: None }
            },
            Message::UpdateLatitude(text) => {
                let saved = text.clone();
                self.settings.latitude = text;
                Effects {
                    save: Some(SettingChange::Latitude(saved)),
                    fetch: Some(self.location_source()),
                }
            },
            Message::UpdateLongitude(text) => {
                let saved = text.clone();
                self.settings.longitude = text;
                Effects {
                    save: Some(SettingChange::Longitude(saved)),
                    fetch: Some(self.location_source()),
                }
            },
            Message::ToggleFahrenheit(on) => {
                self.settings.use_fahrenheit = on;
                Effects { save: Some(SettingChange::UseFahrenheit(on)), fetch: None }
            },
            Message::ToggleIpLocation(on) => {
                self.settings.use_ip_location = on;
                Effects {
                    save: Some(SettingChange::UseIpLocation(on)),
                    fetch: Some(self.location_source()),
                }
            },
        }
    }
}

/// The report of a refresh: the current conditions of `timeseries`, with the
/// place names of `location` when the coordinates came from an IP lookup.
pub fn build_report(timeseries: &Vec<ForecastPoint>, location: Option<IpLocation>) -> (r: WeatherReport)
    ensures
        is_current_sample(timeseries@, r.sample),
        r.city == (match location {
            Some(l) => l.city,
            None => None,
        }),
        r.region == (match location {
            Some(l) => l.region,
            None => None,
        }),
{
    let sample = current_sample(timeseries);
    match location {
        Some(l) => WeatherReport { sample, city: l.city, region: l.region },
        None => WeatherReport { sample, city: None, region: None },
    }
}

} // verus!

