use weather_applet::{
    AppletState, Coordinates, Effects, FetchError, ForecastSample, IconName, LocationSource,
    Message, SettingChange, Settings, WeatherReport,
};

fn settings(use_ip: bool) -> Settings {
    Settings {
        latitude: "59.91".to_string(),
        longitude: "10.75".to_string(),
        use_fahrenheit: false,
        use_ip_location: use_ip,
    }
}

fn report(t: i32, code: &str, city: Option<&str>, region: Option<&str>) -> WeatherReport {
    WeatherReport {
        sample: ForecastSample { temperature: t, symbol_code: code.to_string() },
        city: city.map(|c| c.to_string()),
        region: region.map(|r| r.to_string()),
    }
}

fn configured(lat: &str, lon: &str) -> Option<LocationSource> {
    Some(LocationSource::Configured(Coordinates {
        latitude: lat.to_string(),
        longitude: lon.to_string(),
    }))
}

#[test]
fn new_state_shows_placeholder() {
    let s = AppletState::new(settings(false));
    assert_eq!(s.panel.temperature, 0);
    assert_eq!(s.panel.icon, IconName::Clear);
    assert_eq!(s.panel.city, "");
    assert_eq!(s.panel.region, "");
    assert_eq!(s.format_temperature(), "0°C");
}

#[test]
fn tick_fetches_configured_coordinates() {
    let mut s = AppletState::new(settings(false));
    let e = s.update(Message::Tick);
    assert_eq!(e, Effects { save: None, fetch: configured("59.91", "10.75") });
}

#[test]
fn tick_fetches_by_ip_when_enabled() {
    let mut s = AppletState::new(settings(true));
    let e = s.update(Message::Tick);
    assert_eq!(e, Effects { save: None, fetch: Some(LocationSource::IpLookup) });
}

#[test]
fn successful_refresh_updates_panel() {
    let mut s = AppletState::new(settings(false));
    let e = s.update(Message::UpdateWeather(Ok(report(21, "fair_night", Some("Oslo"), Some("Oslo County")))));
    assert_eq!(e, Effects { save: None, fetch: None });
    assert_eq!(s.panel.temperature, 21);
    assert_eq!(s.panel.icon, IconName::FewCloudsNight);
    assert_eq!(s.panel.city, "Oslo");
    assert_eq!(s.panel.region, "Oslo County");
    assert_eq!(s.format_temperature(), "21°C");
}

#[test]
fn failed_refresh_shows_placeholder_and_next_tick_fetches() {
    let mut s = AppletState::new(settings(false));
    s.update(Message::UpdateWeather(Ok(report(12, "rain", Some("Bergen"), None))));
    let e = s.update(Message::UpdateWeather(Err(FetchError::Transport)));
    assert_eq!(e, Effects { save: None, fetch: None });
    assert_eq!(s.panel.temperature, 0);
    assert_eq!(s.panel.icon, IconName::Clear);
    assert_eq!(s.panel.city, "Bergen");
    let e = s.update(Message::Tick);
    assert_eq!(e.fetch, configured("59.91", "10.75"));
}

#[test]
fn schema_error_shows_placeholder() {
    let mut s = AppletState::new(settings(true));
    s.update(Message::UpdateWeather(Ok(report(-4, "snow", None, None))));
    s.update(Message::UpdateWeather(Err(FetchError::Schema)));
    assert_eq!(s.panel.temperature, 0);
    assert_eq!(s.panel.icon, IconName::Clear);
}

#[test]
fn absent_place_name_is_kept_and_empty_one_clears() {
    let mut s = AppletState::new(settings(true));
    s.update(Message::UpdateWeather(Ok(report(3, "cloudy", Some("Tromsø"), Some("Troms")))));
    s.update(Message::UpdateWeather(Ok(report(4, "cloudy", None, Some("")))));
    assert_eq!(s.panel.city, "Tromsø");
    assert_eq!(s.panel.region, "");
    assert_eq!(s.panel.temperature, 4);
}

#[test]
fn toggling_ip_location_on_fetches_by_ip_once() {
    let mut s = AppletState::new(settings(false));
    let e = s.update(Message::ToggleIpLocation(true));
    assert!(s.settings.use_ip_location);
    assert_eq!(
        e,
        Effects {
            save: Some(SettingChange::UseIpLocation(true)),
            fetch: Some(LocationSource::IpLookup),
        }
    );
}

#[test]
fn toggling_ip_location_off_fetches_configured_once() {
    let mut s = AppletState::new(settings(true));
    let e = s.update(Message::ToggleIpLocation(false));
    assert!(!s.settings.use_ip_location);
    assert_eq!(
        e,
        Effects {
            save: Some(SettingChange::UseIpLocation(false)),
            fetch: configured("59.91", "10.75"),
        }
    );
}

#[test]
fn editing_latitude_saves_and_fetches_with_new_value() {
    let mut s = AppletState::new(settings(false));
    let e = s.update(Message::UpdateLatitude("40.7".to_string()));
    assert_eq!(s.settings.latitude, "40.7");
    assert_eq!(
        e,
        Effects {
            save: Some(SettingChange::Latitude("40.7".to_string())),
            fetch: configured("40.7", "10.75"),
        }
    );
}

#[test]
fn editing_longitude_saves_and_fetches_with_new_value() {
    let mut s = AppletState::new(settings(false));
    let e = s.update(Message::UpdateLongitude("-74".to_string()));
    assert_eq!(s.settings.longitude, "-74");
    assert_eq!(
        e,
        Effects {
            save: Some(SettingChange::Longitude("-74".to_string())),
            fetch: configured("59.91", "-74"),
        }
    );
}

#[test]
fn toggling_fahrenheit_saves_without_fetch() {
    let mut s = AppletState::new(settings(false));
    s.update(Message::UpdateWeather(Ok(report(20, "clearsky_day", None, None))));
    assert_eq!(s.format_temperature(), "20°C");
    let e = s.update(Message::ToggleFahrenheit(true));
    assert_eq!(e, Effects { save: Some(SettingChange::UseFahrenheit(true)), fetch: None });
    assert_eq!(s.format_temperature(), "68°F");
    assert_eq!(s.panel.icon, IconName::Clear);
}
