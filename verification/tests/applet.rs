use tempest::applet::{
    measurement_segments, pressure_segments, tab_bar, tab_for_segmented_control,
    temperature_segments,
};
use tempest::config::{
    Config, MeasurementSystem, PopupTab, PressureUnit, SavedLocation, TemperatureUnit,
    TimeAppletConfig, NEW_YORK_LATITUDE, NEW_YORK_LONGITUDE,
};
use tempest::state::{Effect, Link, Message, PanelLabel, Place, Tempest, MAX_SAVED_LOCATIONS};

fn manual_config() -> Config {
    let mut c = Config::default();
    c.use_auto_location = false;
    c
}

fn started(config: Config) -> Tempest {
    Tempest::init(config, false).0
}

fn place(name: &str, lat: f64, lon: f64, country: &str) -> Place {
    Place {
        display_name: name.to_string(),
        latitude: lat.to_bits(),
        longitude: lon.to_bits(),
        country: country.to_string(),
    }
}

#[test]
fn default_settings_are_new_york() {
    let c = Config::default();
    assert_eq!(c.latitude, 40.7128f64.to_bits());
    assert_eq!(c.longitude, (-74.0060f64).to_bits());
    assert_eq!(NEW_YORK_LATITUDE, c.latitude);
    assert_eq!(NEW_YORK_LONGITUDE, c.longitude);
    assert_eq!(c.location_name, "New York, NY, United States");
    assert_eq!(c.refresh_interval_minutes, 15);
    assert_eq!(c.temperature_unit, TemperatureUnit::Fahrenheit);
    assert!(c.use_auto_location && c.alerts_enabled && c.show_meteogram && c.pride_accent);
    assert!(c.saved_locations.is_empty());
    let t = Tempest::default();
    assert_eq!(t.refresh_input, "15");
    assert_eq!(t.active_tab, PopupTab::Current);
    assert!(!t.military_time);
}

#[test]
fn first_start_seeds_a_bookmark_and_detects() {
    let (s, fx) = Tempest::init(Config::default(), true);
    assert_eq!(s.config.saved_locations.len(), 1);
    assert_eq!(s.config.saved_locations[0].name, "New York, NY, United States");
    assert_eq!(s.config.saved_locations[0].latitude, NEW_YORK_LATITUDE);
    assert!(s.military_time);
    assert!(s.is_loading);
    assert_eq!(s.panel_label, PanelLabel::Pending);
    assert_eq!(fx, vec![Effect::SaveConfig, Effect::DetectLocation, Effect::QueryScreenResolution]);
}

#[test]
fn later_start_refreshes_and_shows_last_update() {
    let mut c = manual_config();
    c.saved_locations.push(SavedLocation { name: "Oslo, Norway".to_string(), latitude: 1, longitude: 2 });
    c.last_updated = Some(1_700_000_000);
    c.default_tab = PopupTab::Graph;
    c.show_meteogram = false;
    let (s, fx) = Tempest::init(c, false);
    assert_eq!(s.config.saved_locations.len(), 1);
    assert_eq!(s.active_tab, PopupTab::Current);
    assert_eq!(fx, vec![Effect::UpdateTimestampDisplay, Effect::RefreshWeather, Effect::QueryScreenResolution]);
}

#[test]
fn refresh_bumps_the_generation() {
    let mut s = started(manual_config());
    let fx = s.update(Message::RefreshWeather);
    assert_eq!(s.fetch_generation, 1);
    assert_eq!(
        fx,
        vec![
            Effect::FetchWeather { generation: 1 },
            Effect::FetchAirQuality { generation: 1 },
            Effect::FetchAlerts { generation: 1 },
            Effect::FetchPollen { generation: 1 },
        ]
    );
}

#[test]
fn results_of_a_superseded_request_are_dropped() {
    let mut s = started(manual_config());
    s.update(Message::RefreshWeather);
    s.update(Message::RefreshWeather);
    let fx = s.update(Message::WeatherUpdated { generation: 1, ok: true, now: 10 });
    assert!(fx.is_empty());
    assert!(!s.has_weather);
    assert!(s.is_loading);
    let fx = s.update(Message::AirQualityUpdated { generation: 1, result: Some((42, tempest::state::AqiStandard::Us)) });
    assert!(fx.is_empty());
    assert_eq!(s.current_aqi, None);
    let fx = s.update(Message::AlertsUpdated { generation: 3, result: Some(vec!["x".to_string()]) });
    assert!(fx.is_empty());
    assert!(s.alert_ids.is_empty());
}

#[test]
fn failed_fetches_back_off_then_stop() {
    let mut s = started(manual_config());
    s.update(Message::RefreshWeather);
    let g = s.fetch_generation;
    let mut delays = Vec::new();
    for _ in 0..5 {
        delays.push(s.update(Message::WeatherUpdated { generation: g, ok: false, now: 0 }));
    }
    assert_eq!(delays[0], vec![Effect::RetryAfter { seconds: 5 }]);
    assert_eq!(delays[1], vec![Effect::RetryAfter { seconds: 15 }]);
    assert_eq!(delays[2], vec![Effect::RetryAfter { seconds: 30 }]);
    assert_eq!(delays[3], vec![Effect::RetryAfter { seconds: 60 }]);
    assert!(delays[4].is_empty());
    assert_eq!(s.retry_count, 4);
    assert!(s.weather_error);
    assert_eq!(s.panel_label, PanelLabel::Error);
    assert_eq!(s.update(Message::Tick), vec![Effect::ClearMeteogramCache, Effect::RefreshWeather]);
    assert_eq!(s.retry_count, 0);
}

#[test]
fn success_after_failure_keeps_reading_and_resets_retries() {
    let mut s = started(manual_config());
    s.update(Message::RefreshWeather);
    let g = s.fetch_generation;
    let fx = s.update(Message::WeatherUpdated { generation: g, ok: true, now: 1234 });
    assert_eq!(
        fx,
        vec![Effect::StoreWeather, Effect::ClearMeteogramCache, Effect::UpdateTimestampDisplay, Effect::SaveConfig]
    );
    assert_eq!(s.config.last_updated, Some(1234));
    assert_eq!(s.panel_label, PanelLabel::Temperature(TemperatureUnit::Fahrenheit));
    s.update(Message::RefreshWeather);
    let g = s.fetch_generation;
    s.update(Message::WeatherUpdated { generation: g, ok: false, now: 0 });
    assert!(s.refresh_failed);
    assert!(!s.weather_error);
    assert_eq!(s.retry_count, 1);
    s.update(Message::WeatherUpdated { generation: g, ok: true, now: 99 });
    assert_eq!(s.retry_count, 0);
    assert!(!s.refresh_failed);
}

#[test]
fn each_alert_is_notified_once() {
    let mut s = started(manual_config());
    s.update(Message::RefreshWeather);
    let g = s.fetch_generation;
    let batch = vec!["a".to_string(), "b".to_string(), "a".to_string()];
    let fx = s.update(Message::AlertsUpdated { generation: g, result: Some(batch.clone()) });
    assert_eq!(fx, vec![Effect::NotifyAlert { index: 0 }, Effect::NotifyAlert { index: 1 }, Effect::StoreAlerts]);
    assert_eq!(s.seen_alert_ids, vec!["a".to_string(), "b".to_string()]);
    let fx = s.update(Message::AlertsUpdated { generation: g, result: Some(batch) });
    assert_eq!(fx, vec![Effect::StoreAlerts]);
    let fx = s.update(Message::AlertsUpdated { generation: g, result: Some(vec!["c".to_string(), "a".to_string()]) });
    assert_eq!(fx, vec![Effect::NotifyAlert { index: 0 }, Effect::StoreAlerts]);
    assert_eq!(s.seen_alert_ids, vec!["c".to_string(), "a".to_string()]);
    // "b" cleared in the previous batch, so its return notifies again.
    let fx = s.update(Message::AlertsUpdated { generation: g, result: Some(vec!["a".to_string(), "b".to_string()]) });
    assert_eq!(fx, vec![Effect::NotifyAlert { index: 1 }, Effect::StoreAlerts]);
    let fx = s.update(Message::AlertsUpdated { generation: g, result: None });
    assert!(fx.is_empty());
    assert_eq!(s.alert_ids, vec!["a".to_string(), "b".to_string()]);
}

#[test]
fn panel_toggles_flip_back() {
    let mut s = started(manual_config());
    let before = (s.config.show_aqi_in_panel, s.config.show_dew_point_in_panel);
    assert_eq!(s.update(Message::ToggleShowAqiInPanel), vec![Effect::SaveConfig]);
    assert_eq!(s.config.show_aqi_in_panel, !before.0);
    s.update(Message::ToggleShowAqiInPanel);
    s.update(Message::ToggleShowDewPointInPanel);
    s.update(Message::ToggleShowDewPointInPanel);
    assert_eq!((s.config.show_aqi_in_panel, s.config.show_dew_point_in_panel), before);
}

#[test]
fn auto_location_round_trip_restores_location() {
    let mut c = manual_config();
    c.latitude = 48.85f64.to_bits();
    c.longitude = 2.35f64.to_bits();
    c.location_name = "Paris, France".to_string();
    let mut s = started(c);
    let fx = s.update(Message::ToggleAutoLocation);
    assert_eq!(fx, vec![Effect::SaveConfig, Effect::DetectLocation]);
    assert!(s.config.use_auto_location);
    assert_eq!(s.config.manual_location_name.as_deref(), Some("Paris, France"));
    s.update(Message::LocationDetected(Some(place("Berlin, Germany", 52.5, 13.4, "Germany"))));
    assert_eq!(s.config.location_name, "Berlin, Germany");
    assert_eq!(s.config.temperature_unit, TemperatureUnit::Celsius);
    let fx = s.update(Message::ToggleAutoLocation);
    assert_eq!(fx, vec![Effect::SaveConfig, Effect::RefreshWeather]);
    assert!(!s.config.use_auto_location);
    assert_eq!(s.config.latitude, 48.85f64.to_bits());
    assert_eq!(s.config.longitude, 2.35f64.to_bits());
    assert_eq!(s.config.location_name, "Paris, France");
}

#[test]
fn failed_detection_changes_nothing() {
    let mut s = started(Config::default());
    let fx = s.update(Message::LocationDetected(None));
    assert!(fx.is_empty());
    assert_eq!(s.config.location_name, "New York, NY, United States");
}

#[test]
fn meteogram_off_moves_graph_to_current() {
    let mut s = started(manual_config());
    assert_eq!(s.update(Message::SelectTab(PopupTab::Graph)), vec![Effect::RebuildTabModel]);
    assert_eq!(s.active_tab, PopupTab::Graph);
    let fx = s.update(Message::ToggleShowMeteogram);
    assert_eq!(fx, vec![Effect::RebuildTabModel, Effect::SaveConfig]);
    assert!(!s.config.show_meteogram);
    assert_eq!(s.active_tab, PopupTab::Current);
    assert_eq!(s.config.default_tab, PopupTab::Current);
}

#[test]
fn bookmarks_stop_at_eight() {
    let mut c = manual_config();
    for i in 0..MAX_SAVED_LOCATIONS {
        c.saved_locations.push(SavedLocation { name: format!("City {i}"), latitude: i as u64, longitude: 0 });
    }
    let mut s = started(c);
    s.update(Message::CitySearchResult(Some(vec![place("Rome, Italy", 41.9, 12.5, "Italy")])));
    let fx = s.update(Message::SaveLocation { index: 0, already_saved: false });
    assert!(fx.is_empty());
    assert!(s.saved_locations_full);
    assert_eq!(s.config.saved_locations.len(), 8);
    assert_eq!(s.search_results.len(), 1);
    s.update(Message::UpdateCityInput("Ro".to_string()));
    assert!(!s.saved_locations_full);
}

#[test]
fn saving_appends_unless_already_saved() {
    let mut s = started(manual_config());
    s.update(Message::UpdateCityInput("Rome".to_string()));
    assert_eq!(s.update(Message::SearchCity), vec![Effect::SearchCity("Rome".to_string())]);
    s.update(Message::CitySearchResult(Some(vec![place("Rome, Italy", 41.9, 12.5, "Italy")])));
    let before = s.config.saved_locations.len();
    let fx = s.update(Message::SaveLocation { index: 0, already_saved: false });
    assert_eq!(fx, vec![Effect::SaveConfig]);
    assert_eq!(s.config.saved_locations.len(), before + 1);
    assert_eq!(s.config.saved_locations[before].name, "Rome, Italy");
    assert!(s.search_results.is_empty());
    assert!(s.city_input.is_empty());
    s.update(Message::CitySearchResult(Some(vec![place("Rome, Italy", 41.9, 12.5, "Italy")])));
    let fx = s.update(Message::SaveLocation { index: 0, already_saved: true });
    assert!(fx.is_empty());
    assert_eq!(s.config.saved_locations.len(), before + 1);
    let fx = s.update(Message::RemoveSavedLocation(before));
    assert_eq!(fx, vec![Effect::SaveConfig]);
    assert_eq!(s.config.saved_locations.len(), before);
    assert!(s.update(Message::RemoveSavedLocation(99)).is_empty());
}

#[test]
fn empty_search_text_does_not_search() {
    let s = started(manual_config());
    assert!(s.search_city().is_empty());
}

#[test]
fn selecting_a_result_applies_its_country_units() {
    let mut s = started(manual_config());
    s.update(Message::UpdateCityInput("Berl".to_string()));
    s.update(Message::CitySearchResult(Some(vec![place("Berlin, Germany", 52.52, 13.40, "Germany")])));
    let fx = s.update(Message::SelectLocation(0));
    assert_eq!(fx, vec![Effect::RebuildUnitModels, Effect::SaveConfig, Effect::RefreshWeather]);
    assert_eq!(s.config.location_name, "Berlin, Germany");
    assert_eq!(s.config.manual_location_name.as_deref(), Some("Berlin, Germany"));
    assert_eq!(s.config.manual_latitude, Some(52.52f64.to_bits()));
    assert_eq!(s.config.country.as_deref(), Some("Germany"));
    assert_eq!(
        (s.config.temperature_unit, s.config.measurement_system, s.config.pressure_unit),
        (TemperatureUnit::Celsius, MeasurementSystem::Metric, PressureUnit::Hpa)
    );
    assert!(s.city_input.is_empty() && s.search_results.is_empty());
    assert!(s.update(Message::SelectLocation(3)).is_empty());
}

#[test]
fn switching_to_a_bookmark_takes_its_country_from_the_name() {
    let mut c = manual_config();
    c.saved_locations.push(SavedLocation { name: "Lyon, Auvergne, France ".to_string(), latitude: 7, longitude: 8 });
    let mut s = started(c);
    s.update(Message::ShowLocations);
    let fx = s.update(Message::SwitchLocation(0));
    assert_eq!(fx, vec![Effect::SaveConfig, Effect::RefreshWeather]);
    assert_eq!(s.config.country.as_deref(), Some("France"));
    assert_eq!(s.config.latitude, 7);
    assert!(!s.showing_locations);
    assert!(s.update(Message::SwitchLocation(5)).is_empty());
}

#[test]
fn refresh_interval_commits_only_valid_minutes() {
    let mut s = started(manual_config());
    s.update(Message::UpdateRefreshInterval("30".to_string()));
    assert_eq!(s.update(Message::CommitRefreshInterval), vec![Effect::SaveConfig]);
    assert_eq!(s.config.refresh_interval_minutes, 30);
    for bad in ["0", "1441", "abc", "", "-5"] {
        s.update(Message::UpdateRefreshInterval(bad.to_string()));
        assert!(s.update(Message::CommitRefreshInterval).is_empty());
        assert_eq!(s.config.refresh_interval_minutes, 30);
        assert_eq!(s.refresh_input, "30");
    }
    s.update(Message::UpdateRefreshInterval("1440".to_string()));
    s.update(Message::CommitRefreshInterval);
    assert_eq!(s.config.refresh_interval_minutes, 1440);
}

#[test]
fn token_commit_trims_and_empties_to_none() {
    let mut s = started(manual_config());
    s.update(Message::UpdateAqicnToken("  abc123  ".to_string()));
    assert_eq!(s.update(Message::CommitAqicnToken), vec![Effect::SaveConfig]);
    assert_eq!(s.config.aqicn_token.as_deref(), Some("abc123"));
    assert_eq!(s.aqicn_token_input, "abc123");
    s.update(Message::UpdateAqicnToken("   ".to_string()));
    s.update(Message::CommitAqicnToken);
    assert_eq!(s.config.aqicn_token, None);
    assert_eq!(s.aqicn_token_input, "");
}

#[test]
fn closing_the_popup_commits_pending_edits() {
    let mut s = started(manual_config());
    assert_eq!(s.update(Message::TogglePopup), vec![Effect::OpenPopup, Effect::QueryScreenResolution]);
    assert!(s.popup_open);
    s.update(Message::UpdateRefreshInterval("45".to_string()));
    s.update(Message::SelectTab(PopupTab::Hourly));
    s.update(Message::ShowPollen);
    let fx = s.update(Message::TogglePopup);
    assert_eq!(fx.last(), Some(&Effect::ClosePopup));
    assert!(!s.popup_open);
    assert_eq!(s.config.refresh_interval_minutes, 45);
    assert_eq!(s.config.default_tab, PopupTab::Hourly);
    s.update(Message::TogglePopup);
    s.update(Message::ShowPollen);
    let fx = s.update(Message::PopupClosed { is_current: true });
    assert!(!fx.is_empty());
    assert!(!s.showing_pollen && !s.popup_open);
    assert!(s.update(Message::PopupClosed { is_current: true }).is_empty());
}

#[test]
fn alerts_off_clears_and_stops_fetching_alerts() {
    let mut s = started(manual_config());
    s.update(Message::RefreshWeather);
    let g = s.fetch_generation;
    s.update(Message::AlertsUpdated { generation: g, result: Some(vec!["a".to_string()]) });
    let fx = s.update(Message::ToggleAlertsEnabled);
    assert_eq!(fx, vec![Effect::ClearAlerts, Effect::SaveConfig, Effect::RefreshWeather]);
    assert!(s.alert_ids.is_empty());
    let fx = s.update(Message::RefreshWeather);
    assert!(!fx.iter().any(|e| matches!(e, Effect::FetchAlerts { .. })));
    assert_eq!(s.update(Message::ToggleAlertsEnabled), vec![Effect::SaveConfig, Effect::RefreshWeather]);
}

#[test]
fn auto_units_follow_the_stored_country() {
    let mut c = manual_config();
    c.auto_units = false;
    c.country = Some("Liberia".to_string());
    c.temperature_unit = TemperatureUnit::Celsius;
    let mut s = started(c);
    let fx = s.update(Message::ToggleAutoUnits);
    assert_eq!(fx, vec![Effect::RebuildUnitModels, Effect::SaveConfig, Effect::RefreshWeather]);
    assert_eq!(s.config.temperature_unit, TemperatureUnit::Fahrenheit);
    assert_eq!(s.config.pressure_unit, PressureUnit::InHg);
    let fx = s.update(Message::ToggleAutoUnits);
    assert_eq!(fx, vec![Effect::SaveConfig, Effect::RefreshWeather]);
}

#[test]
fn unit_choices_save_and_refresh() {
    let mut s = started(manual_config());
    assert_eq!(
        s.update(Message::TemperatureUnitActivated(Some(TemperatureUnit::Celsius))),
        vec![Effect::SaveConfig, Effect::RefreshWeather]
    );
    assert_eq!(s.config.temperature_unit, TemperatureUnit::Celsius);
    assert_eq!(s.update(Message::PressureUnitActivated(Some(PressureUnit::Psi))), vec![Effect::SaveConfig]);
    assert_eq!(s.config.pressure_unit, PressureUnit::Psi);
    assert!(s.update(Message::MeasurementActivated(None)).is_empty());
}

#[test]
fn time_format_and_connectivity_messages() {
    let mut c = manual_config();
    c.last_updated = Some(5);
    let mut s = started(c);
    let fx = s.update(Message::SystemTimeConfig(TimeAppletConfig { military_time: true }));
    assert_eq!(fx, vec![Effect::ClearMeteogramCache, Effect::UpdateTimestampDisplay]);
    assert!(s.military_time);
    assert_eq!(s.update(Message::NetworkConnected), vec![Effect::RefreshWeather]);
    assert_eq!(s.update(Message::SystemResumed), vec![Effect::ResetHttpClient, Effect::RefreshWeather]);
    assert_eq!(s.update(Message::OpenLink(Link::Kofi)), vec![Effect::OpenLink(Link::Kofi)]);
    assert_eq!(s.update(Message::RetryFetch), vec![Effect::RefreshWeather]);
    assert_eq!(s.update(Message::DetectLocation), vec![Effect::DetectLocation]);
}

#[test]
fn pride_toggle_and_pollen_results() {
    let mut s = started(manual_config());
    assert_eq!(s.update(Message::TogglePrideAccent), vec![Effect::SaveConfig]);
    assert!(!s.config.pride_accent);
    s.update(Message::RefreshWeather);
    let g = s.fetch_generation;
    s.update(Message::PollenUpdated { generation: g, result: tempest::state::PollenFetch::NotCovered });
    assert_eq!(s.pollen, tempest::state::PollenState::Unavailable);
}

#[test]
fn tab_bar_segments() {
    let bar = tab_bar(Some(PopupTab::Graph), true);
    assert_eq!(bar.tabs, vec![PopupTab::Current, PopupTab::Hourly, PopupTab::Forecast, PopupTab::Graph]);
    assert_eq!(bar.selected, Some(3));
    let bar = tab_bar(Some(PopupTab::Graph), false);
    assert_eq!(bar.tabs.len(), 3);
    assert_eq!(bar.selected, None);
    assert_eq!(tab_bar(tab_for_segmented_control(PopupTab::Settings), true).selected, None);
    assert_eq!(tab_for_segmented_control(PopupTab::Alerts), None);
    assert_eq!(tab_for_segmented_control(PopupTab::Hourly), Some(PopupTab::Hourly));
}

#[test]
fn unit_selectors_mark_the_active_unit() {
    assert_eq!(temperature_segments(TemperatureUnit::Fahrenheit), (vec![TemperatureUnit::Celsius, TemperatureUnit::Fahrenheit], 1));
    assert_eq!(measurement_segments(MeasurementSystem::Metric).1, 0);
    assert_eq!(pressure_segments(PressureUnit::Psi), (vec![PressureUnit::Hpa, PressureUnit::InHg, PressureUnit::Psi], 2));
}
