//! The applet's state, the messages it handles and the outside work it asks
//! for, and what each message does, stated over them.
use crate::config::{
    Config, MeasurementSystem, PopupTab, PressureUnit, SavedLocation, TemperatureUnit,
    TimeAppletConfig,
};
use crate::pollen::PollenReadings;
use crate::text::{after_last_comma, decimal_string, trimmed, u64_from_str};
use crate::units::units_of;
use vstd::prelude::*;

verus! {

/// Most bookmarked locations the user can save.
pub const MAX_SAVED_LOCATIONS: usize = 8;

/// Retry delays (seconds) after consecutive failed weather fetches.
pub open spec fn backoff_delay(retry: nat) -> u64 {
    if retry == 0 {
        5
    } else if retry == 1 {
        15
    } else if retry == 2 {
        30
    } else {
        60
    }
}

/// Number of scheduled retries before giving up until the next refresh.
pub const MAX_RETRIES: u8 = 4;

/// The tab the segmented control shows as selected: Settings and Alerts are
/// not part of it.
pub open spec fn segment_of(tab: PopupTab) -> Option<PopupTab> {
    match tab {
        PopupTab::Settings | PopupTab::Alerts => None,
        other => Some(other),
    }
}

/// The segments of the tab bar: Current, Hourly, Forecast, and Graph only
/// when the meteogram is enabled.
pub open spec fn segment_tabs(show_meteogram: bool) -> Seq<PopupTab> {
    if show_meteogram {
        seq![PopupTab::Current, PopupTab::Hourly, PopupTab::Forecast, PopupTab::Graph]
    } else {
        seq![PopupTab::Current, PopupTab::Hourly, PopupTab::Forecast]
    }
}

/// The tab bar's segments and the index of the one to activate.
pub struct TabBar {
    pub tabs: Vec<PopupTab>,
    pub selected: Option<usize>,
}

/// Air-quality scale a reading is expressed in.
#[derive(Debug, Clone, Copy, PartialEq, Eq, Structural)]
pub enum AqiStandard {
    Us,
    Eu,
}

/// The label the panel button shows.
#[derive(Debug, Clone, Copy, PartialEq, Eq, Structural)]
pub enum PanelLabel {
    /// Nothing fetched yet ("...").
    Pending,
    /// The current temperature, in the unit that was active when it arrived.
    Temperature(TemperatureUnit),
    /// The fetch failed and there is no reading to show.
    Error,
}

/// What is known of the pollen forecast.
#[derive(Debug, Clone, Copy, PartialEq, Eq, Structural)]
pub enum PollenState {
    /// No answer yet.
    NotFetched,
    /// The location has no coverage, or the fetch failed.
    Unavailable,
    /// The readings of the latest forecast.
    Forecast(PollenReadings),
}

/// Outcome of a pollen fetch.
#[derive(Debug, Clone, Copy, PartialEq, Eq, Structural)]
pub enum PollenFetch {
    Forecast(PollenReadings),
    NotCovered,
    Failed,
}

/// A location offered by a search or an automatic detection.
#[derive(Debug, Clone)]
pub struct Place {
    pub display_name: String,
    /// Bit pattern of the latitude in degrees.
    pub latitude: u64,
    /// Bit pattern of the longitude in degrees.
    pub longitude: u64,
    pub country: String,
}

/// External links the support section opens.
#[derive(Debug, Clone, Copy, PartialEq, Eq, Structural)]
pub enum Link {
    Kofi,
    SourceCode,
    WorkItems,
}

/// A message the applet receives, with the outside results it carries
/// reduced to what the decisions read.
pub enum Message {
    TogglePopup,
    /// A popup window closed; `is_current` tells whether its id is the one the
    /// host holds for the open popup.
    PopupClosed { is_current: bool },
    RefreshWeather,
    /// A weather fetch finished; `now` is the wall-clock Unix time.
    WeatherUpdated { generation: u64, ok: bool, now: i64 },
    AirQualityUpdated { generation: u64, result: Option<(i32, AqiStandard)> },
    /// An alerts fetch finished with the alert ids in order, or failed.
    AlertsUpdated { generation: u64, result: Option<Vec<String>> },
    Tick,
    ToggleAlertsEnabled,
    ToggleAutoUnits,
    ToggleShowAqiInPanel,
    ToggleShowIconInPanel,
    ToggleShowPressureInPanel,
    ToggleShowDewPointInPanel,
    ToggleShowSunriseSunsetInPanel,
    ToggleShowMeteogram,
    TogglePrideAccent,
    UpdateCityInput(String),
    SearchCity,
    CitySearchResult(Option<Vec<Place>>),
    SelectLocation(usize),
    UpdateRefreshInterval(String),
    UpdateAqicnToken(String),
    CommitRefreshInterval,
    CommitAqicnToken,
    DetectLocation,
    LocationDetected(Option<Place>),
    ToggleAutoLocation,
    SelectTab(PopupTab),
    /// A tab-bar segment was activated; its tab, when it carries one.
    TabActivated(Option<PopupTab>),
    TemperatureUnitActivated(Option<TemperatureUnit>),
    MeasurementActivated(Option<MeasurementSystem>),
    PressureUnitActivated(Option<PressureUnit>),
    SystemTimeConfig(TimeAppletConfig),
    ShowPollutants,
    HidePollutants,
    PollenUpdated { generation: u64, result: PollenFetch },
    ShowPollen,
    HidePollen,
    /// Bookmark a search result; `already_saved` tells whether a bookmark
    /// with matching coordinates exists.
    SaveLocation { index: usize, already_saved: bool },
    RemoveSavedLocation(usize),
    ShowLocations,
    HideLocations,
    SwitchLocation(usize),
    OpenLink(Link),
    RetryFetch,
    NetworkConnected,
    SystemResumed,
}

/// Outside work the host performs after an update, in order.
#[derive(Debug, PartialEq, Eq)]
pub enum Effect {
    OpenPopup,
    ClosePopup,
    QueryScreenResolution,
    /// Deliver a `RefreshWeather` message.
    RefreshWeather,
    FetchWeather { generation: u64 },
    FetchAirQuality { generation: u64 },
    FetchAlerts { generation: u64 },
    FetchPollen { generation: u64 },
    DetectLocation,
    SearchCity(String),
    /// Deliver a `RetryFetch` message after the delay.
    RetryAfter { seconds: u64 },
    SaveConfig,
    RebuildTabModel,
    RebuildUnitModels,
    ClearMeteogramCache,
    /// Keep the weather payload of the message being handled.
    StoreWeather,
    /// Keep the air-quality payload of the message being handled.
    StoreAirQuality,
    /// Keep the alerts payload of the message being handled.
    StoreAlerts,
    /// Drop the alerts held.
    ClearAlerts,
    /// Notify the alert at this position of the payload being handled.
    NotifyAlert { index: usize },
    /// Re-render the "updated at" time from `config.last_updated`.
    UpdateTimestampDisplay,
    OpenLink(Link),
    ResetHttpClient,
}

/// The applet's decision state.
pub struct Tempest {
    pub config: Config,
    pub popup_open: bool,
    /// A weather reading is held.
    pub has_weather: bool,
    /// An air-quality reading is held.
    pub has_air_quality: bool,
    /// AQI value and scale shown in the panel.
    pub current_aqi: Option<(i32, AqiStandard)>,
    /// Ids of the active alerts, in order.
    pub alert_ids: Vec<String>,
    /// Ids of alerts already notified.
    pub seen_alert_ids: Vec<String>,
    pub city_input: String,
    pub refresh_input: String,
    pub aqicn_token_input: String,
    pub search_results: Vec<Place>,
    pub panel_label: PanelLabel,
    pub is_loading: bool,
    /// The full error view is shown (no weather to fall back on).
    pub weather_error: bool,
    /// A refresh failed while a previous reading is still shown.
    pub refresh_failed: bool,
    pub active_tab: PopupTab,
    pub military_time: bool,
    pub showing_pollutants: bool,
    pub showing_locations: bool,
    pub showing_pollen: bool,
    pub pollen: PollenState,
    /// A save was attempted with every bookmark slot taken.
    pub saved_locations_full: bool,
    /// Consecutive failed weather fetches driving the retry schedule.
    pub retry_count: u8,
    /// Request generation, bumped at every refresh.
    pub fetch_generation: u64,
}

/// The views of a sequence of strings.
pub open spec fn views(v: Seq<String>) -> Seq<Seq<char>> {
    v.map_values(|s: String| s@)
}

/// The distinct elements of `ids`, each at its first position.
pub open spec fn distinct(ids: Seq<Seq<char>>) -> Seq<Seq<char>>
    decreases ids.len(),
{
    if ids.len() == 0 {
        Seq::empty()
    } else {
        let prefix = distinct(ids.drop_last());
        if ids.drop_last().contains(ids.last()) {
            prefix
        } else {
            prefix.push(ids.last())
        }
    }
}

/// One notification for each alert of the batch whose id was neither seen
/// before nor met earlier in the batch.
pub open spec fn alert_notifications(seen: Seq<Seq<char>>, ids: Seq<Seq<char>>) -> Seq<Effect>
    decreases ids.len(),
{
    if ids.len() == 0 {
        Seq::empty()
    } else {
        let prev = alert_notifications(seen, ids.drop_last());
        if seen.contains(ids.last()) || ids.drop_last().contains(ids.last()) {
            prev
        } else {
            prev.push(Effect::NotifyAlert { index: (ids.len() - 1) as usize })
        }
    }
}

/// The well-formedness of the state: the seen alert ids hold no duplicate,
/// and the retry counter never passes the number of scheduled retries.
pub open spec fn well_formed(s: Tempest) -> bool {
    &&& views(s.seen_alert_ids@).no_duplicates()
    &&& s.retry_count <= MAX_RETRIES
}

/// The state right after start-up with the given settings.
pub open spec fn fresh_state(s: Tempest, config: Config, military_time: bool) -> bool {
    &&& s.config == config
    &&& !s.popup_open
    &&& !s.has_weather
    &&& !s.has_air_quality
    &&& s.current_aqi is None
    &&& s.alert_ids@.len() == 0
    &&& s.seen_alert_ids@.len() == 0
    &&& s.city_input@.len() == 0
    &&& s.refresh_input@ == decimal_string(config.refresh_interval_minutes as nat)
    &&& s.aqicn_token_input@ == (match config.aqicn_token {
        Some(t) => t@,
        None => Seq::empty(),
    })
    &&& s.search_results@.len() == 0
    &&& s.panel_label == PanelLabel::Pending
    &&& s.is_loading
    &&& !s.weather_error
    &&& !s.refresh_failed
    &&& s.active_tab == (if config.default_tab == PopupTab::Graph && !config.show_meteogram {
        PopupTab::Current
    } else {
        config.default_tab
    })
    &&& s.military_time == military_time
    &&& !s.showing_pollutants
    &&& !s.showing_locations
    &&& !s.showing_pollen
    &&& s.pollen == PollenState::NotFetched
    &&& !s.saved_locations_full
    &&& s.retry_count == 0
    &&& s.fetch_generation == 0
}

// ----- Commit of the buffered text fields -----------------------------------

/// The refresh-interval buffer holds a number of minutes in 1..=1440.
pub open spec fn refresh_input_valid(s: Tempest) -> bool {
    match u64_from_str(s.refresh_input@) {
        Some(n) => 1 <= n <= 1440,
        None => false,
    }
}

/// Committing the refresh interval: a valid buffer is persisted (with a
/// save); anything else reverts the buffer to the persisted value.
pub open spec fn post_commit_refresh(s: Tempest, t: Tempest, fx: Seq<Effect>) -> bool {
    &&& t == Tempest {
        refresh_input: t.refresh_input,
        config: Config { refresh_interval_minutes: t.config.refresh_interval_minutes, ..s.config },
        ..s
    }
    &&& if refresh_input_valid(s) {
        &&& t.config.refresh_interval_minutes == u64_from_str(s.refresh_input@)->0
        &&& t.refresh_input == s.refresh_input
        &&& fx =~= seq![Effect::SaveConfig]
    } else {
        &&& t.config.refresh_interval_minutes == s.config.refresh_interval_minutes
        &&& t.refresh_input@ == decimal_string(s.config.refresh_interval_minutes as nat)
        &&& fx =~= Seq::<Effect>::empty()
    }
}

/// The token a buffer commits to: its trimmed text, or none when that is
/// empty.
pub open spec fn token_matches(token: Option<String>, buffer: Seq<char>) -> bool {
    match token {
        Some(t) => trimmed(buffer).len() > 0 && t@ == trimmed(buffer),
        None => trimmed(buffer).len() == 0,
    }
}

/// Committing the AQI token: the trimmed buffer is stored (none when empty),
/// the buffer shows the trimmed text, and the settings are saved.
pub open spec fn post_commit_token(s: Tempest, t: Tempest, fx: Seq<Effect>) -> bool {
    &&& t == Tempest {
        aqicn_token_input: t.aqicn_token_input,
        config: Config { aqicn_token: t.config.aqicn_token, ..s.config },
        ..s
    }
    &&& t.aqicn_token_input@ == trimmed(s.aqicn_token_input@)
    &&& token_matches(t.config.aqicn_token, s.aqicn_token_input@)
    &&& fx =~= seq![Effect::SaveConfig]
}

/// Committing every pending edit: refresh interval, AQI token, and the
/// active tab as the tab to reopen; then a save.
#[verifier::opaque]
pub open spec fn post_commit_pending(s: Tempest, t: Tempest, fx: Seq<Effect>) -> bool {
    &&& t == Tempest {
        refresh_input: t.refresh_input,
        aqicn_token_input: t.aqicn_token_input,
        config: Config {
            refresh_interval_minutes: t.config.refresh_interval_minutes,
            aqicn_token: t.config.aqicn_token,
            default_tab: s.active_tab,
            ..s.config
        },
        ..s
    }
    &&& (if refresh_input_valid(s) {
        &&& t.config.refresh_interval_minutes == u64_from_str(s.refresh_input@)->0
        &&& t.refresh_input == s.refresh_input
        &&& fx =~= seq![Effect::SaveConfig, Effect::SaveConfig, Effect::SaveConfig]
    } else {
        &&& t.config.refresh_interval_minutes == s.config.refresh_interval_minutes
        &&& t.refresh_input@ == decimal_string(s.config.refresh_interval_minutes as nat)
        &&& fx =~= seq![Effect::SaveConfig, Effect::SaveConfig]
    })
    &&& t.aqicn_token_input@ == trimmed(s.aqicn_token_input@)
    &&& token_matches(t.config.aqicn_token, s.aqicn_token_input@)
}

// ----- Fetch results ----------------------------------------------------------

/// A refresh: loading, no error, the generation bumped, and one fetch per
/// source tagged with it (alerts only when enabled).
pub open spec fn post_refresh(s: Tempest, t: Tempest, fx: Seq<Effect>) -> bool {
    let g = (s.fetch_generation + 1) as u64;
    &&& t == Tempest { is_loading: true, weather_error: false, fetch_generation: g, ..s }
    &&& fx =~= (if s.config.alerts_enabled {
        seq![
            Effect::FetchWeather { generation: g },
            Effect::FetchAirQuality { generation: g },
            Effect::FetchAlerts { generation: g },
            Effect::FetchPollen { generation: g },
        ]
    } else {
        seq![
            Effect::FetchWeather { generation: g },
            Effect::FetchAirQuality { generation: g },
            Effect::FetchPollen { generation: g },
        ]
    })
}

/// A weather result: dropped unless current; a success stores the reading,
/// resets the retry schedule and stamps the refresh time; a failure keeps a
/// held reading (marked stale) or shows the error, and schedules the next
/// retry while retries remain.
pub open spec fn post_weather_updated(
    s: Tempest,
    t: Tempest,
    fx: Seq<Effect>,
    generation: u64,
    ok: bool,
    now: i64,
) -> bool {
    if generation != s.fetch_generation {
        t == s && fx =~= Seq::<Effect>::empty()
    } else if ok {
        &&& t == Tempest {
            is_loading: false,
            retry_count: 0,
            panel_label: PanelLabel::Temperature(s.config.temperature_unit),
            has_weather: true,
            weather_error: false,
            refresh_failed: false,
            config: Config { last_updated: Some(now), ..s.config },
            ..s
        }
        &&& fx =~= seq![
            Effect::StoreWeather,
            Effect::ClearMeteogramCache,
            Effect::UpdateTimestampDisplay,
            Effect::SaveConfig,
        ]
    } else {
        let retry = s.retry_count < MAX_RETRIES;
        &&& t == Tempest {
            is_loading: false,
            refresh_failed: t.refresh_failed,
            panel_label: t.panel_label,
            weather_error: t.weather_error,
            retry_count: t.retry_count,
            ..s
        }
        &&& if s.has_weather {
            &&& t.refresh_failed
            &&& t.panel_label == s.panel_label
            &&& t.weather_error == s.weather_error
        } else {
            &&& t.refresh_failed == s.refresh_failed
            &&& t.panel_label == PanelLabel::Error
            &&& t.weather_error
        }
        &&& if retry {
            &&& t.retry_count == s.retry_count + 1
            &&& fx =~= seq![Effect::RetryAfter { seconds: backoff_delay(s.retry_count as nat) }]
        } else {
            &&& t.retry_count == s.retry_count
            &&& fx =~= Seq::<Effect>::empty()
        }
    }
}

/// An air-quality result: dropped unless current; a success is shown and
/// kept, a failure keeps the last good reading.
pub open spec fn post_air_quality_updated(
    s: Tempest,
    t: Tempest,
    fx: Seq<Effect>,
    generation: u64,
    result: Option<(i32, AqiStandard)>,
) -> bool {
    if generation != s.fetch_generation || result is None {
        t == s && fx =~= Seq::<Effect>::empty()
    } else {
        &&& t == Tempest { current_aqi: result, has_air_quality: true, ..s }
        &&& fx =~= seq![Effect::StoreAirQuality]
    }
}

/// An alerts result: dropped unless current or failed; otherwise every alert
/// not notified before is notified once, the batch becomes the active
/// alerts, and the seen set becomes exactly the batch's ids.
pub open spec fn post_alerts_updated(
    s: Tempest,
    t: Tempest,
    fx: Seq<Effect>,
    generation: u64,
    result: Option<Vec<String>>,
) -> bool {
    match result {
        Some(ids) if generation == s.fetch_generation => {
            &&& t == Tempest { alert_ids: t.alert_ids, seen_alert_ids: t.seen_alert_ids, ..s }
            &&& t.alert_ids@ == ids@
            &&& views(t.seen_alert_ids@) =~= distinct(views(ids@))
            &&& fx =~= alert_notifications(views(s.seen_alert_ids@), views(ids@)).push(
                Effect::StoreAlerts,
            )
        },
        _ => t == s && fx =~= Seq::<Effect>::empty(),
    }
}

/// A pollen result: dropped unless current; a forecast is kept, anything
/// else means no pollen data.
pub open spec fn post_pollen_updated(
    s: Tempest,
    t: Tempest,
    fx: Seq<Effect>,
    generation: u64,
    result: PollenFetch,
) -> bool {
    &&& fx =~= Seq::<Effect>::empty()
    &&& if generation != s.fetch_generation {
        t == s
    } else {
        t == Tempest {
            pollen: match result {
                PollenFetch::Forecast(d) => PollenState::Forecast(d),
                _ => PollenState::Unavailable,
            },
            ..s
        }
    }
}

// ----- Locations ---------------------------------------------------------------

/// The settings after applying the units of `country` when automatic units
/// are on (unchanged otherwise).
pub open spec fn config_with_units(c: Config, country: Seq<char>) -> Config {
    if c.auto_units {
        Config {
            temperature_unit: units_of(country).0,
            measurement_system: units_of(country).1,
            pressure_unit: units_of(country).2,
            ..c
        }
    } else {
        c
    }
}

/// The unit-model rebuild that applying a country's units asks for.
pub open spec fn unit_effects(c: Config) -> Seq<Effect> {
    if c.auto_units {
        seq![Effect::RebuildUnitModels]
    } else {
        Seq::<Effect>::empty()
    }
}

/// `t` holds the place as the active, manually chosen location with the given
/// country, auto-location off; other settings as in `c`.
pub open spec fn config_at_place(
    t: Config,
    c: Config,
    name: Seq<char>,
    latitude: u64,
    longitude: u64,
) -> bool {
    &&& t == Config {
        location_name: t.location_name,
        manual_location_name: t.manual_location_name,
        country: t.country,
        latitude,
        longitude,
        manual_latitude: Some(latitude),
        manual_longitude: Some(longitude),
        use_auto_location: false,
        ..c
    }
    &&& t.location_name@ == name
    &&& t.manual_location_name matches Some(n) && n@ == name
}

/// Picking a search result: it becomes the manual location with its country,
/// units follow the country, the search is cleared, settings saved, weather
/// refreshed. An index past the results does nothing.
pub open spec fn post_select_location(s: Tempest, t: Tempest, fx: Seq<Effect>, idx: usize) -> bool {
    if idx >= s.search_results@.len() {
        t == s && fx =~= Seq::<Effect>::empty()
    } else {
        let p = s.search_results@[idx as int];
        let placed = Config { country: t.config.country, ..s.config };
        &&& t == Tempest {
            config: t.config,
            city_input: t.city_input,
            search_results: t.search_results,
            ..s
        }
        &&& t.city_input@.len() == 0
        &&& t.search_results@.len() == 0
        &&& t.config.country matches Some(c) && c@ == p.country@
        &&& exists|m: Config|
            config_at_place(m, s.config, p.display_name@, p.latitude, p.longitude) && m.country
                == t.config.country && t.config == config_with_units(m, p.country@)
        &&& fx =~= unit_effects(s.config) + seq![Effect::SaveConfig, Effect::RefreshWeather]
    }
}

/// An automatically detected place becomes the active location (manual
/// fields untouched), with its country and units; settings saved, weather
/// refreshed. A failed detection does nothing.
pub open spec fn post_location_detected(
    s: Tempest,
    t: Tempest,
    fx: Seq<Effect>,
    result: Option<Place>,
) -> bool {
    match result {
        None => t == s && fx =~= Seq::<Effect>::empty(),
        Some(p) => {
            &&& t == Tempest { config: t.config, ..s }
            &&& t.config.location_name@ == p.display_name@
            &&& t.config.country matches Some(c) && c@ == p.country@
            &&& t.config == config_with_units(
                Config {
                    latitude: p.latitude,
                    longitude: p.longitude,
                    location_name: t.config.location_name,
                    country: t.config.country,
                    ..s.config
                },
                p.country@,
            )
            &&& fx =~= unit_effects(s.config) + seq![Effect::SaveConfig, Effect::RefreshWeather]
        },
    }
}

/// Switching auto-location on keeps the current location as the manual one
/// and starts a detection.
pub open spec fn post_auto_location_on(s: Tempest, t: Tempest, fx: Seq<Effect>) -> bool {
    &&& t == Tempest {
        config: Config {
            use_auto_location: true,
            manual_latitude: Some(s.config.latitude),
            manual_longitude: Some(s.config.longitude),
            manual_location_name: t.config.manual_location_name,
            ..s.config
        },
        ..s
    }
    &&& t.config.manual_location_name matches Some(n) && n@ == s.config.location_name@
    &&& fx =~= seq![Effect::SaveConfig, Effect::DetectLocation]
}

/// Switching auto-location off restores the kept manual location (when all
/// of it is kept) and refreshes.
pub open spec fn post_auto_location_off(s: Tempest, t: Tempest, fx: Seq<Effect>) -> bool {
    &&& fx =~= seq![Effect::SaveConfig, Effect::RefreshWeather]
    &&& t == Tempest {
        config: Config {
            use_auto_location: false,
            latitude: t.config.latitude,
            longitude: t.config.longitude,
            location_name: t.config.location_name,
            ..s.config
        },
        ..s
    }
    &&& match (s.config.manual_latitude, s.config.manual_longitude, s.config.manual_location_name) {
        (Some(lat), Some(lon), Some(name)) => {
            &&& t.config.latitude == lat
            &&& t.config.longitude == lon
            &&& t.config.location_name@ == name@
        },
        _ => {
            &&& t.config.latitude == s.config.latitude
            &&& t.config.longitude == s.config.longitude
            &&& t.config.location_name == s.config.location_name
        },
    }
}

/// Toggling auto-location: on keeps the manual fallback and detects, off
/// restores it; settings are saved either way.
pub open spec fn post_toggle_auto_location(s: Tempest, t: Tempest, fx: Seq<Effect>) -> bool {
    if s.config.use_auto_location {
        post_auto_location_off(s, t, fx)
    } else {
        post_auto_location_on(s, t, fx)
    }
}

/// Switching to a bookmark: it becomes the manual location, its country is
/// taken from the last comma-separated part of its name, the bookmarks view
/// closes, settings saved, weather refreshed. An index past the bookmarks
/// does nothing.
pub open spec fn post_switch_location(s: Tempest, t: Tempest, fx: Seq<Effect>, idx: usize) -> bool {
    if idx >= s.config.saved_locations@.len() {
        t == s && fx =~= Seq::<Effect>::empty()
    } else {
        let l = s.config.saved_locations@[idx as int];
        &&& t == Tempest { config: t.config, showing_locations: false, ..s }
        &&& config_at_place(t.config, s.config, l.name@, l.latitude, l.longitude)
        &&& t.config.country matches Some(c) && c@ == trimmed(after_last_comma(l.name@))
        &&& fx =~= seq![Effect::SaveConfig, Effect::RefreshWeather]
    }
}

/// Bookmarking a search result: with every slot taken, the cap is flagged and
/// the search kept; otherwise the result is appended unless already saved
/// (with a save), and the flag, the search results and the search text are
/// cleared. An index past the results only clears.
pub open spec fn post_save_location(
    s: Tempest,
    t: Tempest,
    fx: Seq<Effect>,
    idx: usize,
    already_saved: bool,
) -> bool {
    if idx < s.search_results@.len() && s.config.saved_locations@.len() >= MAX_SAVED_LOCATIONS {
        t == (Tempest { saved_locations_full: true, ..s }) && fx =~= Seq::<Effect>::empty()
    } else {
        post_save_under_cap(s, t, fx, idx, already_saved)
    }
}

/// Bookmarking below the cap (or with an index past the results): the result
/// is appended unless already saved, and the cap flag, the search results and
/// the search text are cleared.
pub open spec fn post_save_under_cap(
    s: Tempest,
    t: Tempest,
    fx: Seq<Effect>,
    idx: usize,
    already_saved: bool,
) -> bool {
    &&& t == Tempest {
        config: Config { saved_locations: t.config.saved_locations, ..s.config },
        saved_locations_full: false,
        search_results: t.search_results,
        city_input: t.city_input,
        ..s
    }
    &&& t.search_results@.len() == 0
    &&& t.city_input@.len() == 0
    &&& if idx < s.search_results@.len() && !already_saved {
        let p = s.search_results@[idx as int];
        &&& t.config.saved_locations@.len() == s.config.saved_locations@.len() + 1
        &&& t.config.saved_locations@.drop_last() == s.config.saved_locations@
        &&& t.config.saved_locations@.last().name@ == p.display_name@
        &&& t.config.saved_locations@.last().latitude == p.latitude
        &&& t.config.saved_locations@.last().longitude == p.longitude
        &&& fx =~= seq![Effect::SaveConfig]
    } else {
        &&& t.config.saved_locations == s.config.saved_locations
        &&& fx =~= Seq::<Effect>::empty()
    }
}

/// Opening the popup asks for the window and a resolution query; closing it
/// marks it closed and commits the pending edits, then asks for the window to
/// go.
pub open spec fn post_toggle_popup(s: Tempest, t: Tempest, fx: Seq<Effect>) -> bool {
    if s.popup_open {
        &&& fx.len() > 0
        &&& fx.last() == Effect::ClosePopup
        &&& post_commit_pending(Tempest { popup_open: false, ..s }, t, fx.drop_last())
    } else {
        &&& t == (Tempest { popup_open: true, ..s })
        &&& fx =~= seq![Effect::OpenPopup, Effect::QueryScreenResolution]
    }
}

/// The open popup closing by dismissal marks it closed, resets the overlays
/// and commits the pending edits; any other window closing changes nothing.
pub open spec fn post_popup_closed(s: Tempest, t: Tempest, fx: Seq<Effect>, is_current: bool) -> bool {
    if s.popup_open && is_current {
        post_commit_pending(
            Tempest {
                popup_open: false,
                showing_pollutants: false,
                showing_pollen: false,
                showing_locations: false,
                ..s
            },
            t,
            fx,
        )
    } else {
        t == s && fx =~= Seq::<Effect>::empty()
    }
}

/// On first run (no bookmarks, a named location) the active location becomes
/// the only bookmark; otherwise the bookmarks are kept.
pub open spec fn seeded_locations(config: Config, locations: Vec<SavedLocation>) -> bool {
    if config.saved_locations@.len() == 0 && config.location_name@.len() > 0 {
        &&& locations@.len() == 1
        &&& locations@[0].name@ == config.location_name@
        &&& locations@[0].latitude == config.latitude
        &&& locations@[0].longitude == config.longitude
    } else {
        locations == config.saved_locations
    }
}

/// The work start-up asks for: a save when a bookmark was seeded, the
/// "updated at" header when a refresh time is persisted, a detection or a
/// refresh, and the screen-resolution query.
pub open spec fn startup_effects(config: Config) -> Seq<Effect> {
    startup_effect_list(
        config.saved_locations@.len() == 0 && config.location_name@.len() > 0,
        config.last_updated is Some,
        config.use_auto_location,
    )
}

/// The start-up work for: a seeded bookmark, a persisted refresh time, and
/// auto-location.
pub open spec fn startup_effect_list(seeded: bool, has_timestamp: bool, auto: bool) -> Seq<Effect> {
    (if seeded {
        seq![Effect::SaveConfig]
    } else {
        Seq::<Effect>::empty()
    }) + (if has_timestamp {
        seq![Effect::UpdateTimestampDisplay]
    } else {
        Seq::<Effect>::empty()
    }) + seq![
        if auto {
            Effect::DetectLocation
        } else {
            Effect::RefreshWeather
        },
        Effect::QueryScreenResolution,
    ]
}

/// A panel item the user can show or hide.
#[derive(Debug, Clone, Copy, PartialEq, Eq, Structural)]
pub enum PanelItem {
    Aqi,
    Icon,
    Pressure,
    DewPoint,
    SunriseSunset,
}

/// Whether the panel shows an item.
pub open spec fn panel_flag(c: Config, item: PanelItem) -> bool {
    match item {
        PanelItem::Aqi => c.show_aqi_in_panel,
        PanelItem::Icon => c.show_icon_in_panel,
        PanelItem::Pressure => c.show_pressure_in_panel,
        PanelItem::DewPoint => c.show_dew_point_in_panel,
        PanelItem::SunriseSunset => c.show_sunrise_sunset_in_panel,
    }
}

/// The settings with the panel item's visibility set to `v`.
#[verifier::opaque]
pub open spec fn with_panel_flag(c: Config, item: PanelItem, v: bool) -> Config {
    match item {
        PanelItem::Aqi => Config { show_aqi_in_panel: v, ..c },
        PanelItem::Icon => Config { show_icon_in_panel: v, ..c },
        PanelItem::Pressure => Config { show_pressure_in_panel: v, ..c },
        PanelItem::DewPoint => Config { show_dew_point_in_panel: v, ..c },
        PanelItem::SunriseSunset => Config { show_sunrise_sunset_in_panel: v, ..c },
    }
}

/// Turning alerts off drops the held alerts; either way the setting is saved
/// and the weather refreshed.
pub open spec fn post_toggle_alerts(s: Tempest, t: Tempest, fx: Seq<Effect>) -> bool {
    let on = !s.config.alerts_enabled;
    &&& t == Tempest {
        config: Config { alerts_enabled: on, ..s.config },
        alert_ids: t.alert_ids,
        ..s
    }
    &&& if on {
        &&& t.alert_ids == s.alert_ids
        &&& fx =~= seq![Effect::SaveConfig, Effect::RefreshWeather]
    } else {
        &&& t.alert_ids@.len() == 0
        &&& fx =~= seq![Effect::ClearAlerts, Effect::SaveConfig, Effect::RefreshWeather]
    }
}

/// Turning automatic units on applies the units of the stored country (when
/// one is known); either way the setting is saved and the weather refreshed.
pub open spec fn post_toggle_auto_units(s: Tempest, t: Tempest, fx: Seq<Effect>) -> bool {
    let c1 = Config { auto_units: !s.config.auto_units, ..s.config };
    match c1.country {
        Some(country) if c1.auto_units => {
            &&& t == Tempest { config: config_with_units(c1, country@), ..s }
            &&& fx =~= unit_effects(c1) + seq![Effect::SaveConfig, Effect::RefreshWeather]
        },
        _ => {
            &&& t == Tempest { config: c1, ..s }
            &&& fx =~= seq![Effect::SaveConfig, Effect::RefreshWeather]
        },
    }
}

/// Disabling the meteogram moves a Graph active or default tab to Current;
/// the tab bar is rebuilt and the setting saved.
pub open spec fn post_toggle_meteogram(s: Tempest, t: Tempest, fx: Seq<Effect>) -> bool {
    let on = !s.config.show_meteogram;
    let reset = !on && (s.active_tab == PopupTab::Graph || s.config.default_tab == PopupTab::Graph);
    &&& t == Tempest {
        config: Config {
            show_meteogram: on,
            default_tab: if reset {
                PopupTab::Current
            } else {
                s.config.default_tab
            },
            ..s.config
        },
        active_tab: if reset {
            PopupTab::Current
        } else {
            s.active_tab
        },
        ..s
    }
    &&& fx =~= seq![Effect::RebuildTabModel, Effect::SaveConfig]
}

/// What handling one event does to the state and which work it asks for.
pub open spec fn post_update(s: Tempest, t: Tempest, fx: Seq<Effect>, e: Message) -> bool {
    match e {
        Message::TogglePopup => post_toggle_popup(s, t, fx),
        Message::PopupClosed { is_current } => post_popup_closed(s, t, fx, is_current),
        Message::RefreshWeather => post_refresh(s, t, fx),
        Message::WeatherUpdated { generation, ok, now } => post_weather_updated(
            s,
            t,
            fx,
            generation,
            ok,
            now,
        ),
        Message::AirQualityUpdated { generation, result } => post_air_quality_updated(
            s,
            t,
            fx,
            generation,
            result,
        ),
        Message::AlertsUpdated { generation, result } => post_alerts_updated(
            s,
            t,
            fx,
            generation,
            result,
        ),
        Message::Tick => post_tick(s, t, fx),
        Message::ToggleAlertsEnabled => post_toggle_alerts(s, t, fx),
        Message::ToggleAutoUnits => post_toggle_auto_units(s, t, fx),
        Message::ToggleShowAqiInPanel => post_toggle_panel(s, t, fx, PanelItem::Aqi),
        Message::ToggleShowIconInPanel => post_toggle_panel(s, t, fx, PanelItem::Icon),
        Message::ToggleShowPressureInPanel => post_toggle_panel(s, t, fx, PanelItem::Pressure),
        Message::ToggleShowDewPointInPanel => post_toggle_panel(s, t, fx, PanelItem::DewPoint),
        Message::ToggleShowSunriseSunsetInPanel => post_toggle_panel(
            s,
            t,
            fx,
            PanelItem::SunriseSunset,
        ),
        Message::ToggleShowMeteogram => post_toggle_meteogram(s, t, fx),
        Message::TogglePrideAccent => post_toggle_pride(s, t, fx),
        Message::UpdateCityInput(v) => t == (Tempest {
            city_input: v,
            saved_locations_full: false,
            ..s
        }) && fx =~= Seq::<Effect>::empty(),
        Message::SearchCity => t == s && fx =~= (if s.city_input@.len() > 0 {
            seq![Effect::SearchCity(s.city_input)]
        } else {
            Seq::<Effect>::empty()
        }),
        Message::CitySearchResult(result) => post_city_search_result(s, t, fx, result),
        Message::SelectLocation(idx) => post_select_location(s, t, fx, idx),
        Message::UpdateRefreshInterval(v) => t == (Tempest { refresh_input: v, ..s }) && fx
            =~= Seq::<Effect>::empty(),
        Message::UpdateAqicnToken(v) => t == (Tempest { aqicn_token_input: v, ..s }) && fx
            =~= Seq::<Effect>::empty(),
        Message::CommitRefreshInterval => post_commit_refresh(s, t, fx),
        Message::CommitAqicnToken => post_commit_token(s, t, fx),
        Message::DetectLocation => t == s && fx =~= seq![Effect::DetectLocation],
        Message::LocationDetected(result) => post_location_detected(s, t, fx, result),
        Message::ToggleAutoLocation => post_toggle_auto_location(s, t, fx),
        Message::SelectTab(tab) => post_select_tab(s, t, fx, tab),
        Message::TabActivated(tab) => post_tab_activated(s, t, fx, tab),
        Message::TemperatureUnitActivated(unit) => post_temperature_unit(s, t, fx, unit),
        Message::MeasurementActivated(system) => post_measurement_system(s, t, fx, system),
        Message::PressureUnitActivated(unit) => post_pressure_unit(s, t, fx, unit),
        Message::SystemTimeConfig(c) => post_system_time(s, t, fx, c),
        Message::ShowPollutants => t == (Tempest { showing_pollutants: true, ..s }) && fx
            =~= Seq::<Effect>::empty(),
        Message::HidePollutants => t == (Tempest { showing_pollutants: false, ..s }) && fx
            =~= Seq::<Effect>::empty(),
        Message::PollenUpdated { generation, result } => post_pollen_updated(
            s,
            t,
            fx,
            generation,
            result,
        ),
        Message::ShowPollen => t == (Tempest { showing_pollen: true, ..s }) && fx
            =~= Seq::<Effect>::empty(),
        Message::HidePollen => t == (Tempest { showing_pollen: false, ..s }) && fx
            =~= Seq::<Effect>::empty(),
        Message::SaveLocation { index, already_saved } => post_save_location(
            s,
            t,
            fx,
            index,
            already_saved,
        ),
        Message::RemoveSavedLocation(idx) => post_remove_saved(s, t, fx, idx),
        Message::ShowLocations => t == (Tempest { showing_locations: true, ..s }) && fx
            =~= Seq::<Effect>::empty(),
        Message::HideLocations => t == (Tempest { showing_locations: false, ..s }) && fx
            =~= Seq::<Effect>::empty(),
        Message::SwitchLocation(idx) => post_switch_location(s, t, fx, idx),
        Message::OpenLink(link) => t == s && fx =~= seq![Effect::OpenLink(link)],
        Message::RetryFetch => t == s && fx =~= seq![Effect::RefreshWeather],
        Message::NetworkConnected => post_network_connected(s, t, fx),
        Message::SystemResumed => post_system_resumed(s, t, fx),
    }
}

/// Toggling a panel item flips its visibility and saves the setting.
pub open spec fn post_toggle_panel(s: Tempest, t: Tempest, fx: Seq<Effect>, item: PanelItem) -> bool {
    &&& t == Tempest {
        config: with_panel_flag(s.config, item, !panel_flag(s.config, item)),
        ..s
    }
    &&& fx =~= seq![Effect::SaveConfig]
}

/// Removing a bookmark by position (saved); a position past the bookmarks
/// does nothing.
pub open spec fn post_remove_saved(s: Tempest, t: Tempest, fx: Seq<Effect>, idx: usize) -> bool {
    if idx < s.config.saved_locations@.len() {
        &&& t == Tempest {
            config: Config { saved_locations: t.config.saved_locations, ..s.config },
            ..s
        }
        &&& t.config.saved_locations@ == s.config.saved_locations@.remove(idx as int)
        &&& fx =~= seq![Effect::SaveConfig]
    } else {
        t == s && fx =~= Seq::<Effect>::empty()
    }
}

/// What a sequence holds after a push.
pub proof fn lemma_push_contains(v: Seq<Seq<char>>, a: Seq<char>, x: Seq<char>)
    ensures
        v.push(a).contains(x) == (v.contains(x) || a == x),
{
    if v.push(a).contains(x) {
        let j = choose|j: int| 0 <= j < v.push(a).len() && v.push(a)[j] == x;
        if j < v.len() {
            assert(v[j] == x);
        }
    }
    if v.contains(x) {
        let j = choose|j: int| 0 <= j < v.len() && v[j] == x;
        assert(v.push(a)[j] == x);
    }
    if a == x {
        assert(v.push(a)[v.len() as int] == x);
    }
}

/// Dropping repeats keeps the same elements.
pub proof fn lemma_distinct_contains(ids: Seq<Seq<char>>, x: Seq<char>)
    ensures
        distinct(ids).contains(x) == ids.contains(x),
    decreases ids.len(),
{
    if ids.len() > 0 {
        let p = ids.drop_last();
        lemma_distinct_contains(p, x);
        assert(ids =~= p.push(ids.last()));
        lemma_push_contains(p, ids.last(), x);
        lemma_push_contains(distinct(p), ids.last(), x);
        lemma_distinct_contains(p, ids.last());
    }
}

/// Dropping repeats leaves no element twice.
pub proof fn lemma_distinct_no_duplicates(ids: Seq<Seq<char>>)
    ensures
        distinct(ids).no_duplicates(),
    decreases ids.len(),
{
    if ids.len() > 0 {
        let p = ids.drop_last();
        lemma_distinct_no_duplicates(p);
        lemma_distinct_contains(p, ids.last());
        let d = distinct(ids);
        let dp = distinct(p);
        if !p.contains(ids.last()) {
            assert forall|i: int, j: int| 0 <= i < d.len() && 0 <= j < d.len() && i != j implies d[i]
                != d[j] by {
                if i < dp.len() && j < dp.len() {
                    assert(d[i] == dp[i] && d[j] == dp[j]);
                } else if i < dp.len() {
                    assert(d[i] == dp[i]);
                    assert(dp.contains(d[i]));
                } else if j < dp.len() {
                    assert(d[j] == dp[j]);
                    assert(dp.contains(d[j]));
                }
            }
        }
    }
}
/// The hourly tick: a fresh retry schedule, the chart redrawn, a refresh.
pub open spec fn post_tick(s: Tempest, t: Tempest, fx: Seq<Effect>) -> bool {
    t == (Tempest { retry_count: 0, ..s }) && fx =~= seq![
        Effect::ClearMeteogramCache,
        Effect::RefreshWeather,
    ]
}

/// Toggling the Pride accent flips it and saves.
pub open spec fn post_toggle_pride(s: Tempest, t: Tempest, fx: Seq<Effect>) -> bool {
    t == (Tempest { config: Config { pride_accent: !s.config.pride_accent, ..s.config }, ..s })
        && fx =~= seq![Effect::SaveConfig]
}

/// City search results replace the list; a failed search empties it.
pub open spec fn post_city_search_result(
    s: Tempest,
    t: Tempest,
    fx: Seq<Effect>,
    result: Option<Vec<Place>>,
) -> bool {
    &&& fx =~= Seq::<Effect>::empty()
    &&& match result {
        Some(r) => t == (Tempest { search_results: r, ..s }),
        None => t == (Tempest { search_results: t.search_results, ..s })
            && t.search_results@.len() == 0,
    }
}

/// A header button selects a tab: the overlays close and the tab bar is
/// rebuilt.
pub open spec fn post_select_tab(s: Tempest, t: Tempest, fx: Seq<Effect>, tab: PopupTab) -> bool {
    &&& t == (Tempest {
        active_tab: tab,
        showing_pollutants: false,
        showing_pollen: false,
        showing_locations: false,
        ..s
    })
    &&& fx =~= seq![Effect::RebuildTabModel]
}

/// A tab-bar segment carrying a tab selects it and closes the overlays.
pub open spec fn post_tab_activated(
    s: Tempest,
    t: Tempest,
    fx: Seq<Effect>,
    tab: Option<PopupTab>,
) -> bool {
    &&& fx =~= Seq::<Effect>::empty()
    &&& match tab {
        Some(tab) => t == (Tempest {
            active_tab: tab,
            showing_pollutants: false,
            showing_pollen: false,
            showing_locations: false,
            ..s
        }),
        None => t == s,
    }
}

/// Choosing a temperature unit saves it and refreshes.
pub open spec fn post_temperature_unit(
    s: Tempest,
    t: Tempest,
    fx: Seq<Effect>,
    unit: Option<TemperatureUnit>,
) -> bool {
    match unit {
        Some(u) => t == (Tempest { config: Config { temperature_unit: u, ..s.config }, ..s })
            && fx =~= seq![Effect::SaveConfig, Effect::RefreshWeather],
        None => t == s && fx =~= Seq::<Effect>::empty(),
    }
}

/// Choosing a measurement system saves it and refreshes.
pub open spec fn post_measurement_system(
    s: Tempest,
    t: Tempest,
    fx: Seq<Effect>,
    system: Option<MeasurementSystem>,
) -> bool {
    match system {
        Some(m) => t == (Tempest { config: Config { measurement_system: m, ..s.config }, ..s })
            && fx =~= seq![Effect::SaveConfig, Effect::RefreshWeather],
        None => t == s && fx =~= Seq::<Effect>::empty(),
    }
}

/// Choosing a pressure unit saves it (pressure is converted for display, no
/// refresh).
pub open spec fn post_pressure_unit(
    s: Tempest,
    t: Tempest,
    fx: Seq<Effect>,
    unit: Option<PressureUnit>,
) -> bool {
    match unit {
        Some(p) => t == (Tempest { config: Config { pressure_unit: p, ..s.config }, ..s }) && fx
            =~= seq![Effect::SaveConfig],
        None => t == s && fx =~= Seq::<Effect>::empty(),
    }
}

/// A 12/24-hour switch redraws the chart and the "updated at" time.
pub open spec fn post_system_time(
    s: Tempest,
    t: Tempest,
    fx: Seq<Effect>,
    c: TimeAppletConfig,
) -> bool {
    &&& t == (Tempest { military_time: c.military_time, ..s })
    &&& fx =~= (if s.config.last_updated is Some {
        seq![Effect::ClearMeteogramCache, Effect::UpdateTimestampDisplay]
    } else {
        seq![Effect::ClearMeteogramCache]
    })
}

/// Connectivity back: a fresh retry schedule and a refresh.
pub open spec fn post_network_connected(s: Tempest, t: Tempest, fx: Seq<Effect>) -> bool {
    t == (Tempest { retry_count: 0, ..s }) && fx =~= seq![Effect::RefreshWeather]
}

/// Resumed from suspend: the HTTP pool reset, a fresh retry schedule, a
/// refresh.
pub open spec fn post_system_resumed(s: Tempest, t: Tempest, fx: Seq<Effect>) -> bool {
    t == (Tempest { retry_count: 0, ..s }) && fx =~= seq![
        Effect::ResetHttpClient,
        Effect::RefreshWeather,
    ]
}

} // verus!
