//! The applet's decisions: what each message does to the state and which
//! outside work it asks for.
//!
//! The host (the desktop runtime) keeps the fetched payloads, the widgets and
//! the popup window; it hands every message to [`Tempest::update`] as an
//! [`Message`] and then performs the returned [`Effect`]s in order.
mod edits;
mod fetch;
mod locations;
mod settings;

use crate::config::{
    is_default_config, Config, MeasurementSystem, PopupTab, PressureUnit, SavedLocation,
    TemperatureUnit,
};
use crate::state::{
    Tempest, Effect, Message, Link, PanelItem, PanelLabel, PollenState, TabBar, backoff_delay,
    fresh_state, post_update, seeded_locations, segment_of, segment_tabs, startup_effect_list,
    startup_effects, views, well_formed,
};
use crate::text::u64_to_decimal;
use crate::laws::lemma_update_keeps_well_formed;
use vstd::prelude::*;
use vstd::string::*;

verus! {

/// Seconds to wait before the retry that follows `retry` failed attempts.
pub(crate) fn backoff_seconds(retry: u8) -> (r: u64)
    ensures
        r == backoff_delay(retry as nat),
{
    if retry == 0 {
        5
    } else if retry == 1 {
        15
    } else if retry == 2 {
        30
    } else {
        60
    }
}

/// Whether an incoming fetch result belongs to the current request
/// generation and should be applied; any other generation is superseded.
pub fn is_current_generation(current: u64, incoming: u64) -> (r: bool)
    ensures
        r == (current == incoming),
{
    current == incoming
}

/// Returns the tab as an option, with Settings and Alerts mapped to `None`
/// since they are not part of the segmented control.
pub fn tab_for_segmented_control(tab: PopupTab) -> (r: Option<PopupTab>)
    ensures
        r == segment_of(tab),
{
    match tab {
        PopupTab::Settings | PopupTab::Alerts => None,
        other => Some(other),
    }
}

/// Builds the tab bar: the segments in order, and the position of `active`
/// among them (none when `active` is `None` or not a segment).
pub fn tab_bar(active: Option<PopupTab>, show_meteogram: bool) -> (r: TabBar)
    ensures
        r.tabs@ == segment_tabs(show_meteogram),
        match r.selected {
            Some(i) => i < r.tabs@.len() && active == Some(r.tabs@[i as int]),
            None => forall|i: int| 0 <= i < r.tabs@.len() ==> active != Some(#[trigger] r.tabs@[i]),
        },
{
    let mut tabs: Vec<PopupTab> = Vec::new();
    tabs.push(PopupTab::Current);
    tabs.push(PopupTab::Hourly);
    tabs.push(PopupTab::Forecast);
    if show_meteogram {
        tabs.push(PopupTab::Graph);
    }
    assert(tabs@ =~= segment_tabs(show_meteogram));
    let mut selected: Option<usize> = None;
    let mut i: usize = 0;
    while i < tabs.len()
        invariant
            i <= tabs@.len(),
            match selected {
                Some(j) => j < tabs@.len() && active == Some(tabs@[j as int]),
                None => forall|k: int| 0 <= k < i ==> active != Some(#[trigger] tabs@[k]),
            },
        decreases tabs@.len() - i,
    {
        if selected.is_none() {
            match active {
                Some(a) => {
                    if a == tabs[i] {
                        selected = Some(i);
                    }
                },
                None => {},
            }
        }
        i = i + 1;
    }
    TabBar { tabs, selected }
}

/// The temperature selector: Celsius then Fahrenheit, and the position of
/// `active` among them.
pub fn temperature_segments(active: TemperatureUnit) -> (r: (Vec<TemperatureUnit>, usize))
    ensures
        r.0@ == seq![TemperatureUnit::Celsius, TemperatureUnit::Fahrenheit],
        r.1 < r.0@.len(),
        r.0@[r.1 as int] == active,
{
    let mut units: Vec<TemperatureUnit> = Vec::new();
    units.push(TemperatureUnit::Celsius);
    units.push(TemperatureUnit::Fahrenheit);
    let selected: usize = match active {
        TemperatureUnit::Celsius => 0,
        TemperatureUnit::Fahrenheit => 1,
    };
    (units, selected)
}

/// The measurement selector: Metric then Imperial, and the position of
/// `active` among them.
pub fn measurement_segments(active: MeasurementSystem) -> (r: (Vec<MeasurementSystem>, usize))
    ensures
        r.0@ == seq![MeasurementSystem::Metric, MeasurementSystem::Imperial],
        r.1 < r.0@.len(),
        r.0@[r.1 as int] == active,
{
    let mut systems: Vec<MeasurementSystem> = Vec::new();
    systems.push(MeasurementSystem::Metric);
    systems.push(MeasurementSystem::Imperial);
    let selected: usize = match active {
        MeasurementSystem::Metric => 0,
        MeasurementSystem::Imperial => 1,
    };
    (systems, selected)
}

/// The pressure selector: hPa, inHg, psi, and the position of `active`
/// among them.
pub fn pressure_segments(active: PressureUnit) -> (r: (Vec<PressureUnit>, usize))
    ensures
        r.0@ == seq![PressureUnit::Hpa, PressureUnit::InHg, PressureUnit::Psi],
        r.1 < r.0@.len(),
        r.0@[r.1 as int] == active,
{
    let mut units: Vec<PressureUnit> = Vec::new();
    units.push(PressureUnit::Hpa);
    units.push(PressureUnit::InHg);
    units.push(PressureUnit::Psi);
    let selected: usize = match active {
        PressureUnit::Hpa => 0,
        PressureUnit::InHg => 1,
        PressureUnit::Psi => 2,
    };
    (units, selected)
}

/// The start-up work, in order.
pub(crate) fn startup_effect_vec(seeded: bool, has_timestamp: bool, auto: bool) -> (r: Vec<Effect>)
    ensures
        r@ == startup_effect_list(seeded, has_timestamp, auto),
{
    let mut effects: Vec<Effect> = Vec::new();
    if seeded {
        effects.push(Effect::SaveConfig);
    }
    if has_timestamp {
        effects.push(Effect::UpdateTimestampDisplay);
    }
    if auto {
        effects.push(Effect::DetectLocation);
    } else {
        effects.push(Effect::RefreshWeather);
    }
    effects.push(Effect::QueryScreenResolution);
    assert(effects@ =~= startup_effect_list(seeded, has_timestamp, auto));
    effects
}

/// Bookmarks the active location on first run.
pub(crate) fn seed_saved_locations(config: Config) -> (r: Config)
    ensures
        r == (Config { saved_locations: r.saved_locations, ..config }),
        seeded_locations(config, r.saved_locations),
{
    let mut config = config;
    if config.saved_locations.len() == 0 && config.location_name.as_str().unicode_len() > 0 {
        let seed = SavedLocation {
            name: config.location_name.clone(),
            latitude: config.latitude,
            longitude: config.longitude,
        };
        let mut locations: Vec<SavedLocation> = Vec::new();
        locations.push(seed);
        config.saved_locations = locations;
    }
    config
}

/// A weather refresh.
pub(crate) fn refresh_effects() -> (fx: Vec<Effect>)
    ensures
        fx@ =~= seq![Effect::RefreshWeather],
{
    let mut fx: Vec<Effect> = Vec::new();
    fx.push(Effect::RefreshWeather);
    fx
}

/// A location detection.
pub(crate) fn detect_location_effects() -> (fx: Vec<Effect>)
    ensures
        fx@ =~= seq![Effect::DetectLocation],
{
    let mut fx: Vec<Effect> = Vec::new();
    fx.push(Effect::DetectLocation);
    fx
}

/// Opening an external link.
pub(crate) fn open_link_effects(link: Link) -> (fx: Vec<Effect>)
    ensures
        fx@ =~= seq![Effect::OpenLink(link)],
{
    let mut fx: Vec<Effect> = Vec::new();
    fx.push(Effect::OpenLink(link));
    fx
}

/// Whether `v` holds a string equal to `x`.
pub(crate) fn contains_str(v: &Vec<String>, x: &String) -> (r: bool)
    ensures
        r == views(v@).contains(x@),
{
    let mut i: usize = 0;
    while i < v.len()
        invariant
            i <= v@.len(),
            forall|j: int| 0 <= j < i ==> v@[j]@ != x@,
        decreases v@.len() - i,
    {
        if v[i] == *x {
            assert(views(v@)[i as int] == x@);
            return true;
        }
        i = i + 1;
    }
    proof {
        if views(v@).contains(x@) {
            let j = choose|j: int| 0 <= j < views(v@).len() && views(v@)[j] == x@;
            assert(v@[j]@ == x@);
        }
    }
    false
}

/// Whether one of the first `n` strings of `v` equals `x`.
pub(crate) fn contains_prefix(v: &Vec<String>, n: usize, x: &String) -> (r: bool)
    requires
        n <= v@.len(),
    ensures
        r == views(v@.take(n as int)).contains(x@),
{
    let mut i: usize = 0;
    while i < n
        invariant
            i <= n <= v@.len(),
            forall|j: int| 0 <= j < i ==> v@[j]@ != x@,
        decreases n - i,
    {
        if v[i] == *x {
            assert(views(v@.take(n as int))[i as int] == x@);
            return true;
        }
        i = i + 1;
    }
    proof {
        if views(v@.take(n as int)).contains(x@) {
            let j = choose|j: int| 0 <= j < views(v@.take(n as int)).len() && views(v@.take(n as int))[j] == x@;
            assert(v@[j]@ == x@);
        }
    }
    false
}

impl Default for Tempest {
    /// The state of a fresh install before start-up: default settings,
    /// 24-hour time off.
    fn default() -> (r: Self)
        ensures
            is_default_config(r.config),
            fresh_state(r, r.config, false),
    {
        Tempest::new(Config::default(), false)
    }
}

impl Tempest {
    /// The state right after start-up with the given settings and time format.
    #[verifier::spinoff_prover]
    pub fn new(config: Config, military_time: bool) -> (r: Tempest)
        ensures
            fresh_state(r, config, military_time),
    {
        let refresh_input = u64_to_decimal(config.refresh_interval_minutes);
        let aqicn_token_input = match &config.aqicn_token {
            Some(t) => t.clone(),
            None => String::new(),
        };
        let active_tab = if config.default_tab == PopupTab::Graph && !config.show_meteogram {
            PopupTab::Current
        } else {
            config.default_tab
        };
        Tempest {
            config,
            popup_open: false,
            has_weather: false,
            has_air_quality: false,
            current_aqi: None,
            alert_ids: Vec::new(),
            seen_alert_ids: Vec::new(),
            city_input: String::new(),
            refresh_input,
            aqicn_token_input,
            search_results: Vec::new(),
            panel_label: PanelLabel::Pending,
            is_loading: true,
            weather_error: false,
            refresh_failed: false,
            active_tab,
            military_time,
            showing_pollutants: false,
            showing_locations: false,
            showing_pollen: false,
            pollen: PollenState::NotFetched,
            saved_locations_full: false,
            retry_count: 0,
            fetch_generation: 0,
        }
    }

    /// Start-up: on first run the active location is bookmarked (and saved);
    /// then the "updated at" header is seeded from the persisted time, and
    /// either a location detection or a weather refresh starts, alongside the
    /// screen-resolution query.
    #[verifier::spinoff_prover]
    pub fn init(settings: Config, military_time: bool) -> (r: (Tempest, Vec<Effect>))
        ensures
            well_formed(r.0),
            fresh_state(r.0, r.0.config, military_time),
            r.0.config == (Config { saved_locations: r.0.config.saved_locations, ..settings }),
            seeded_locations(settings, r.0.config.saved_locations),
            r.1@ == startup_effects(settings),
    {
        let seeded = settings.saved_locations.len() == 0 && settings.location_name.as_str().unicode_len() > 0;
        let has_timestamp = settings.last_updated.is_some();
        let auto = settings.use_auto_location;
        let config = seed_saved_locations(settings);
        let state = Tempest::new(config, military_time);
        let effects = startup_effect_vec(seeded, has_timestamp, auto);
        proof {
            assert(views(state.seen_alert_ids@) =~= Seq::<Seq<char>>::empty());
        }
        (state, effects)
    }

    /// Handles one message: updates the state and returns the outside work to
    /// perform, in order.
    pub fn update(&mut self, message: Message) -> (fx: Vec<Effect>)
        requires
            well_formed(*old(self)),
            message is RefreshWeather ==> old(self).fetch_generation < u64::MAX,
        ensures
            post_update(*old(self), *final(self), fx@, message),
            well_formed(*final(self)),
    {
        let ghost s = *self;
        let ghost e = message;
        let fx = self.dispatch(message);
        proof {
            lemma_update_keeps_well_formed(s, *self, fx@, e);
        }
        fx
    }

    /// Hands the message to its handler.
    #[verifier::spinoff_prover]
    fn dispatch(&mut self, message: Message) -> (fx: Vec<Effect>)
        requires
            message is RefreshWeather ==> old(self).fetch_generation < u64::MAX,
        ensures
            post_update(*old(self), *final(self), fx@, message),
    {
        match message {
            Message::TogglePopup => self.handle_toggle_popup(),
            Message::PopupClosed { is_current } => self.popup_closed(is_current),
            Message::RefreshWeather => self.handle_refresh_weather(),
            Message::WeatherUpdated { generation, ok, now } => self.handle_weather_updated(generation, ok, now),
            Message::AirQualityUpdated { generation, result } => self.air_quality_updated(
                generation,
                result,
            ),
            Message::AlertsUpdated { generation, result } => self.alerts_updated(generation, result),
            Message::Tick => self.tick(),
            Message::ToggleAlertsEnabled => self.toggle_alerts_enabled(),
            Message::ToggleAutoUnits => self.toggle_auto_units(),
            Message::ToggleShowAqiInPanel => self.toggle_panel_item(PanelItem::Aqi),
            Message::ToggleShowIconInPanel => self.toggle_panel_item(PanelItem::Icon),
            Message::ToggleShowPressureInPanel => self.toggle_panel_item(PanelItem::Pressure),
            Message::ToggleShowDewPointInPanel => self.toggle_panel_item(PanelItem::DewPoint),
            Message::ToggleShowSunriseSunsetInPanel => self.toggle_panel_item(PanelItem::SunriseSunset),
            Message::ToggleShowMeteogram => self.toggle_show_meteogram(),
            Message::TogglePrideAccent => self.toggle_pride_accent(),
            Message::UpdateCityInput(v) => self.update_city_input(v),
            Message::SearchCity => self.search_city(),
            Message::CitySearchResult(result) => self.city_search_result(result),
            Message::SelectLocation(idx) => self.handle_select_location(idx),
            Message::UpdateRefreshInterval(v) => self.update_refresh_input(v),
            Message::UpdateAqicnToken(v) => self.update_token_input(v),
            Message::CommitRefreshInterval => self.commit_refresh_interval(),
            Message::CommitAqicnToken => self.commit_aqicn_token(),
            Message::DetectLocation => detect_location_effects(),
            Message::LocationDetected(result) => self.handle_location_detected(result),
            Message::ToggleAutoLocation => self.handle_toggle_auto_location(),
            Message::SelectTab(tab) => self.select_tab_rebuilding(tab),
            Message::TabActivated(tab) => self.tab_activated(tab),
            Message::TemperatureUnitActivated(unit) => self.temperature_unit_activated(unit),
            Message::MeasurementActivated(system) => self.measurement_activated(system),
            Message::PressureUnitActivated(unit) => self.pressure_unit_activated(unit),
            Message::SystemTimeConfig(c) => self.handle_system_time_config(c),
            Message::ShowPollutants => self.set_showing_pollutants(true),
            Message::HidePollutants => self.set_showing_pollutants(false),
            Message::PollenUpdated { generation, result } => self.pollen_updated(generation, result),
            Message::ShowPollen => self.set_showing_pollen(true),
            Message::HidePollen => self.set_showing_pollen(false),
            Message::SaveLocation { index, already_saved } => self.handle_save_location(index, already_saved),
            Message::RemoveSavedLocation(idx) => self.remove_saved_location(idx),
            Message::ShowLocations => self.set_showing_locations(true),
            Message::HideLocations => self.set_showing_locations(false),
            Message::SwitchLocation(idx) => self.handle_switch_location(idx),
            Message::OpenLink(link) => open_link_effects(link),
            Message::RetryFetch => refresh_effects(),
            Message::NetworkConnected => self.network_connected(),
            Message::SystemResumed => self.system_resumed(),
        }
    }
}

} // verus!
