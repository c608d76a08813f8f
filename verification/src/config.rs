//! Persisted applet settings.
//!
//! Coordinates are carried as the bit patterns of their `f64` degree values
//! (what `f64::to_bits` yields); the library only stores and copies them.
use vstd::prelude::*;
use vstd::string::*;

verus! {

/// Tab options for the popup interface.
#[derive(Debug, Clone, Copy, PartialEq, Eq, Structural)]
pub enum PopupTab {
    Current,
    Alerts,
    Hourly,
    Forecast,
    Graph,
    Settings,
}

impl Default for PopupTab {
    fn default() -> (r: Self)
        ensures
            r == PopupTab::Current,
    {
        PopupTab::Current
    }
}

/// Temperature scale.
#[derive(Debug, Clone, Copy, PartialEq, Eq, Structural)]
pub enum TemperatureUnit {
    Fahrenheit,
    Celsius,
}

/// Pressure display unit.
#[derive(Debug, Clone, Copy, PartialEq, Eq, Structural)]
pub enum PressureUnit {
    Hpa,
    InHg,
    Psi,
}

/// Measurement system for non-temperature units.
#[derive(Debug, Clone, Copy, PartialEq, Eq, Structural)]
pub enum MeasurementSystem {
    Imperial,
    Metric,
}

/// A bookmarked location.
#[derive(Debug, Clone, PartialEq, Eq)]
pub struct SavedLocation {
    pub name: String,
    /// Bit pattern of the latitude in degrees.
    pub latitude: u64,
    /// Bit pattern of the longitude in degrees.
    pub longitude: u64,
}

/// System-wide time format preference of the desktop's time applet.
#[derive(Debug, Clone, PartialEq, Eq, Structural)]
pub struct TimeAppletConfig {
    pub military_time: bool,
}

impl Default for TimeAppletConfig {
    fn default() -> (r: Self)
        ensures
            r.military_time == false,
    {
        TimeAppletConfig { military_time: false }
    }
}

/// The applet's persisted settings.
#[derive(Debug, Clone)]
pub struct Config {
    /// Bit pattern of the active latitude in degrees.
    pub latitude: u64,
    /// Bit pattern of the active longitude in degrees.
    pub longitude: u64,
    pub location_name: String,
    /// Country of the active location, when known.
    pub country: Option<String>,
    pub temperature_unit: TemperatureUnit,
    pub measurement_system: MeasurementSystem,
    pub pressure_unit: PressureUnit,
    pub refresh_interval_minutes: u64,
    pub use_auto_location: bool,
    /// The manual location kept while auto-detect is on, so it can be restored.
    pub manual_latitude: Option<u64>,
    pub manual_longitude: Option<u64>,
    pub manual_location_name: Option<String>,
    /// Unix timestamp of the last successful weather refresh.
    pub last_updated: Option<i64>,
    /// Last selected tab, restored on popup open.
    pub default_tab: PopupTab,
    /// Optional aqicn.org token for ground-station air quality.
    pub aqicn_token: Option<String>,
    pub alerts_enabled: bool,
    pub auto_units: bool,
    pub show_aqi_in_panel: bool,
    pub show_icon_in_panel: bool,
    pub show_pressure_in_panel: bool,
    pub show_dew_point_in_panel: bool,
    pub show_sunrise_sunset_in_panel: bool,
    pub show_meteogram: bool,
    pub pride_accent: bool,
    /// Bookmarked locations for quick switching.
    pub saved_locations: Vec<SavedLocation>,
}

/// Default for a missing `alerts_enabled` entry.
pub fn default_alerts_enabled() -> (r: bool)
    ensures
        r,
{
    true
}

/// Default for a missing `auto_units` entry.
pub fn default_auto_units() -> (r: bool)
    ensures
        r,
{
    true
}

/// Default for a missing `show_aqi_in_panel` entry.
pub fn default_show_aqi_in_panel() -> (r: bool)
    ensures
        r,
{
    true
}

/// Default for a missing `show_icon_in_panel` entry.
pub fn default_show_icon_in_panel() -> (r: bool)
    ensures
        r,
{
    true
}

/// Bit pattern of 40.7128 (degrees north).
pub const NEW_YORK_LATITUDE: u64 = 0x4044_5b3d_07c8_4b5e;

/// Bit pattern of -74.0060 (degrees east).
pub const NEW_YORK_LONGITUDE: u64 = 0xc052_8062_4dd2_f1aa;

/// The settings of a fresh install: New York, US defaults for the units,
/// a 15-minute refresh, auto-location and alerts on, AQI and icon shown in
/// the panel, meteogram and Pride accent on, nothing bookmarked.
pub open spec fn is_default_config(c: Config) -> bool {
    &&& c.latitude == NEW_YORK_LATITUDE
    &&& c.longitude == NEW_YORK_LONGITUDE
    &&& c.location_name@ == "New York, NY, United States"@
    &&& c.country is None
    &&& c.temperature_unit == TemperatureUnit::Fahrenheit
    &&& c.measurement_system == MeasurementSystem::Imperial
    &&& c.pressure_unit == PressureUnit::Hpa
    &&& c.refresh_interval_minutes == 15
    &&& c.use_auto_location
    &&& c.manual_latitude is None
    &&& c.manual_longitude is None
    &&& c.manual_location_name is None
    &&& c.last_updated is None
    &&& c.default_tab == PopupTab::Current
    &&& c.aqicn_token is None
    &&& c.alerts_enabled
    &&& c.auto_units
    &&& c.show_aqi_in_panel
    &&& c.show_icon_in_panel
    &&& !c.show_pressure_in_panel
    &&& !c.show_dew_point_in_panel
    &&& !c.show_sunrise_sunset_in_panel
    &&& c.show_meteogram
    &&& c.pride_accent
    &&& c.saved_locations@.len() == 0
}

impl Default for Config {
    fn default() -> (r: Self)
        ensures
            is_default_config(r),
    {
        Config {
            latitude: NEW_YORK_LATITUDE,
            longitude: NEW_YORK_LONGITUDE,
            location_name: String::from_str("New York, NY, United States"),
            country: None,
            temperature_unit: TemperatureUnit::Fahrenheit,
            measurement_system: MeasurementSystem::Imperial,
            pressure_unit: PressureUnit::Hpa,
            refresh_interval_minutes: 15,
            use_auto_location: true,
            manual_latitude: None,
            manual_longitude: None,
            manual_location_name: None,
            last_updated: None,
            default_tab: PopupTab::Current,
            aqicn_token: None,
            alerts_enabled: default_alerts_enabled(),
            auto_units: default_auto_units(),
            show_aqi_in_panel: default_show_aqi_in_panel(),
            show_icon_in_panel: default_show_icon_in_panel(),
            show_pressure_in_panel: false,
            show_dew_point_in_panel: false,
            show_sunrise_sunset_in_panel: false,
            show_meteogram: true,
            pride_accent: true,
            saved_locations: Vec::new(),
        }
    }
}

} // verus!
