//! Unit selection by country.
use crate::config::{MeasurementSystem, PressureUnit, TemperatureUnit};
use vstd::prelude::*;

verus! {

/// Countries that use imperial units.
pub open spec fn is_imperial_country(country: Seq<char>) -> bool {
    country == "United States"@ || country == "Liberia"@ || country == "Myanmar"@
}

/// `weathervane::uses_imperial_units`: true exactly for the country names
/// "United States", "Liberia" and "Myanmar".
#[verifier::external_body]
fn uses_imperial_units(country: &str) -> (r: bool)
    ensures
        r == is_imperial_country(country@),
{
    weathervane::uses_imperial_units(country)
}

/// The units a country uses: (temperature, measurement system, pressure).
pub open spec fn units_of(country: Seq<char>) -> (TemperatureUnit, MeasurementSystem, PressureUnit) {
    if is_imperial_country(country) {
        (TemperatureUnit::Fahrenheit, MeasurementSystem::Imperial, PressureUnit::InHg)
    } else {
        (TemperatureUnit::Celsius, MeasurementSystem::Metric, PressureUnit::Hpa)
    }
}

/// The temperature, measurement and pressure units for a country: Fahrenheit,
/// imperial and inches of mercury where imperial units are used, Celsius,
/// metric and hectopascals elsewhere.
pub fn units_for_country(country: &str) -> (r: (TemperatureUnit, MeasurementSystem, PressureUnit))
    ensures
        r == units_of(country@),
{
    if uses_imperial_units(country) {
        (TemperatureUnit::Fahrenheit, MeasurementSystem::Imperial, PressureUnit::InHg)
    } else {
        (TemperatureUnit::Celsius, MeasurementSystem::Metric, PressureUnit::Hpa)
    }
}

} // verus!
