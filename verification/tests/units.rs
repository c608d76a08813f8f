use tempest::config::{MeasurementSystem, PressureUnit, TemperatureUnit};
use tempest::units::units_for_country;

#[test]
fn imperial_countries_get_imperial_units() {
    for c in ["United States", "Liberia", "Myanmar"] {
        assert_eq!(
            units_for_country(c),
            (TemperatureUnit::Fahrenheit, MeasurementSystem::Imperial, PressureUnit::InHg)
        );
    }
}

#[test]
fn other_countries_get_metric_units() {
    for c in ["Germany", "Japan", "united states", ""] {
        assert_eq!(
            units_for_country(c),
            (TemperatureUnit::Celsius, MeasurementSystem::Metric, PressureUnit::Hpa)
        );
    }
}
