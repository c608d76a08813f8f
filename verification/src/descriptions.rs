//! Message ids of the localized descriptions of weather conditions and
//! air-quality categories; the caller looks them up in the translation
//! catalogue.
use vstd::prelude::*;

verus! {

/// Sky condition, grouped from the WMO weather codes.
#[derive(Debug, Clone, Copy, PartialEq, Eq, Structural)]
pub enum WeatherCondition {
    ClearSky,
    MainlyClear,
    PartlyCloudy,
    Overcast,
    Foggy,
    Drizzle,
    FreezingDrizzle,
    Rain,
    FreezingRain,
    Snow,
    SnowGrains,
    RainShowers,
    SnowShowers,
    Thunderstorm,
    ThunderstormHail,
    Unknown,
}

/// US EPA air-quality category.
#[derive(Debug, Clone, Copy, PartialEq, Eq, Structural)]
pub enum UsAqiCategory {
    Good,
    Moderate,
    UnhealthySensitive,
    Unhealthy,
    VeryUnhealthy,
    Hazardous,
}

/// European air-quality category.
#[derive(Debug, Clone, Copy, PartialEq, Eq, Structural)]
pub enum EuAqiCategory {
    Good,
    Fair,
    Moderate,
    Poor,
    VeryPoor,
    ExtremelyPoor,
}

/// An air-quality category on the scale of the reading.
#[derive(Debug, Clone, Copy, PartialEq, Eq, Structural)]
pub enum AqiCategory {
    Us(UsAqiCategory),
    Eu(EuAqiCategory),
}

/// Message id of the description of a weather condition.
pub open spec fn condition_key(condition: WeatherCondition) -> Seq<char> {
    match condition {
        WeatherCondition::ClearSky => "weather-clear-sky"@,
        WeatherCondition::MainlyClear => "weather-mainly-clear"@,
        WeatherCondition::PartlyCloudy => "weather-partly-cloudy"@,
        WeatherCondition::Overcast => "weather-overcast"@,
        WeatherCondition::Foggy => "weather-foggy"@,
        WeatherCondition::Drizzle => "weather-drizzle"@,
        WeatherCondition::FreezingDrizzle => "weather-freezing-drizzle"@,
        WeatherCondition::Rain => "weather-rain"@,
        WeatherCondition::FreezingRain => "weather-freezing-rain"@,
        WeatherCondition::Snow => "weather-snow"@,
        WeatherCondition::SnowGrains => "weather-snow-grains"@,
        WeatherCondition::RainShowers => "weather-rain-showers"@,
        WeatherCondition::SnowShowers => "weather-snow-showers"@,
        WeatherCondition::Thunderstorm => "weather-thunderstorm"@,
        WeatherCondition::ThunderstormHail => "weather-thunderstorm-hail"@,
        WeatherCondition::Unknown => "weather-unknown"@,
    }
}

/// Message id of the localized description of a weather condition.
pub fn condition_to_description(condition: WeatherCondition) -> (r: String)
    ensures
        r@ == condition_key(condition),
{
    match condition {
        WeatherCondition::ClearSky => String::from_str("weather-clear-sky"),
        WeatherCondition::MainlyClear => String::from_str("weather-mainly-clear"),
        WeatherCondition::PartlyCloudy => String::from_str("weather-partly-cloudy"),
        WeatherCondition::Overcast => String::from_str("weather-overcast"),
        WeatherCondition::Foggy => String::from_str("weather-foggy"),
        WeatherCondition::Drizzle => String::from_str("weather-drizzle"),
        WeatherCondition::FreezingDrizzle => String::from_str("weather-freezing-drizzle"),
        WeatherCondition::Rain => String::from_str("weather-rain"),
        WeatherCondition::FreezingRain => String::from_str("weather-freezing-rain"),
        WeatherCondition::Snow => String::from_str("weather-snow"),
        WeatherCondition::SnowGrains => String::from_str("weather-snow-grains"),
        WeatherCondition::RainShowers => String::from_str("weather-rain-showers"),
        WeatherCondition::SnowShowers => String::from_str("weather-snow-showers"),
        WeatherCondition::Thunderstorm => String::from_str("weather-thunderstorm"),
        WeatherCondition::ThunderstormHail => String::from_str("weather-thunderstorm-hail"),
        WeatherCondition::Unknown => String::from_str("weather-unknown"),
    }
}

/// Message id of the description of an air-quality category.
pub open spec fn aqi_key(category: AqiCategory) -> Seq<char> {
    match category {
        AqiCategory::Us(UsAqiCategory::Good) => "aqi-us-good"@,
        AqiCategory::Us(UsAqiCategory::Moderate) => "aqi-us-moderate"@,
        AqiCategory::Us(UsAqiCategory::UnhealthySensitive) => "aqi-us-unhealthy-sensitive"@,
        AqiCategory::Us(UsAqiCategory::Unhealthy) => "aqi-us-unhealthy"@,
        AqiCategory::Us(UsAqiCategory::VeryUnhealthy) => "aqi-us-very-unhealthy"@,
        AqiCategory::Us(UsAqiCategory::Hazardous) => "aqi-us-hazardous"@,
        AqiCategory::Eu(EuAqiCategory::Good) => "aqi-eu-good"@,
        AqiCategory::Eu(EuAqiCategory::Fair) => "aqi-eu-fair"@,
        AqiCategory::Eu(EuAqiCategory::Moderate) => "aqi-eu-moderate"@,
        AqiCategory::Eu(EuAqiCategory::Poor) => "aqi-eu-poor"@,
        AqiCategory::Eu(EuAqiCategory::VeryPoor) => "aqi-eu-very-poor"@,
        AqiCategory::Eu(EuAqiCategory::ExtremelyPoor) => "aqi-eu-extremely-poor"@,
    }
}

/// Message id of the localized description of an air-quality category.
pub fn aqi_to_description(category: &AqiCategory) -> (r: String)
    ensures
        r@ == aqi_key(*category),
{
    match category {
        AqiCategory::Us(cat) => match cat {
            UsAqiCategory::Good => String::from_str("aqi-us-good"),
            UsAqiCategory::Moderate => String::from_str("aqi-us-moderate"),
            UsAqiCategory::UnhealthySensitive => String::from_str("aqi-us-unhealthy-sensitive"),
            UsAqiCategory::Unhealthy => String::from_str("aqi-us-unhealthy"),
            UsAqiCategory::VeryUnhealthy => String::from_str("aqi-us-very-unhealthy"),
            UsAqiCategory::Hazardous => String::from_str("aqi-us-hazardous"),
        },
        AqiCategory::Eu(cat) => match cat {
            EuAqiCategory::Good => String::from_str("aqi-eu-good"),
            EuAqiCategory::Fair => String::from_str("aqi-eu-fair"),
            EuAqiCategory::Moderate => String::from_str("aqi-eu-moderate"),
            EuAqiCategory::Poor => String::from_str("aqi-eu-poor"),
            EuAqiCategory::VeryPoor => String::from_str("aqi-eu-very-poor"),
            EuAqiCategory::ExtremelyPoor => String::from_str("aqi-eu-extremely-poor"),
        },
    }
}

} // verus!
