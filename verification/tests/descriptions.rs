use tempest::descriptions::{
    aqi_to_description, condition_to_description, AqiCategory, EuAqiCategory, UsAqiCategory,
    WeatherCondition,
};

#[test]
fn condition_message_ids() {
    assert_eq!(condition_to_description(WeatherCondition::ClearSky), "weather-clear-sky");
    assert_eq!(condition_to_description(WeatherCondition::ThunderstormHail), "weather-thunderstorm-hail");
    assert_eq!(condition_to_description(WeatherCondition::Unknown), "weather-unknown");
}

#[test]
fn aqi_message_ids_follow_the_scale() {
    assert_eq!(aqi_to_description(&AqiCategory::Us(UsAqiCategory::UnhealthySensitive)), "aqi-us-unhealthy-sensitive");
    assert_eq!(aqi_to_description(&AqiCategory::Us(UsAqiCategory::Moderate)), "aqi-us-moderate");
    assert_eq!(aqi_to_description(&AqiCategory::Eu(EuAqiCategory::Moderate)), "aqi-eu-moderate");
    assert_eq!(aqi_to_description(&AqiCategory::Eu(EuAqiCategory::ExtremelyPoor)), "aqi-eu-extremely-poor");
}
