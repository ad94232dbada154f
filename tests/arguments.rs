use rusty_weather::{Argument, Current, Field, Hourly, PrecipitationTypes};

#[test]
fn current_arguments_correct() {
    let args: Vec<String> = vec![
        Current::Temperature,
        Current::IsDay,
        Current::Precipitation(PrecipitationTypes::Combined),
    ]
    .iter()
    .map(|arg| arg.to_string())
    .collect();

    let manual_args: Vec<String> = vec!["temperature_2m", "is_day", "precipitation"]
        .iter()
        .map(|arg| arg.to_string())
        .collect();

    assert!(args == manual_args)
}

#[test]
fn hourly_arguments_correct() {
    let args: Vec<String> = vec![
        Hourly::Temperature,
        Hourly::IsDay,
        Hourly::Precipitation(PrecipitationTypes::Combined),
    ]
    .iter()
    .map(|arg| arg.to_string())
    .collect();

    let manual_args: Vec<String> = vec!["temperature_2m", "is_day", "precipitation"]
        .iter()
        .map(|arg| arg.to_string())
        .collect();

    assert!(args == manual_args)
}

#[test]
fn every_field_has_its_wire_name() {
    let all = vec![
        (Hourly::Temperature, "temperature_2m"),
        (Hourly::ApparentTemp, "apparent_temperature"),
        (Hourly::Humidity, "relative_humidity_2m"),
        (Hourly::IsDay, "is_day"),
        (Hourly::Precipitation(PrecipitationTypes::Combined), "precipitation"),
        (Hourly::Precipitation(PrecipitationTypes::Rain), "rain"),
        (Hourly::Precipitation(PrecipitationTypes::Showers), "showers"),
        (Hourly::Precipitation(PrecipitationTypes::Snowfall), "snowfall"),
        (Hourly::PrecipitationProbability, "precipitation_probability"),
        (Hourly::WeatherCode, "weather_code"),
        (Hourly::WindSpeed, "wind_speed_10m"),
        (Hourly::WindDirection, "wind_direction_10m"),
    ];
    for (h, name) in all {
        assert_eq!(h.to_string(), name);
    }
    assert_eq!(Current::WindDirection.to_string(), "wind_direction_10m");
    assert_eq!(Current::ApparentTemp.to_string(), "apparent_temperature");
}

#[test]
fn current_and_hourly_share_fields() {
    assert_eq!(Current::Humidity.field(), Field::Humidity);
    assert_eq!(Hourly::Humidity.field(), Field::Humidity);
    assert_eq!(
        Current::Precipitation(PrecipitationTypes::Rain).field(),
        Hourly::Precipitation(PrecipitationTypes::Rain).field()
    );
    assert!(Field::WeatherCode.is_count());
    assert!(!Field::WindSpeed.is_count());
}
