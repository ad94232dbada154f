use rusty_weather::parsing::coordinates_from_lookup;
use rusty_weather::{
    convert_date_time, parse_current, parse_hourly, Coordinates, Current, Decimal, Hourly, Json, JsonNumber,
    Length, ParsingError, PrecipitationTypes, Speed, TempUnit, Temperature, Units, WeatherCode,
};

fn obj(entries: Vec<(&str, Json)>) -> Json {
    Json::Object(entries.into_iter().map(|(k, v)| (k.to_string(), v)).collect())
}

fn uint(n: u64) -> Json {
    Json::Number(JsonNumber::PosInt(n))
}

fn neg(n: i64) -> Json {
    Json::Number(JsonNumber::NegInt(n))
}

fn num(m: i64, e: i32) -> Json {
    Json::Number(JsonNumber::Float(Decimal::new(m, e)))
}

fn text(s: &str) -> Json {
    Json::Str(s.to_string())
}

fn current_response(current: Vec<(&str, Json)>) -> Json {
    obj(vec![
        ("latitude", num(5252, -2)),
        ("longitude", num(1341, -2)),
        ("utc_offset_seconds", uint(7200)),
        ("current", obj(current)),
    ])
}

fn units() -> Units {
    Units::new(Speed::Kmh, TempUnit::Celsius, Length::Mm)
}

#[test]
fn current_reads_requested_fields() {
    let response = current_response(vec![
        ("time", text("2024-06-01T12:00")),
        ("temperature_2m", num(215, -1)),
        ("is_day", uint(1)),
        ("weather_code", uint(3)),
        ("relative_humidity_2m", uint(55)),
        ("rain", num(4, -1)),
    ]);
    let args = vec![Current::Temperature, Current::IsDay, Current::WeatherCode];
    let w = parse_current(&response, units(), &args).unwrap();
    assert_eq!(w.temperature, Some(Temperature::new(Decimal::new(215, -1), TempUnit::Celsius)));
    assert_eq!(w.is_day, Some(true));
    assert_eq!(w.code, Some(WeatherCode::from_code(3).unwrap()));
    assert_eq!(w.humidity, None);
    assert!(w.precipitation.is_none());
    assert!(w.wind.is_none());
    assert_eq!(w.coordinates, Coordinates::new(Decimal::new(1341, -2), Decimal::new(5252, -2)));
    assert_eq!(w.time.utc_seconds, 1717243200);
    assert_eq!(w.time.offset_seconds, 7200);
}

#[test]
fn current_threads_units_into_readings() {
    let response = current_response(vec![
        ("time", text("2024-06-01T12:00")),
        ("temperature_2m", num(701, -1)),
        ("rain", num(2, -2)),
        ("wind_speed_10m", uint(12)),
    ]);
    let u = Units::new(Speed::Knots, TempUnit::Fahrenheit, Length::Inch);
    let args = vec![
        Current::Temperature,
        Current::Precipitation(PrecipitationTypes::Rain),
        Current::WindSpeed,
    ];
    let w = parse_current(&response, u, &args).unwrap();
    assert_eq!(w.temperature.unwrap().stringify(), "70.1°F");
    assert_eq!(w.precipitation.unwrap().rain_to_string(), "0.02inch");
    assert_eq!(w.wind.unwrap().speed_stringify(), "12kn");
}

#[test]
fn missing_requested_field_is_named() {
    let response = current_response(vec![("time", text("2024-06-01T12:00")), ("temperature_2m", num(20, 0))]);
    let args = vec![Current::Temperature, Current::WindSpeed];
    match parse_current(&response, units(), &args) {
        Err(ParsingError::MissingField(name)) => assert_eq!(name, "wind_speed_10m"),
        other => panic!("unexpected {:?}", other),
    }
}

#[test]
fn unrequested_field_is_never_read() {
    let args = vec![Current::Temperature];
    let with_bad = current_response(vec![
        ("time", text("2024-06-01T12:00")),
        ("temperature_2m", num(20, 0)),
        ("wind_speed_10m", text("not a number")),
    ]);
    let without = current_response(vec![("time", text("2024-06-01T12:00")), ("temperature_2m", num(20, 0))]);
    let a = parse_current(&with_bad, units(), &args).unwrap();
    let b = parse_current(&without, units(), &args).unwrap();
    assert_eq!(a, b);
}

#[test]
fn day_flag_is_an_integer() {
    let args = vec![Current::IsDay];
    let zero = current_response(vec![("time", text("2024-06-01T12:00")), ("is_day", uint(0))]);
    assert_eq!(parse_current(&zero, units(), &args).unwrap().is_day, Some(false));
    let two = current_response(vec![("time", text("2024-06-01T12:00")), ("is_day", uint(2))]);
    assert_eq!(parse_current(&two, units(), &args).unwrap().is_day, Some(true));
    let native = current_response(vec![("time", text("2024-06-01T12:00")), ("is_day", Json::Bool(true))]);
    match parse_current(&native, units(), &args) {
        Err(ParsingError::DeseializationError(m)) => assert_eq!(m, "Failed to parse x.is_day as an integer"),
        other => panic!("unexpected {:?}", other),
    }
}

#[test]
fn structural_fields_missing() {
    let args = vec![Current::Temperature];
    let no_current = obj(vec![("latitude", uint(1)), ("longitude", uint(2)), ("utc_offset_seconds", uint(0))]);
    assert!(matches!(parse_current(&no_current, units(), &args), Err(ParsingError::MissingField(n)) if n == "current"));
    let no_time = current_response(vec![("temperature_2m", num(20, 0))]);
    assert!(matches!(parse_current(&no_time, units(), &args), Err(ParsingError::MissingField(n)) if n == "current.time"));
    let no_lat = obj(vec![
        ("longitude", uint(2)),
        ("utc_offset_seconds", uint(0)),
        ("current", obj(vec![("time", text("2024-06-01T12:00"))])),
    ]);
    assert!(matches!(parse_current(&no_lat, units(), &args), Err(ParsingError::MissingField(n)) if n == "latitude"));
}

#[test]
fn bad_time_is_a_time_error() {
    let response = current_response(vec![("time", text("yesterday"))]);
    match parse_current(&response, units(), &vec![]) {
        Err(ParsingError::TimeError(m)) => assert_eq!(m, "Failed to parse iso8601 from 'yesterday'"),
        other => panic!("unexpected {:?}", other),
    }
}

#[test]
fn offsets_convert_by_sign_and_magnitude() {
    let east = convert_date_time("2024-06-01T12:00", 7200).unwrap();
    let west = convert_date_time("2024-06-01T12:00", -7200).unwrap();
    assert_eq!(east.utc_seconds, west.utc_seconds);
    let wall_east = east.utc_seconds + east.offset_seconds as i64;
    let wall_west = west.utc_seconds + west.offset_seconds as i64;
    assert_eq!(wall_east - wall_west, 4 * 3600);
    assert_eq!(west.offset_seconds, -7200);
    assert_eq!(convert_date_time("1970-01-01T00:00", 0).unwrap().utc_seconds, 0);
    match convert_date_time("2024-06-01T12:00", 86400) {
        Err(ParsingError::TimeError(m)) => assert_eq!(m, "Failed to parse offset from '86400'"),
        other => panic!("unexpected {:?}", other),
    }
    assert!(matches!(convert_date_time("2024-06-01T12:00", -86400), Err(ParsingError::TimeError(_))));
    assert_eq!(convert_date_time("2024-06-01T12:00", -86399).unwrap().offset_seconds, -86399);
}

fn hourly_response(hours: usize) -> Json {
    let times: Vec<Json> = (0..hours).map(|h| text(&format!("2024-06-01T{:02}:00", h % 24))).collect();
    let times: Vec<Json> = times
        .into_iter()
        .enumerate()
        .map(|(i, t)| if i < 24 { t } else { text(&format!("2024-06-02T{:02}:00", i % 24)) })
        .collect();
    let temps: Vec<Json> = (0..hours).map(|h| num(100 + h as i64, -1)).collect();
    let codes: Vec<Json> = (0..hours).map(|_| uint(61)).collect();
    let probs: Vec<Json> = (0..hours).map(|h| uint(h as u64)).collect();
    obj(vec![
        ("latitude", uint(50)),
        ("longitude", uint(20)),
        ("utc_offset_seconds", neg(-3600)),
        (
            "hourly",
            obj(vec![
                ("time", Json::Array(times)),
                ("temperature_2m", Json::Array(temps)),
                ("weather_code", Json::Array(codes)),
                ("precipitation_probability", Json::Array(probs)),
            ]),
        ),
    ])
}

#[test]
fn hourly_yields_requested_hours_in_order() {
    let response = hourly_response(48);
    let args = vec![Hourly::Temperature, Hourly::WeatherCode, Hourly::PrecipitationProbability];
    let hours = parse_hourly(&response, units(), &args, 24).unwrap();
    assert_eq!(hours.len(), 24);
    for i in 1..hours.len() {
        assert!(hours[i - 1].time.utc_seconds < hours[i].time.utc_seconds);
    }
    assert_eq!(hours[3].temperature.unwrap().temp, Decimal::new(103, -1));
    assert_eq!(hours[3].precipitation.unwrap().probability, Some(3));
    assert_eq!(hours[0].time.offset_seconds, -3600);
    assert!(hours.iter().all(|h| h.wind.is_none() && h.humidity.is_none()));
}

#[test]
fn hourly_stops_at_the_last_time() {
    let response = hourly_response(5);
    let hours = parse_hourly(&response, units(), &vec![Hourly::Temperature], 24).unwrap();
    assert_eq!(hours.len(), 5);
    let none = parse_hourly(&response, units(), &vec![Hourly::Temperature], 0).unwrap();
    assert!(none.is_empty());
}

#[test]
fn hourly_missing_array_and_bad_cell() {
    let response = hourly_response(3);
    match parse_hourly(&response, units(), &vec![Hourly::WindSpeed], 3) {
        Err(ParsingError::MissingField(n)) => assert_eq!(n, "wind_speed_10m"),
        other => panic!("unexpected {:?}", other),
    }
    let short = obj(vec![
        ("latitude", uint(50)),
        ("longitude", uint(20)),
        ("utc_offset_seconds", uint(0)),
        (
            "hourly",
            obj(vec![
                ("time", Json::Array(vec![text("2024-06-01T00:00"), text("2024-06-01T01:00")])),
                ("relative_humidity_2m", Json::Array(vec![uint(40), num(405, -1)])),
            ]),
        ),
    ]);
    match parse_hourly(&short, units(), &vec![Hourly::Humidity], 2) {
        Err(ParsingError::DeseializationError(m)) => {
            assert_eq!(m, "Failed to parse x.relative_humidity_2m[1] as a percentage")
        },
        other => panic!("unexpected {:?}", other),
    }
    let missing_hourly = obj(vec![("latitude", uint(50)), ("longitude", uint(20)), ("utc_offset_seconds", uint(0))]);
    assert!(matches!(
        parse_hourly(&missing_hourly, units(), &vec![], 1),
        Err(ParsingError::MissingField(n)) if n == "hourly"
    ));
}

#[test]
fn location_resolution() {
    let c = coordinates_from_lookup(Some(Decimal::new(13, 0)), Some(Decimal::new(52, 0))).unwrap();
    assert_eq!(c, Coordinates::new(Decimal::new(13, 0), Decimal::new(52, 0)));
    match coordinates_from_lookup(Some(Decimal::new(13, 0)), None) {
        Err(ParsingError::LocationError(m)) => assert_eq!(m, "Coordinates missing from perform_lookup answer"),
        other => panic!("unexpected {:?}", other),
    }
}

#[test]
fn codes_and_percentages_above_a_byte() {
    let args = vec![Current::WeatherCode];
    let big_code = current_response(vec![("time", text("2024-06-01T12:00")), ("weather_code", uint(256))]);
    let w = parse_current(&big_code, units(), &args).unwrap();
    assert_eq!(w.code, None);
    let unsupported = current_response(vec![("time", text("2024-06-01T12:00")), ("weather_code", uint(4))]);
    assert_eq!(parse_current(&unsupported, units(), &args).unwrap().code, None);
    let humid = current_response(vec![("time", text("2024-06-01T12:00")), ("relative_humidity_2m", uint(300))]);
    match parse_current(&humid, units(), &vec![Current::Humidity]) {
        Err(ParsingError::DeseializationError(m)) => {
            assert_eq!(m, "Failed to parse x.relative_humidity_2m as a percentage")
        },
        other => panic!("unexpected {:?}", other),
    }
    let full = current_response(vec![("time", text("2024-06-01T12:00")), ("relative_humidity_2m", uint(255))]);
    assert_eq!(parse_current(&full, units(), &vec![Current::Humidity]).unwrap().humidity.unwrap().percentage, 255);
}

#[test]
fn wrong_kind_is_a_deserialization_error() {
    let response = current_response(vec![("time", text("2024-06-01T12:00")), ("wind_speed_10m", text("fast"))]);
    match parse_current(&response, units(), &vec![Current::WindSpeed]) {
        Err(ParsingError::DeseializationError(m)) => assert_eq!(m, "Failed to parse x.wind_speed_10m as a number"),
        other => panic!("unexpected {:?}", other),
    }
    let not_array = obj(vec![
        ("latitude", uint(50)),
        ("longitude", uint(20)),
        ("utc_offset_seconds", uint(0)),
        (
            "hourly",
            obj(vec![("time", Json::Array(vec![text("2024-06-01T00:00")])), ("temperature_2m", num(1, 0))]),
        ),
    ]);
    match parse_hourly(&not_array, units(), &vec![Hourly::Temperature], 1) {
        Err(ParsingError::DeseializationError(m)) => assert_eq!(m, "Failed to parse x.temperature_2m as an array"),
        other => panic!("unexpected {:?}", other),
    }
}

#[test]
fn missing_column_is_named_for_any_hour_count() {
    let response = hourly_response(5);
    for hours in [0u8, 1, 24] {
        match parse_hourly(&response, units(), &vec![Hourly::Temperature, Hourly::WindSpeed], hours) {
            Err(ParsingError::MissingField(n)) => assert_eq!(n, "wind_speed_10m"),
            other => panic!("unexpected {:?}", other),
        }
    }
    let no_times = obj(vec![
        ("latitude", uint(50)),
        ("longitude", uint(20)),
        ("utc_offset_seconds", uint(0)),
        ("hourly", obj(vec![("time", Json::Array(vec![])), ("temperature_2m", num(1, 0))])),
    ]);
    match parse_hourly(&no_times, units(), &vec![Hourly::Humidity, Hourly::Temperature], 24) {
        Err(ParsingError::MissingField(n)) => assert_eq!(n, "relative_humidity_2m"),
        other => panic!("unexpected {:?}", other),
    }
    match parse_hourly(&no_times, units(), &vec![Hourly::Temperature], 0) {
        Err(ParsingError::DeseializationError(m)) => assert_eq!(m, "Failed to parse x.temperature_2m as an array"),
        other => panic!("unexpected {:?}", other),
    }
}
