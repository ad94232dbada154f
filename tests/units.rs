use rusty_weather::{
    CloudCover, Decimal, Humidity, Intensity, Length, Precipitation, SimpleIntensity, Speed, TempUnit,
    Temperature, WeatherCode, Wind,
};

const SUPPORTED: [u8; 28] = [
    0, 1, 2, 3, 45, 48, 51, 53, 55, 56, 57, 61, 63, 65, 66, 67, 71, 73, 75, 77, 80, 81, 82, 85, 86, 95, 96, 99,
];

#[test]
fn supported_codes_give_a_condition() {
    for code in 0u8..=99 {
        assert_eq!(WeatherCode::from_code(code).is_some(), SUPPORTED.contains(&code), "code {code}");
    }
    assert_eq!(WeatherCode::from_code(200), None);
    assert_eq!(WeatherCode::from_code(0), Some(WeatherCode::Clear));
    assert_eq!(WeatherCode::from_code(48), Some(WeatherCode::Fog { is_rime_fog: true }));
    assert_eq!(
        WeatherCode::from_code(99),
        Some(WeatherCode::ThunderstormWithHail(SimpleIntensity::Heavy))
    );
}

#[test]
fn labels_emoji_and_icons() {
    let rain = WeatherCode::from_code(65).unwrap();
    assert_eq!(rain, WeatherCode::Rain(Intensity::Heavy));
    assert_eq!(rain.to_string(), "Heavy rain");
    assert_eq!(rain.to_string(), rain.to_string());
    assert_eq!(rain.to_emoji(false), "🌧️");
    assert_eq!(rain.get_svg_name(), "rainy");
    assert_eq!(WeatherCode::Cloudy(CloudCover::Partial).to_string(), "Partly cloudy");
    assert_eq!(WeatherCode::RainShowers(Intensity::Heavy).to_string(), "Violent rain showers");
    assert_eq!(WeatherCode::Clear.to_emoji(true), "🌙");
    assert_eq!(WeatherCode::Clear.to_emoji(false), "☀️");
    assert_eq!(WeatherCode::FreezingDrizzle(SimpleIntensity::Light).to_emoji(false), "🌦️");
    assert_eq!(WeatherCode::Drizzle(Intensity::Light).to_emoji(false), "🌦️");
    assert_eq!(WeatherCode::SnowFall(Intensity::Light).to_emoji(false), "🌨️");
    assert_eq!(WeatherCode::SnowGrains.to_emoji(false), "❄️");
    assert_eq!(WeatherCode::Fog { is_rime_fog: true }.get_svg_name(), "foggy");
}

#[test]
fn icon_keys_group_by_family() {
    let rainy: Vec<String> = [61u8, 63, 65, 66, 67, 80, 81, 82]
        .iter()
        .map(|c| WeatherCode::from_code(*c).unwrap().get_svg_name())
        .collect();
    assert!(rainy.iter().all(|k| k == "rainy"));
    assert_eq!(WeatherCode::FreezingDrizzle(SimpleIntensity::Light).get_svg_name(), "drizzle");
    assert_eq!(WeatherCode::SnowGrains.get_svg_name(), "snowfall");
    let distinct = [0u8, 1, 45, 51, 61, 71, 95];
    let keys: Vec<String> = distinct
        .iter()
        .map(|c| WeatherCode::from_code(*c).unwrap().get_svg_name())
        .collect();
    for i in 0..keys.len() {
        for j in 0..keys.len() {
            assert_eq!(keys[i] == keys[j], i == j);
        }
    }
}

fn direction(d: Decimal) -> String {
    Wind::new(None, Some(d), Speed::Kmh).unwrap().direction_stringify()
}

#[test]
fn wind_direction_sectors() {
    assert_eq!(direction(Decimal::new(0, 0)), "N");
    assert_eq!(direction(Decimal::new(3599, -1)), "N");
    assert_eq!(direction(Decimal::new(360, 0)), "N");
    assert_eq!(direction(Decimal::new(45, 0)), "NE");
    assert_eq!(direction(Decimal::new(-10, 0)), direction(Decimal::new(350, 0)));
    assert_eq!(direction(Decimal::new(-10, 0)), "N");
    assert_eq!(direction(Decimal::new(225, -1)), "NE");
    assert_eq!(direction(Decimal::new(224, -1)), "N");
    assert_eq!(direction(Decimal::new(3375, -1)), "N");
    assert_eq!(direction(Decimal::new(3374, -1)), "NW");
    assert_eq!(direction(Decimal::new(90, 0)), "E");
    assert_eq!(direction(Decimal::new(180, 0)), "S");
    assert_eq!(direction(Decimal::new(-90, 0)), "W");
    assert_eq!(direction(Decimal::new(27, 1)), "W");
    assert_eq!(direction(Decimal::new(5, -30)), "N");
}

#[test]
fn wind_text() {
    assert_eq!(Wind::new(None, None, Speed::Kmh), None);
    let w = Wind::new(Some(Decimal::new(125, -1)), Some(Decimal::new(200, 0)), Speed::Knots).unwrap();
    assert_eq!(w.speed_stringify(), "12.5kn");
    assert_eq!(w.stringify(), "S, 12.5kn");
    let calm = Wind::new(Some(Decimal::new(3, 0)), None, Speed::Mph).unwrap();
    assert_eq!(calm.direction_stringify(), "");
    assert_eq!(calm.speed_stringify(), "3mp/h");
}

#[test]
fn precipitation_text() {
    assert!(Precipitation::new(None, None, None, None, None, Length::Mm).is_none());
    let p = Precipitation::new(Some(Decimal::new(12, -1)), None, None, None, Some(40), Length::Inch).unwrap();
    assert_eq!(p.combined_to_string(), "1.2inch");
    assert_eq!(p.rain_to_string(), "??");
    assert_eq!(p.showers_to_string(), "??");
    assert_eq!(p.snowfall_to_string(), "??");
    assert_eq!(p.probability_to_string(), "40%");
}

#[test]
fn temperature_and_humidity_text() {
    assert_eq!(Temperature::new(Decimal::new(215, -1), TempUnit::Celsius).stringify(), "21.5°C");
    assert_eq!(Temperature::new(Decimal::new(-3, 0), TempUnit::Fahrenheit).stringify(), "-3°F");
    assert_eq!(Humidity::new(55).stringify(), "55%");
    assert_eq!(Humidity::new(0).stringify(), "0%");
}

#[test]
fn unit_names() {
    assert_eq!(Speed::Kmh.stringify(), "km/h");
    assert_eq!(Speed::Kmh.to_string(), "kmh");
    assert_eq!(Speed::Mph.stringify(), "mp/h");
    assert_eq!(Speed::Ms.to_string(), "ms");
    assert_eq!(TempUnit::Fahrenheit.to_string(), "fahrenheit");
    assert_eq!(TempUnit::Celsius.stringify(), "°C");
    assert_eq!(Length::Mm.to_string(), "mm");
    assert_eq!(Speed::default(), Speed::Kmh);
    assert_eq!(TempUnit::default(), TempUnit::Celsius);
    assert_eq!(Length::default(), Length::Mm);
}

#[test]
fn decimal_text() {
    assert_eq!(Decimal::new(215, -1).to_string(), "21.5");
    assert_eq!(Decimal::new(-25, -2).to_string(), "-0.25");
    assert_eq!(Decimal::new(3, 2).to_string(), "300");
    assert_eq!(Decimal::new(0, 5).to_string(), "0");
    assert_eq!(Decimal::new(0, -3).to_string(), "0");
    assert_eq!(Decimal::new(1050, -2).to_string(), "10.5");
    assert_eq!(Decimal::new(1000, -3).to_string(), "1");
    assert_eq!(Decimal::new(5, -25).to_string(), "0.0000000000000000000000005");
    assert_eq!(Decimal::new(i64::MIN, 0).to_string(), "-9223372036854775808");
    assert_eq!(Decimal::new(12, 20).to_string(), "1200000000000000000000");
}

#[test]
fn decimal_literals() {
    assert_eq!(Decimal::parse("21.5"), Some(Decimal::new(215, -1)));
    assert_eq!(Decimal::parse("-0.25"), Some(Decimal::new(-25, -2)));
    assert_eq!(Decimal::parse("12"), Some(Decimal::new(12, 0)));
    assert_eq!(Decimal::parse("1e-7"), Some(Decimal::new(1, -7)));
    assert_eq!(Decimal::parse("1.5E+20"), Some(Decimal::new(15, 19)));
    assert_eq!(Decimal::parse("9223372036854775807"), Some(Decimal::new(i64::MAX, 0)));
    assert_eq!(Decimal::parse("-9223372036854775808"), Some(Decimal::new(i64::MIN, 0)));
    assert_eq!(Decimal::parse("9223372036854775808"), None);
    assert_eq!(Decimal::parse("1e10000000000"), None);
    for bad in ["", "-", "1.", ".5", "1e", "1e+", "abc", "1.2.3", "+1", "1 "] {
        assert_eq!(Decimal::parse(bad), None, "{bad}");
    }
    assert_eq!(Decimal::parse("0.1").unwrap().to_string(), "0.1");
}
