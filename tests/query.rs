use rusty_weather::{Coordinates, Current, Decimal, Hourly, Length, OpenMeteo, Speed, TempUnit, Units};

fn whole(n: i64) -> Decimal {
    Decimal::new(n, 0)
}

#[test]
fn url_validity() {
    let coordinates = Coordinates::new(whole(50), whole(20));
    let units = Units::new(Speed::Knots, TempUnit::Fahrenheit, Length::Inch);

    let weather_url = OpenMeteo::new(coordinates)
        .current(vec![Current::Temperature, Current::IsDay, Current::WindSpeed])
        .units(units)
        .forecast_days(1)
        .build_url();

    let correct = String::from("latitude=20&longitude=50&timezone=auto&forecast_days=1&current=,temperature_2m,is_day,wind_speed_10m&wind_speed_unit=kn&temperature_unit=fahrenheit&precipitation_unit=inch");

    assert_eq!(weather_url, correct, "Incorrect url creation on OpenMeteo");
}

#[test]
fn default_units_are_omitted() {
    let url = OpenMeteo::new(Coordinates::new(whole(50), whole(20)))
        .current(vec![Current::Temperature])
        .units(Units::default())
        .build_url();
    assert_eq!(url, "latitude=20&longitude=50&timezone=auto&current=,temperature_2m");
    assert!(!url.contains("wind_speed_unit"));
    assert!(!url.contains("temperature_unit"));
    assert!(!url.contains("precipitation_unit"));
}

#[test]
fn only_non_default_units_are_emitted() {
    let url = OpenMeteo::new(Coordinates::new(whole(1), whole(2)))
        .units(Units::new(Speed::Ms, TempUnit::Celsius, Length::Mm))
        .build_url();
    assert_eq!(url, "latitude=2&longitude=1&timezone=auto&wind_speed_unit=ms");
    let url = OpenMeteo::new(Coordinates::new(whole(1), whole(2)))
        .units(Units::new(Speed::Kmh, TempUnit::Celsius, Length::Inch))
        .build_url();
    assert_eq!(url, "latitude=2&longitude=1&timezone=auto&precipitation_unit=inch");
}

#[test]
fn query_with_hourly_fields_timezone_and_clamped_days() {
    let url = OpenMeteo::new(Coordinates::new(Decimal::new(-1225, -2), Decimal::new(5252, -2)))
        .hourly(vec![Hourly::Temperature, Hourly::PrecipitationProbability])
        .timezone("Europe/Berlin")
        .forecast_days(30)
        .build_url();
    assert_eq!(
        url,
        "latitude=52.52&longitude=-12.25&timezone=Europe%2FBerlin&forecast_days=16&hourly=,temperature_2m,precipitation_probability"
    );
}

#[test]
fn builder_keeps_field_order_across_calls() {
    let q = OpenMeteo::new(Coordinates::new(whole(0), whole(0)))
        .current(vec![Current::WindSpeed])
        .current(vec![Current::Temperature]);
    assert_eq!(q.current, vec![Current::WindSpeed, Current::Temperature]);
    assert_eq!(
        q.build_url(),
        "latitude=0&longitude=0&timezone=auto&current=,wind_speed_10m,temperature_2m"
    );
}

#[test]
fn timezone_is_percent_encoded() {
    let url = |tz: &str| OpenMeteo::new(Coordinates::new(whole(1), whole(2))).timezone(tz).build_url();
    assert_eq!(url("Etc/GMT+5"), "latitude=2&longitude=1&timezone=Etc%2FGMT%2B5");
    assert_eq!(url("a&current=b"), "latitude=2&longitude=1&timezone=a%26current%3Db");
    assert_eq!(url("Z\u{fc}rich"), "latitude=2&longitude=1&timezone=Z%C3%BCrich");
    assert_eq!(url("A-z_0.9~ x"), "latitude=2&longitude=1&timezone=A-z_0.9~%20x");
}
