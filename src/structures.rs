//! The weather record, one shape for current weather and for each hour of
//! a forecast.

use vstd::prelude::*;
use crate::decimal::Decimal;
use crate::measurements::{Coordinates, Units};
use crate::time::Timestamp;
use crate::units::{code_condition, Humidity, Precipitation, Temperature, WeatherCode, Wind};

verus! {

/// Weather at one place and time. Each optional reading is present exactly
/// when its field was requested.
#[derive(Clone, Copy, Debug, PartialEq, Eq, Structural)]
pub struct HourlyWeather {
    pub coordinates: Coordinates,
    pub time: Timestamp,
    /// Temperature at 2 m.
    pub temperature: Option<Temperature>,
    /// The "feels like" temperature.
    pub apparent_temperature: Option<Temperature>,
    /// Relative humidity in percent.
    pub humidity: Option<Humidity>,
    pub is_day: Option<bool>,
    pub precipitation: Option<Precipitation>,
    /// The weather condition; `None` also for a code that is not supported.
    pub code: Option<WeatherCode>,
    pub wind: Option<Wind>,
}

/// Current weather has the shape of one hour of a forecast.
pub type CurrentWeather = HourlyWeather;

/// The record that `HourlyWeather::new_short` builds from plain readings.
pub open spec fn short_record(
    units: Units,
    coordinates: Coordinates,
    time: Timestamp,
    temp: Option<Decimal>,
    apparent_temp: Option<Decimal>,
    humidity: Option<u8>,
    is_day: Option<bool>,
    prec: Option<Decimal>,
    rain: Option<Decimal>,
    showers: Option<Decimal>,
    snowfall: Option<Decimal>,
    probability: Option<u8>,
    weather_code: Option<u8>,
    wind_speed: Option<Decimal>,
    wind_dir: Option<Decimal>,
) -> HourlyWeather {
    HourlyWeather {
        coordinates,
        time,
        temperature: match temp {
            Some(t) => Some(Temperature { temp: t, unit: units.temperature }),
            None => None,
        },
        apparent_temperature: match apparent_temp {
            Some(t) => Some(Temperature { temp: t, unit: units.temperature }),
            None => None,
        },
        humidity: match humidity {
            Some(h) => Some(Humidity { percentage: h }),
            None => None,
        },
        is_day,
        precipitation: if prec is None && rain is None && showers is None && snowfall is None
            && probability is None {
            None
        } else {
            Some(
                Precipitation {
                    combined: prec,
                    rain,
                    showers,
                    snowfall,
                    probability,
                    unit: units.length,
                },
            )
        },
        code: match weather_code {
            Some(c) => code_condition(c),
            None => None,
        },
        wind: if wind_speed is None && wind_dir is None {
            None
        } else {
            Some(Wind { speed: wind_speed, direction: wind_dir, unit: units.speed })
        },
    }
}

impl HourlyWeather {
    pub fn new(
        coordinates: Coordinates,
        time: Timestamp,
        temperature: Option<Temperature>,
        apparent_temperature: Option<Temperature>,
        humidity: Option<Humidity>,
        is_day: Option<bool>,
        precipitation: Option<Precipitation>,
        weather_code: Option<WeatherCode>,
        wind_speed: Option<Wind>,
    ) -> (r: Self)
        ensures
            r == (HourlyWeather {
                coordinates,
                time,
                temperature,
                apparent_temperature,
                humidity,
                is_day,
                precipitation,
                code: weather_code,
                wind: wind_speed,
            }),
    {
        HourlyWeather {
            coordinates,
            time,
            temperature,
            apparent_temperature,
            humidity,
            is_day,
            precipitation,
            code: weather_code,
            wind: wind_speed,
        }
    }

    /// A record from plain readings, in the units given: temperatures in
    /// `units.temperature`, amounts in `units.length`, wind in `units.speed`.
    /// Precipitation and wind are `None` when none of their parts is given;
    /// an unsupported weather code gives no condition.
    pub fn new_short(
        units: Units,
        coordinates: Coordinates,
        time: Timestamp,
        temp: Option<Decimal>,
        apparent_temp: Option<Decimal>,
        humidity: Option<u8>,
        is_day: Option<bool>,
        prec: Option<Decimal>,
        rain: Option<Decimal>,
        showers: Option<Decimal>,
        snowfall: Option<Decimal>,
        probability: Option<u8>,
        weather_code: Option<u8>,
        wind_speed: Option<Decimal>,
        wind_dir: Option<Decimal>,
    ) -> (r: Self)
        ensures
            r == short_record(
                units,
                coordinates,
                time,
                temp,
                apparent_temp,
                humidity,
                is_day,
                prec,
                rain,
                showers,
                snowfall,
                probability,
                weather_code,
                wind_speed,
                wind_dir,
            ),
    {
        let temperature = match temp {
            Some(t) => Some(Temperature::new(t, units.temperature)),
            None => None,
        };
        let apparent_temperature = match apparent_temp {
            Some(t) => Some(Temperature::new(t, units.temperature)),
            None => None,
        };
        let humidity = match humidity {
            Some(h) => Some(Humidity::new(h)),
            None => None,
        };
        let precipitation = Precipitation::new(prec, rain, showers, snowfall, probability, units.length);
        let code = match weather_code {
            Some(c) => WeatherCode::from_code(c),
            None => None,
        };
        let wind = Wind::new(wind_speed, wind_dir, units.speed);
        Self::new(
            coordinates,
            time,
            temperature,
            apparent_temperature,
            humidity,
            is_day,
            precipitation,
            code,
            wind,
        )
    }
}

} // verus!
