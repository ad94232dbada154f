//! Weather acquisition and normalization: the request builder, the typed
//! weather records and the parser that turns a forecast response into them.

pub mod measurements;
pub mod decimal;
pub mod units;
pub mod arguments;
pub mod json;
pub mod time;
pub mod parsing;
pub mod structures;
pub mod query;
pub mod notification;
pub mod assets;

pub use arguments::{Argument, Current, Field, Hourly, PrecipitationTypes};
pub use assets::{asset_catalog, get_svg, has_svg, load_assets, AssetEntry, AssetSource, Assets};
pub use decimal::Decimal;
pub use json::{Json, JsonNumber};
pub use measurements::{Coordinates, Length, Speed, TempUnit, Units};
pub use notification::{Level, Notification};
pub use parsing::{parse_current, parse_hourly, ParsingError};
pub use query::OpenMeteo;
pub use structures::{CurrentWeather, HourlyWeather};
pub use time::{convert_date_time, Timestamp};
pub use units::{CloudCover, Humidity, Intensity, Precipitation, SimpleIntensity, Temperature, WeatherCode, Wind};
