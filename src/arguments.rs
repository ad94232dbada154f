//! The fields that a request can ask for, and their names on the wire.
//! One table, `field_wire`, names each field both in the query and in the
//! response.

use vstd::prelude::*;

verus! {

/// Which precipitation amount a field asks for.
#[derive(Clone, Copy, Debug, PartialEq, Eq, Structural)]
pub enum PrecipitationTypes {
    Combined,
    Rain,
    Showers,
    Snowfall,
}

/// Every field a request can ask for; `Current` and `Hourly` map into it.
#[derive(Clone, Copy, Debug, PartialEq, Eq, Structural)]
pub enum Field {
    Temperature,
    ApparentTemp,
    Humidity,
    IsDay,
    Precipitation(PrecipitationTypes),
    PrecipitationProbability,
    WeatherCode,
    WindSpeed,
    WindDirection,
}

/// The wire name of a field.
pub open spec fn field_wire(f: Field) -> Seq<char> {
    match f {
        Field::Temperature => "temperature_2m"@,
        Field::ApparentTemp => "apparent_temperature"@,
        Field::Humidity => "relative_humidity_2m"@,
        Field::IsDay => "is_day"@,
        Field::Precipitation(p) => match p {
            PrecipitationTypes::Combined => "precipitation"@,
            PrecipitationTypes::Rain => "rain"@,
            PrecipitationTypes::Showers => "showers"@,
            PrecipitationTypes::Snowfall => "snowfall"@,
        },
        Field::PrecipitationProbability => "precipitation_probability"@,
        Field::WeatherCode => "weather_code"@,
        Field::WindSpeed => "wind_speed_10m"@,
        Field::WindDirection => "wind_direction_10m"@,
    }
}

/// A field whose value is a whole number (the others are decimal amounts).
pub open spec fn is_count(f: Field) -> bool {
    match f {
        Field::Humidity | Field::IsDay | Field::PrecipitationProbability | Field::WeatherCode => true,
        _ => false,
    }
}

impl Field {
    /// The wire name of the field.
    pub fn wire_name(&self) -> (r: String)
        ensures
            r@ == field_wire(*self),
    {
        match self {
            Field::Temperature => String::from_str("temperature_2m"),
            Field::ApparentTemp => String::from_str("apparent_temperature"),
            Field::Humidity => String::from_str("relative_humidity_2m"),
            Field::IsDay => String::from_str("is_day"),
            Field::Precipitation(p) => match p {
                PrecipitationTypes::Combined => String::from_str("precipitation"),
                PrecipitationTypes::Rain => String::from_str("rain"),
                PrecipitationTypes::Showers => String::from_str("showers"),
                PrecipitationTypes::Snowfall => String::from_str("snowfall"),
            },
            Field::PrecipitationProbability => String::from_str("precipitation_probability"),
            Field::WeatherCode => String::from_str("weather_code"),
            Field::WindSpeed => String::from_str("wind_speed_10m"),
            Field::WindDirection => String::from_str("wind_direction_10m"),
        }
    }

    /// Whether the field's value is a whole number.
    pub fn is_count(&self) -> (r: bool)
        ensures
            r == is_count(*self),
    {
        match self {
            Field::Humidity | Field::IsDay | Field::PrecipitationProbability | Field::WeatherCode => true,
            _ => false,
        }
    }
}

/// Distinct fields have distinct wire names.
pub proof fn lemma_field_wire_injective(f: Field, g: Field)
    ensures
        field_wire(f) == field_wire(g) ==> f == g,
{
    reveal_strlit("temperature_2m");
    reveal_strlit("apparent_temperature");
    reveal_strlit("relative_humidity_2m");
    reveal_strlit("is_day");
    reveal_strlit("precipitation");
    reveal_strlit("rain");
    reveal_strlit("showers");
    reveal_strlit("snowfall");
    reveal_strlit("precipitation_probability");
    reveal_strlit("weather_code");
    reveal_strlit("wind_speed_10m");
    reveal_strlit("wind_direction_10m");
    if f != g {
        let a = field_wire(f);
        let b = field_wire(g);
        assert(a.len() != b.len() || a[0] != b[0] || a[1] != b[1] || a[5] != b[5]);
    }
}

/// A value of a forecast request's field list.
pub trait Argument {
    /// The field this argument asks for.
    spec fn spec_field(&self) -> Field;

    /// The field this argument asks for.
    fn field(&self) -> (r: Field)
        ensures
            r == self.spec_field(),
    ;

    /// The name of the argument in the query and in the response.
    fn to_string(&self) -> (r: String)
        ensures
            r@ == field_wire(self.spec_field()),
    ;
}

/// A field of current weather.
#[derive(Clone, Copy, Debug, PartialEq, Eq, Structural)]
pub enum Current {
    Temperature,
    ApparentTemp,
    Humidity,
    IsDay,
    Precipitation(PrecipitationTypes),
    WeatherCode,
    WindSpeed,
    WindDirection,
}

/// The field a current-weather argument asks for.
pub open spec fn current_field(c: Current) -> Field {
    match c {
        Current::Temperature => Field::Temperature,
        Current::ApparentTemp => Field::ApparentTemp,
        Current::Humidity => Field::Humidity,
        Current::IsDay => Field::IsDay,
        Current::Precipitation(p) => Field::Precipitation(p),
        Current::WeatherCode => Field::WeatherCode,
        Current::WindSpeed => Field::WindSpeed,
        Current::WindDirection => Field::WindDirection,
    }
}

impl Argument for Current {
    open spec fn spec_field(&self) -> Field {
        current_field(*self)
    }

    fn field(&self) -> (r: Field) {
        match self {
            Current::Temperature => Field::Temperature,
            Current::ApparentTemp => Field::ApparentTemp,
            Current::Humidity => Field::Humidity,
            Current::IsDay => Field::IsDay,
            Current::Precipitation(p) => Field::Precipitation(*p),
            Current::WeatherCode => Field::WeatherCode,
            Current::WindSpeed => Field::WindSpeed,
            Current::WindDirection => Field::WindDirection,
        }
    }

    fn to_string(&self) -> (r: String) {
        let f = self.field();
        f.wire_name()
    }
}

/// A field of an hourly forecast.
#[derive(Clone, Copy, Debug, PartialEq, Eq, Structural)]
pub enum Hourly {
    Temperature,
    ApparentTemp,
    Humidity,
    IsDay,
    Precipitation(PrecipitationTypes),
    PrecipitationProbability,
    WeatherCode,
    WindSpeed,
    WindDirection,
}

/// The field an hourly argument asks for.
pub open spec fn hourly_field(h: Hourly) -> Field {
    match h {
        Hourly::Temperature => Field::Temperature,
        Hourly::ApparentTemp => Field::ApparentTemp,
        Hourly::Humidity => Field::Humidity,
        Hourly::IsDay => Field::IsDay,
        Hourly::Precipitation(p) => Field::Precipitation(p),
        Hourly::PrecipitationProbability => Field::PrecipitationProbability,
        Hourly::WeatherCode => Field::WeatherCode,
        Hourly::WindSpeed => Field::WindSpeed,
        Hourly::WindDirection => Field::WindDirection,
    }
}

impl Argument for Hourly {
    open spec fn spec_field(&self) -> Field {
        hourly_field(*self)
    }

    fn field(&self) -> (r: Field) {
        match self {
            Hourly::Temperature => Field::Temperature,
            Hourly::ApparentTemp => Field::ApparentTemp,
            Hourly::Humidity => Field::Humidity,
            Hourly::IsDay => Field::IsDay,
            Hourly::Precipitation(p) => Field::Precipitation(*p),
            Hourly::PrecipitationProbability => Field::PrecipitationProbability,
            Hourly::WeatherCode => Field::WeatherCode,
            Hourly::WindSpeed => Field::WindSpeed,
            Hourly::WindDirection => Field::WindDirection,
        }
    }

    fn to_string(&self) -> (r: String) {
        let f = self.field();
        f.wire_name()
    }
}

/// The fields a list of arguments asks for, in order.
pub open spec fn fields_of<A: Argument>(args: Seq<A>) -> Seq<Field> {
    args.map_values(|a: A| a.spec_field())
}

/// The fields of a list of arguments, in order.
pub fn fields<A: Argument>(args: &Vec<A>) -> (r: Vec<Field>)
    ensures
        r@ == fields_of(args@),
{
    let mut out: Vec<Field> = Vec::new();
    let mut i: usize = 0;
    while i < args.len()
        invariant
            i <= args@.len(),
            out@ == fields_of(args@.subrange(0, i as int)),
        decreases args@.len() - i,
    {
        let f = args[i].field();
        out.push(f);
        proof {
            assert(fields_of(args@.subrange(0, i + 1)) =~= fields_of(args@.subrange(0, i as int)).push(f));
        }
        i = i + 1;
    }
    proof {
        assert(args@.subrange(0, args@.len() as int) =~= args@);
    }
    out
}

} // verus!
