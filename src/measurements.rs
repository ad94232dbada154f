//! Measurement units: how each is named on the wire and how it is shown.

use vstd::prelude::*;
use crate::decimal::Decimal;

verus! {

/// Unit in which wind speed is reported.
#[derive(Clone, Copy, Debug, PartialEq, Eq, Structural)]
pub enum Speed {
    Kmh,
    Ms,
    Mph,
    Knots,
}

/// Display symbol of a speed unit.
pub open spec fn speed_symbol(s: Speed) -> Seq<char> {
    match s {
        Speed::Kmh => "km/h"@,
        Speed::Ms => "m/s"@,
        Speed::Mph => "mp/h"@,
        Speed::Knots => "kn"@,
    }
}

/// Name of a speed unit in a forecast query.
pub open spec fn speed_wire(s: Speed) -> Seq<char> {
    match s {
        Speed::Kmh => "kmh"@,
        Speed::Ms => "ms"@,
        Speed::Mph => "mph"@,
        Speed::Knots => "kn"@,
    }
}

impl Speed {
    /// The symbol shown after a speed value.
    pub fn stringify(&self) -> (r: String)
        ensures
            r@ == speed_symbol(*self),
    {
        match self {
            Speed::Kmh => String::from_str("km/h"),
            Speed::Ms => String::from_str("m/s"),
            Speed::Mph => String::from_str("mp/h"),
            Speed::Knots => String::from_str("kn"),
        }
    }

    /// The name of the unit in a forecast query.
    pub fn to_string(&self) -> (r: String)
        ensures
            r@ == speed_wire(*self),
    {
        match self {
            Speed::Kmh => String::from_str("kmh"),
            Speed::Ms => String::from_str("ms"),
            Speed::Mph => String::from_str("mph"),
            Speed::Knots => String::from_str("kn"),
        }
    }
}

impl Default for Speed {
    /// The forecast provider's own default, km/h.
    fn default() -> (r: Self)
        ensures
            r == Speed::Kmh,
    {
        Speed::Kmh
    }
}

/// Unit in which temperatures are reported.
#[derive(Clone, Copy, Debug, PartialEq, Eq, Structural)]
pub enum TempUnit {
    Celsius,
    Fahrenheit,
}

/// Display symbol of a temperature unit.
pub open spec fn temp_symbol(t: TempUnit) -> Seq<char> {
    match t {
        TempUnit::Celsius => "°C"@,
        TempUnit::Fahrenheit => "°F"@,
    }
}

/// Name of a temperature unit in a forecast query.
pub open spec fn temp_wire(t: TempUnit) -> Seq<char> {
    match t {
        TempUnit::Celsius => "celsius"@,
        TempUnit::Fahrenheit => "fahrenheit"@,
    }
}

impl TempUnit {
    /// The symbol shown after a temperature value.
    pub fn stringify(&self) -> (r: String)
        ensures
            r@ == temp_symbol(*self),
    {
        match self {
            TempUnit::Celsius => String::from_str("°C"),
            TempUnit::Fahrenheit => String::from_str("°F"),
        }
    }

    /// The name of the unit in a forecast query.
    pub fn to_string(&self) -> (r: String)
        ensures
            r@ == temp_wire(*self),
    {
        match self {
            TempUnit::Celsius => String::from_str("celsius"),
            TempUnit::Fahrenheit => String::from_str("fahrenheit"),
        }
    }
}

impl Default for TempUnit {
    /// The forecast provider's own default, Celsius.
    fn default() -> (r: Self)
        ensures
            r == TempUnit::Celsius,
    {
        TempUnit::Celsius
    }
}

/// Unit in which precipitation amounts are reported.
#[derive(Clone, Copy, Debug, PartialEq, Eq, Structural)]
pub enum Length {
    Mm,
    Inch,
}

/// Name of a length unit, in a query and on display alike.
pub open spec fn length_name(l: Length) -> Seq<char> {
    match l {
        Length::Mm => "mm"@,
        Length::Inch => "inch"@,
    }
}

impl Length {
    /// The name of the unit, used both in a query and after a value.
    pub fn to_string(&self) -> (r: String)
        ensures
            r@ == length_name(*self),
    {
        match self {
            Length::Inch => String::from_str("inch"),
            Length::Mm => String::from_str("mm"),
        }
    }
}

impl Default for Length {
    /// The forecast provider's own default, millimetres.
    fn default() -> (r: Self)
        ensures
            r == Length::Mm,
    {
        Length::Mm
    }
}

/// The unit preference threaded through a request and the records parsed
/// from its response.
#[derive(Clone, Copy, Debug, PartialEq, Eq, Structural)]
pub struct Units {
    pub speed: Speed,
    pub temperature: TempUnit,
    pub length: Length,
}

impl Units {
    pub fn new(speed: Speed, temperature: TempUnit, length: Length) -> (r: Self)
        ensures
            r == (Units { speed, temperature, length }),
    {
        Units { speed, temperature, length }
    }
}

impl Default for Units {
    /// The provider's defaults: km/h, Celsius and millimetres.
    fn default() -> (r: Self)
        ensures
            r == (Units { speed: Speed::Kmh, temperature: TempUnit::Celsius, length: Length::Mm }),
    {
        Units { speed: Speed::Kmh, temperature: TempUnit::Celsius, length: Length::Mm }
    }
}

/// A point on the globe, in degrees.
#[derive(Clone, Copy, Debug, PartialEq, Eq, Structural)]
pub struct Coordinates {
    pub lng: Decimal,
    pub lat: Decimal,
}

impl Coordinates {
    pub fn new(lng: Decimal, lat: Decimal) -> (r: Self)
        ensures
            r == (Coordinates { lng, lat }),
    {
        Coordinates { lng, lat }
    }
}

} // verus!
