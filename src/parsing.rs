//! Classified errors, and the parser of forecast responses.

use vstd::prelude::*;
use crate::arguments::{
    current_field, fields, fields_of, field_wire, hourly_field, is_count, Current, Field, Hourly,
    PrecipitationTypes,
};
use crate::decimal::{nat_digits, push_digits, Decimal};
use crate::json::{as_array, as_decimal, as_i64, as_object, as_str, as_u64, get, lookup, member, member_of, Json};
use crate::measurements::{Coordinates, Units};
use crate::structures::{short_record, CurrentWeather, HourlyWeather};
use crate::time::{convert_date_time, naive_seconds_of, time_outcome, wall_clock, Timestamp};

verus! {

/// What went wrong in fetching or parsing weather.
#[derive(Clone, Debug, PartialEq, Eq)]
pub enum ParsingError {
    /// Network or HTTP failure.
    HTTP(String),
    /// Malformed JSON or a value of the wrong shape.
    DeseializationError(String),
    /// A requested field is absent from the response (its name).
    MissingField(String),
    /// A timestamp or offset that does not parse.
    TimeError(String),
    /// The location could not be resolved.
    LocationError(String),
    OtherError(String),
}

/// The kind of a `ParsingError`.
#[derive(Clone, Copy, Debug, PartialEq, Eq, Structural)]
pub enum ErrorKind {
    Http,
    Deserialization,
    MissingField,
    Time,
    Location,
    Other,
}

/// An error as its kind and message.
pub type ErrorView = (ErrorKind, Seq<char>);

impl View for ParsingError {
    type V = ErrorView;

    open spec fn view(&self) -> ErrorView {
        match self {
            ParsingError::HTTP(m) => (ErrorKind::Http, m@),
            ParsingError::DeseializationError(m) => (ErrorKind::Deserialization, m@),
            ParsingError::MissingField(m) => (ErrorKind::MissingField, m@),
            ParsingError::TimeError(m) => (ErrorKind::Time, m@),
            ParsingError::LocationError(m) => (ErrorKind::Location, m@),
            ParsingError::OtherError(m) => (ErrorKind::Other, m@),
        }
    }
}

/// A result with its error as kind and message.
pub open spec fn result_view<T>(r: Result<T, ParsingError>) -> Result<T, ErrorView> {
    match r {
        Ok(v) => Ok(v),
        Err(e) => Err(e@),
    }
}

/// A value read for a field: a decimal amount or a whole number.
#[derive(Clone, Copy, Debug, PartialEq, Eq, Structural)]
pub enum Reading {
    Amount(Decimal),
    Count(u64),
}

/// The value under `key` in an object's entries, `null` when absent.
pub open spec fn entry(entries: Seq<(String, Json)>, key: Seq<char>) -> Json {
    match lookup(entries, key) {
        Some(v) => v,
        None => Json::Null,
    }
}

/// A field whose value is a percentage, held in a byte.
pub open spec fn is_percent(f: Field) -> bool {
    f == Field::Humidity || f == Field::PrecipitationProbability
}

/// What a value of field `f` must be.
pub open spec fn kind_name(f: Field) -> Seq<char> {
    if is_percent(f) {
        "a percentage"@
    } else if is_count(f) {
        "an integer"@
    } else {
        "a number"@
    }
}

/// Where a value stands in the response: the row of an array, or nothing
/// for a single value.
pub open spec fn row_text(row: Option<nat>) -> Seq<char> {
    match row {
        Some(i) => "["@ + nat_digits(i) + "]"@,
        None => Seq::empty(),
    }
}

/// The message of a value of the wrong shape.
pub open spec fn shape_message(name: Seq<char>, row: Option<nat>, kind: Seq<char>) -> Seq<char> {
    "Failed to parse x."@ + name + row_text(row) + " as "@ + kind
}

/// A value of the kind field `f` expects: a whole number (at most 255 for a
/// percentage) or a decimal amount.
pub open spec fn typed_reading(v: Json, f: Field) -> Option<Reading> {
    if is_count(f) {
        match as_u64(v) {
            Some(n) => if is_percent(f) && n > 255 {
                None
            } else {
                Some(Reading::Count(n))
            },
            None => None,
        }
    } else {
        match as_decimal(v) {
            Some(d) => Some(Reading::Amount(d)),
            None => None,
        }
    }
}

/// Reads field `f` from the entries of the `current` object (`row` is
/// `None`) or from row `row` of the arrays of the `hourly` object. A field
/// whose key is absent is `MissingField` with its wire name; a field that is
/// present but not a value (or an array) of its kind, and a cell that is
/// absent or of the wrong kind, is a deserialization error.
pub open spec fn read_field(obj: Seq<(String, Json)>, row: Option<nat>, f: Field) -> Result<Reading, ErrorView> {
    let name = field_wire(f);
    match lookup(obj, name) {
        None => Err((ErrorKind::MissingField, name)),
        Some(v) => match row {
            None => match typed_reading(v, f) {
                Some(r) => Ok(r),
                None => Err((ErrorKind::Deserialization, shape_message(name, None, kind_name(f)))),
            },
            Some(i) => match as_array(v) {
                None => Err((ErrorKind::Deserialization, shape_message(name, None, "an array"@))),
                Some(items) => if i < items.len() {
                    match typed_reading(items[i as int], f) {
                        Some(r) => Ok(r),
                        None => Err((ErrorKind::Deserialization, shape_message(name, row, kind_name(f)))),
                    }
                } else {
                    Err((ErrorKind::Deserialization, shape_message(name, row, kind_name(f))))
                },
            },
        },
    }
}

/// The error of the first field of `fs`, in order, that cannot be read.
pub open spec fn first_failure(obj: Seq<(String, Json)>, row: Option<nat>, fs: Seq<Field>) -> Option<ErrorView>
    decreases fs.len(),
{
    if fs.len() == 0 {
        None
    } else {
        match first_failure(obj, row, fs.drop_last()) {
            Some(e) => Some(e),
            None => match read_field(obj, row, fs.last()) {
                Err(e) => Some(e),
                Ok(_) => None,
            },
        }
    }
}

/// Once a prefix of the fields fails, the whole list fails with its error.
proof fn lemma_failure_extends(obj: Seq<(String, Json)>, row: Option<nat>, fs: Seq<Field>, n: int)
    requires
        0 <= n <= fs.len(),
        first_failure(obj, row, fs.subrange(0, n)) is Some,
    ensures
        first_failure(obj, row, fs) == first_failure(obj, row, fs.subrange(0, n)),
    decreases fs.len() - n,
{
    if n < fs.len() {
        assert(fs.subrange(0, n + 1).drop_last() =~= fs.subrange(0, n));
        lemma_failure_extends(obj, row, fs, n + 1);
    } else {
        assert(fs.subrange(0, n) =~= fs);
    }
}

/// The reading of `f` when `fs` requests it.
pub open spec fn requested(obj: Seq<(String, Json)>, row: Option<nat>, fs: Seq<Field>, f: Field) -> Option<Reading> {
    if fs.contains(f) {
        match read_field(obj, row, f) {
            Ok(r) => Some(r),
            Err(_) => None,
        }
    } else {
        None
    }
}

pub open spec fn amount(r: Option<Reading>) -> Option<Decimal> {
    match r {
        Some(Reading::Amount(d)) => Some(d),
        _ => None,
    }
}

/// A whole number that fits a byte; `None` above 255 (a weather code
/// above 255 names no condition).
pub open spec fn byte_value(r: Option<Reading>) -> Option<u8> {
    match r {
        Some(Reading::Count(n)) => if n <= 255 {
            Some(n as u8)
        } else {
            None
        },
        _ => None,
    }
}

/// The provider's 0/1 day flag; any value other than 0 counts as day.
pub open spec fn flag(r: Option<Reading>) -> Option<bool> {
    match r {
        Some(Reading::Count(n)) => Some(n != 0),
        _ => None,
    }
}

/// The record of one time point, from the readings of the requested fields.
pub open spec fn row_record(
    units: Units,
    coordinates: Coordinates,
    time: Timestamp,
    obj: Seq<(String, Json)>,
    row: Option<nat>,
    fs: Seq<Field>,
) -> HourlyWeather {
    short_record(
        units,
        coordinates,
        time,
        amount(requested(obj, row, fs, Field::Temperature)),
        amount(requested(obj, row, fs, Field::ApparentTemp)),
        byte_value(requested(obj, row, fs, Field::Humidity)),
        flag(requested(obj, row, fs, Field::IsDay)),
        amount(requested(obj, row, fs, Field::Precipitation(PrecipitationTypes::Combined))),
        amount(requested(obj, row, fs, Field::Precipitation(PrecipitationTypes::Rain))),
        amount(requested(obj, row, fs, Field::Precipitation(PrecipitationTypes::Showers))),
        amount(requested(obj, row, fs, Field::Precipitation(PrecipitationTypes::Snowfall))),
        byte_value(requested(obj, row, fs, Field::PrecipitationProbability)),
        byte_value(requested(obj, row, fs, Field::WeatherCode)),
        amount(requested(obj, row, fs, Field::WindSpeed)),
        amount(requested(obj, row, fs, Field::WindDirection)),
    )
}

/// The readings gathered for one time point, one slot per field.
struct Readings {
    temperature: Option<Decimal>,
    apparent_temperature: Option<Decimal>,
    humidity: Option<u64>,
    is_day: Option<u64>,
    combined: Option<Decimal>,
    rain: Option<Decimal>,
    showers: Option<Decimal>,
    snowfall: Option<Decimal>,
    probability: Option<u64>,
    weather_code: Option<u64>,
    wind_speed: Option<Decimal>,
    wind_direction: Option<Decimal>,
}

spec fn amount_slot(v: Option<Decimal>) -> Option<Reading> {
    match v {
        Some(d) => Some(Reading::Amount(d)),
        None => None,
    }
}

spec fn count_slot(v: Option<u64>) -> Option<Reading> {
    match v {
        Some(n) => Some(Reading::Count(n)),
        None => None,
    }
}

/// The slot of field `f`.
spec fn slot(r: Readings, f: Field) -> Option<Reading> {
    match f {
        Field::Temperature => amount_slot(r.temperature),
        Field::ApparentTemp => amount_slot(r.apparent_temperature),
        Field::Humidity => count_slot(r.humidity),
        Field::IsDay => count_slot(r.is_day),
        Field::Precipitation(p) => match p {
            PrecipitationTypes::Combined => amount_slot(r.combined),
            PrecipitationTypes::Rain => amount_slot(r.rain),
            PrecipitationTypes::Showers => amount_slot(r.showers),
            PrecipitationTypes::Snowfall => amount_slot(r.snowfall),
        },
        Field::PrecipitationProbability => count_slot(r.probability),
        Field::WeatherCode => count_slot(r.weather_code),
        Field::WindSpeed => amount_slot(r.wind_speed),
        Field::WindDirection => amount_slot(r.wind_direction),
    }
}

/// Puts a reading of the kind `f` expects into the slot of `f`.
fn store(vals: &mut Readings, f: Field, r: Reading)
    requires
        is_count(f) <==> r is Count,
    ensures
        forall|g: Field| #[trigger] slot(*final(vals), g) == if g == f { Some(r) } else { slot(*old(vals), g) },
{
    match (f, r) {
        (Field::Temperature, Reading::Amount(d)) => vals.temperature = Some(d),
        (Field::ApparentTemp, Reading::Amount(d)) => vals.apparent_temperature = Some(d),
        (Field::Humidity, Reading::Count(n)) => vals.humidity = Some(n),
        (Field::IsDay, Reading::Count(n)) => vals.is_day = Some(n),
        (Field::Precipitation(PrecipitationTypes::Combined), Reading::Amount(d)) => vals.combined = Some(d),
        (Field::Precipitation(PrecipitationTypes::Rain), Reading::Amount(d)) => vals.rain = Some(d),
        (Field::Precipitation(PrecipitationTypes::Showers), Reading::Amount(d)) => vals.showers = Some(d),
        (Field::Precipitation(PrecipitationTypes::Snowfall), Reading::Amount(d)) => vals.snowfall = Some(d),
        (Field::PrecipitationProbability, Reading::Count(n)) => vals.probability = Some(n),
        (Field::WeatherCode, Reading::Count(n)) => vals.weather_code = Some(n),
        (Field::WindSpeed, Reading::Amount(d)) => vals.wind_speed = Some(d),
        (Field::WindDirection, Reading::Amount(d)) => vals.wind_direction = Some(d),
        _ => {},
    }
}

spec fn row_view(row: Option<usize>) -> Option<nat> {
    match row {
        Some(i) => Some(i as nat),
        None => None,
    }
}

/// A value of the kind field `f` expects.
fn typed(v: &Json, f: Field) -> (r: Option<Reading>)
    ensures
        r == typed_reading(*v, f),
{
    if f.is_count() {
        match v.as_u64() {
            Some(n) => if (f == Field::Humidity || f == Field::PrecipitationProbability) && n > 255 {
                None
            } else {
                Some(Reading::Count(n))
            },
            None => None,
        }
    } else {
        match v.as_decimal() {
            Some(d) => Some(Reading::Amount(d)),
            None => None,
        }
    }
}

/// What a value of field `f` must be; see `kind_name`.
fn kind_str(f: Field) -> (r: &'static str)
    ensures
        r@ == kind_name(f),
{
    if f == Field::Humidity || f == Field::PrecipitationProbability {
        "a percentage"
    } else if f.is_count() {
        "an integer"
    } else {
        "a number"
    }
}

fn shape_error(name: &String, row: Option<usize>, kind: &str) -> (r: ParsingError)
    ensures
        r@ == (ErrorKind::Deserialization, shape_message(name@, row_view(row), kind@)),
{
    let mut msg = String::from_str("Failed to parse x.");
    msg.append(name.as_str());
    match row {
        Some(i) => {
            msg.append("[");
            push_digits(&mut msg, i as u64);
            msg.append("]");
        },
        None => {},
    }
    msg.append(" as ");
    msg.append(kind);
    proof {
        assert(msg@ =~= shape_message(name@, row_view(row), kind@));
    }
    ParsingError::DeseializationError(msg)
}

/// Reads one field; see `read_field`.
fn read_one(obj: &Vec<(String, Json)>, row: Option<usize>, f: Field) -> (r: Result<Reading, ParsingError>)
    ensures
        result_view(r) == read_field(obj@, row_view(row), f),
{
    let name = f.wire_name();
    let v = match get(obj, &name) {
        Some(v) => v,
        None => return Err(ParsingError::MissingField(name)),
    };
    match row {
        None => match typed(v, f) {
            Some(r) => Ok(r),
            None => Err(shape_error(&name, None, kind_str(f))),
        },
        Some(i) => match v {
            Json::Array(items) => {
                if i < items.len() {
                    match typed(&items[i], f) {
                        Some(r) => Ok(r),
                        None => Err(shape_error(&name, row, kind_str(f))),
                    }
                } else {
                    Err(shape_error(&name, row, kind_str(f)))
                }
            },
            _ => Err(shape_error(&name, None, "an array")),
        },
    }
}

/// Reads every field of `fs`, in order, stopping at the first that fails.
fn read_all(obj: &Vec<(String, Json)>, row: Option<usize>, fs: &Vec<Field>) -> (r: Result<Readings, ParsingError>)
    ensures
        match r {
            Ok(vals) => first_failure(obj@, row_view(row), fs@) is None
                && forall|g: Field| #[trigger] slot(vals, g) == requested(obj@, row_view(row), fs@, g),
            Err(e) => first_failure(obj@, row_view(row), fs@) == Some(e@),
        },
{
    let mut vals = Readings {
        temperature: None,
        apparent_temperature: None,
        humidity: None,
        is_day: None,
        combined: None,
        rain: None,
        showers: None,
        snowfall: None,
        probability: None,
        weather_code: None,
        wind_speed: None,
        wind_direction: None,
    };
    let ghost rv = row_view(row);
    let mut i: usize = 0;
    proof {
        assert(fs@.subrange(0, 0).len() == 0);
        assert forall|g: Field| #[trigger] slot(vals, g) == requested(obj@, rv, fs@.subrange(0, 0), g) by {
            assert(!fs@.subrange(0, 0).contains(g));
        }
    }
    while i < fs.len()
        invariant
            i <= fs@.len(),
            rv == row_view(row),
            first_failure(obj@, rv, fs@.subrange(0, i as int)) is None,
            forall|g: Field| #[trigger] slot(vals, g) == requested(obj@, rv, fs@.subrange(0, i as int), g),
        decreases fs@.len() - i,
    {
        let f = fs[i];
        let ghost p0 = fs@.subrange(0, i as int);
        let ghost p1 = fs@.subrange(0, i + 1);
        proof {
            assert(p1.drop_last() =~= p0);
            assert(p1.last() == f);
        }
        match read_one(obj, row, f) {
            Err(e) => {
                proof {
                    lemma_failure_extends(obj@, rv, fs@, i + 1);
                }
                return Err(e);
            },
            Ok(r) => {
                let ghost before = vals;
                store(&mut vals, f, r);
                proof {
                    assert forall|g: Field| #[trigger] p1.contains(g) <==> (p0.contains(g) || g == f) by {
                        if p1.contains(g) {
                            let k = choose|k: int| 0 <= k < p1.len() && p1[k] == g;
                            if k < p0.len() {
                                assert(p0[k] == g);
                            }
                        }
                        if p0.contains(g) {
                            let k = choose|k: int| 0 <= k < p0.len() && p0[k] == g;
                            assert(p1[k] == g);
                        }
                        if g == f {
                            assert(p1[i as int] == g);
                        }
                    }
                    assert forall|g: Field| #[trigger] slot(vals, g) == requested(obj@, rv, p1, g) by {
                        if g == f {
                            assert(p1.contains(g));
                        } else {
                            assert(slot(vals, g) == slot(before, g));
                        }
                    }
                }
            },
        }
        i = i + 1;
    }
    proof {
        assert(fs@.subrange(0, fs@.len() as int) =~= fs@);
    }
    Ok(vals)
}

fn byte_of(v: Option<u64>) -> (r: Option<u8>)
    ensures
        r == byte_value(count_slot(v)),
{
    match v {
        Some(n) => if n <= 255 {
            Some(n as u8)
        } else {
            None
        },
        None => None,
    }
}

/// The record of one time point from its readings.
fn record_from(units: Units, coordinates: Coordinates, time: Timestamp, vals: &Readings) -> (r: HourlyWeather)
    ensures
        r == short_record(
            units,
            coordinates,
            time,
            amount(slot(*vals, Field::Temperature)),
            amount(slot(*vals, Field::ApparentTemp)),
            byte_value(slot(*vals, Field::Humidity)),
            flag(slot(*vals, Field::IsDay)),
            amount(slot(*vals, Field::Precipitation(PrecipitationTypes::Combined))),
            amount(slot(*vals, Field::Precipitation(PrecipitationTypes::Rain))),
            amount(slot(*vals, Field::Precipitation(PrecipitationTypes::Showers))),
            amount(slot(*vals, Field::Precipitation(PrecipitationTypes::Snowfall))),
            byte_value(slot(*vals, Field::PrecipitationProbability)),
            byte_value(slot(*vals, Field::WeatherCode)),
            amount(slot(*vals, Field::WindSpeed)),
            amount(slot(*vals, Field::WindDirection)),
        ),
{
    let is_day = match vals.is_day {
        Some(n) => Some(n != 0),
        None => None,
    };
    HourlyWeather::new_short(
        units,
        coordinates,
        time,
        vals.temperature,
        vals.apparent_temperature,
        byte_of(vals.humidity),
        is_day,
        vals.combined,
        vals.rain,
        vals.showers,
        vals.snowfall,
        byte_of(vals.probability),
        byte_of(vals.weather_code),
        vals.wind_speed,
        vals.wind_direction,
    )
}

/// The coordinates a response reports, or the error of the first that is missing.
pub open spec fn coordinates_outcome(response: Json) -> Result<Coordinates, ErrorView> {
    match as_decimal(member(response, "longitude"@)) {
        None => Err((ErrorKind::MissingField, "longitude"@)),
        Some(lng) => match as_decimal(member(response, "latitude"@)) {
            None => Err((ErrorKind::MissingField, "latitude"@)),
            Some(lat) => Ok(Coordinates { lng, lat }),
        },
    }
}

/// What parsing a current-weather response gives: the `current` object,
/// the coordinates, the time and the UTC offset, each a `MissingField` when
/// absent; then every requested field, in the order requested.
pub open spec fn current_outcome(response: Json, units: Units, args: Seq<Current>) -> Result<HourlyWeather, ErrorView> {
    match as_object(member(response, "current"@)) {
        None => Err((ErrorKind::MissingField, "current"@)),
        Some(cur) => match coordinates_outcome(response) {
            Err(e) => Err(e),
            Ok(coordinates) => match as_str(entry(cur, "time"@)) {
                None => Err((ErrorKind::MissingField, "current.time"@)),
                Some(text) => match as_i64(member(response, "utc_offset_seconds"@)) {
                    None => Err((ErrorKind::MissingField, "utc_offset_seconds"@)),
                    Some(offset) => match time_outcome(text, offset as int) {
                        Err(e) => Err(e),
                        Ok(time) => match first_failure(cur, None, fields_of(args)) {
                            Some(e) => Err(e),
                            None => Ok(row_record(units, coordinates, time, cur, None, fields_of(args))),
                        },
                    },
                },
            },
        },
    }
}

fn missing(name: &str) -> (r: ParsingError)
    ensures
        r@ == (ErrorKind::MissingField, name@),
{
    ParsingError::MissingField(String::from_str(name))
}

/// The reported coordinates; see `coordinates_outcome`.
fn read_coordinates(response: &Json) -> (r: Result<Coordinates, ParsingError>)
    ensures
        result_view(r) == coordinates_outcome(*response),
{
    let lng_key = String::from_str("longitude");
    let lng = match member_of(response, &lng_key) {
        Some(v) => v.as_decimal(),
        None => None,
    };
    let lng = match lng {
        Some(d) => d,
        None => return Err(missing("longitude")),
    };
    let lat_key = String::from_str("latitude");
    let lat = match member_of(response, &lat_key) {
        Some(v) => v.as_decimal(),
        None => None,
    };
    match lat {
        Some(d) => Ok(Coordinates::new(lng, d)),
        None => Err(missing("latitude")),
    }
}

/// The response's UTC offset in seconds.
fn read_offset(response: &Json) -> (r: Option<i64>)
    ensures
        r == as_i64(member(*response, "utc_offset_seconds"@)),
{
    let key = String::from_str("utc_offset_seconds");
    match member_of(response, &key) {
        Some(v) => v.as_i64(),
        None => None,
    }
}

/// Parses a current-weather response into a record, reading exactly the
/// requested fields and threading `units` into it.
pub fn parse_current(response: &Json, units: Units, arguments: &Vec<Current>) -> (r: Result<CurrentWeather, ParsingError>)
    ensures
        result_view(r) == current_outcome(*response, units, arguments@),
{
    let current_key = String::from_str("current");
    let current = match member_of(response, &current_key) {
        Some(Json::Object(entries)) => entries,
        _ => return Err(missing("current")),
    };
    let coordinates = match read_coordinates(response) {
        Ok(c) => c,
        Err(e) => return Err(e),
    };
    let time_key = String::from_str("time");
    let text = match get(current, &time_key) {
        Some(Json::Str(t)) => t,
        _ => return Err(missing("current.time")),
    };
    let offset = match read_offset(response) {
        Some(o) => o,
        None => return Err(missing("utc_offset_seconds")),
    };
    let time = match convert_date_time(text.as_str(), offset) {
        Ok(t) => t,
        Err(e) => return Err(e),
    };
    let fs = fields(arguments);
    match read_all(current, None, &fs) {
        Ok(vals) => Ok(record_from(units, coordinates, time, &vals)),
        Err(e) => Err(e),
    }
}

/// The record of row `i` of an hourly response: its time string with the
/// response's offset, then every requested field at index `i`.
pub open spec fn hour_outcome(
    hourly: Seq<(String, Json)>,
    times: Seq<Json>,
    offset: int,
    units: Units,
    coordinates: Coordinates,
    fs: Seq<Field>,
    i: nat,
) -> Result<HourlyWeather, ErrorView> {
    match as_str(times[i as int]) {
        None => Err((ErrorKind::MissingField, "time"@)),
        Some(text) => match time_outcome(text, offset) {
            Err(e) => Err(e),
            Ok(time) => match first_failure(hourly, Some(i), fs) {
                Some(e) => Err(e),
                None => Ok(row_record(units, coordinates, time, hourly, Some(i), fs)),
            },
        },
    }
}

/// The records of the first `n` rows, or the error of the first row that fails.
pub open spec fn rows_outcome(
    hourly: Seq<(String, Json)>,
    times: Seq<Json>,
    offset: int,
    units: Units,
    coordinates: Coordinates,
    fs: Seq<Field>,
    n: nat,
) -> Result<Seq<HourlyWeather>, ErrorView>
    decreases n,
{
    if n == 0 {
        Ok(Seq::empty())
    } else {
        match rows_outcome(hourly, times, offset, units, coordinates, fs, (n - 1) as nat) {
            Err(e) => Err(e),
            Ok(records) => match hour_outcome(hourly, times, offset, units, coordinates, fs, (n - 1) as nat) {
                Err(e) => Err(e),
                Ok(r) => Ok(records.push(r)),
            },
        }
    }
}

/// The number of hours a forecast yields: as many as asked for, at most as
/// many as the response has times for.
pub open spec fn hour_count(hours: u8, times: Seq<Json>) -> nat {
    if (hours as nat) < times.len() {
        hours as nat
    } else {
        times.len()
    }
}

/// The error of a requested field's array in the `hourly` object: absent
/// (`MissingField` with its wire name) or not an array.
pub open spec fn column_check(hourly: Seq<(String, Json)>, f: Field) -> Option<ErrorView> {
    match lookup(hourly, field_wire(f)) {
        None => Some((ErrorKind::MissingField, field_wire(f))),
        Some(v) => match as_array(v) {
            None => Some((ErrorKind::Deserialization, shape_message(field_wire(f), None, "an array"@))),
            Some(_) => None,
        },
    }
}

/// The error of the first field of `fs`, in order, whose array is absent or
/// not an array.
pub open spec fn columns_failure(hourly: Seq<(String, Json)>, fs: Seq<Field>) -> Option<ErrorView>
    decreases fs.len(),
{
    if fs.len() == 0 {
        None
    } else {
        match columns_failure(hourly, fs.drop_last()) {
            Some(e) => Some(e),
            None => column_check(hourly, fs.last()),
        }
    }
}

proof fn lemma_columns_failure_extends(hourly: Seq<(String, Json)>, fs: Seq<Field>, n: int)
    requires
        0 <= n <= fs.len(),
        columns_failure(hourly, fs.subrange(0, n)) is Some,
    ensures
        columns_failure(hourly, fs) == columns_failure(hourly, fs.subrange(0, n)),
    decreases fs.len() - n,
{
    if n < fs.len() {
        assert(fs.subrange(0, n + 1).drop_last() =~= fs.subrange(0, n));
        lemma_columns_failure_extends(hourly, fs, n + 1);
    } else {
        assert(fs.subrange(0, n) =~= fs);
    }
}

/// Checks, in order, that every field of `fs` has an array; see `columns_failure`.
fn check_columns(hourly: &Vec<(String, Json)>, fs: &Vec<Field>) -> (r: Result<(), ParsingError>)
    ensures
        match r {
            Ok(_) => columns_failure(hourly@, fs@) is None,
            Err(e) => columns_failure(hourly@, fs@) == Some(e@),
        },
{
    let mut i: usize = 0;
    while i < fs.len()
        invariant
            i <= fs@.len(),
            columns_failure(hourly@, fs@.subrange(0, i as int)) is None,
        decreases fs@.len() - i,
    {
        let f = fs[i];
        proof {
            assert(fs@.subrange(0, i + 1).drop_last() =~= fs@.subrange(0, i as int));
        }
        let name = f.wire_name();
        match get(hourly, &name) {
            None => {
                proof {
                    lemma_columns_failure_extends(hourly@, fs@, i + 1);
                }
                return Err(ParsingError::MissingField(name));
            },
            Some(Json::Array(_)) => {},
            Some(_) => {
                let e = shape_error(&name, None, "an array");
                proof {
                    lemma_columns_failure_extends(hourly@, fs@, i + 1);
                }
                return Err(e);
            },
        }
        i = i + 1;
    }
    proof {
        assert(fs@.subrange(0, fs@.len() as int) =~= fs@);
    }
    Ok(())
}

/// What parsing an hourly response gives: the coordinates, the UTC offset,
/// the `hourly` object and its `time` array, each a `MissingField` when
/// absent; then the array of every requested field, in order, which must
/// be present (else `MissingField`) and an array; then one record for each
/// of the first `hours` times, in order, its readings taken at the same
/// index of each requested field's array.
pub open spec fn hourly_outcome(response: Json, units: Units, args: Seq<Hourly>, hours: u8) -> Result<Seq<HourlyWeather>, ErrorView> {
    match coordinates_outcome(response) {
        Err(e) => Err(e),
        Ok(coordinates) => match as_i64(member(response, "utc_offset_seconds"@)) {
            None => Err((ErrorKind::MissingField, "utc_offset_seconds"@)),
            Some(offset) => match as_object(member(response, "hourly"@)) {
                None => Err((ErrorKind::MissingField, "hourly"@)),
                Some(hourly) => match as_array(entry(hourly, "time"@)) {
                    None => Err((ErrorKind::MissingField, "time"@)),
                    Some(times) => match columns_failure(hourly, fields_of(args)) {
                        Some(e) => Err(e),
                        None => rows_outcome(
                            hourly,
                            times,
                            offset as int,
                            units,
                            coordinates,
                            fields_of(args),
                            hour_count(hours, times),
                        ),
                    },
                },
            },
        },
    }
}

/// Once the first `k` rows fail, the first `n >= k` fail with the same error.
proof fn lemma_rows_failure_extends(
    hourly: Seq<(String, Json)>,
    times: Seq<Json>,
    offset: int,
    units: Units,
    coordinates: Coordinates,
    fs: Seq<Field>,
    k: nat,
    n: nat,
)
    requires
        k <= n,
        rows_outcome(hourly, times, offset, units, coordinates, fs, k) is Err,
    ensures
        rows_outcome(hourly, times, offset, units, coordinates, fs, n)
            == rows_outcome(hourly, times, offset, units, coordinates, fs, k),
    decreases n - k,
{
    if k < n {
        lemma_rows_failure_extends(hourly, times, offset, units, coordinates, fs, k, (n - 1) as nat);
    }
}

/// The record of row `i`; see `hour_outcome`.
fn parse_row(
    hourly: &Vec<(String, Json)>,
    times: &Vec<Json>,
    offset: i64,
    units: Units,
    coordinates: Coordinates,
    fs: &Vec<Field>,
    i: usize,
) -> (r: Result<HourlyWeather, ParsingError>)
    requires
        i < times@.len(),
    ensures
        result_view(r) == hour_outcome(hourly@, times@, offset as int, units, coordinates, fs@, i as nat),
{
    let text = match &times[i] {
        Json::Str(t) => t,
        _ => return Err(missing("time")),
    };
    let time = match convert_date_time(text.as_str(), offset) {
        Ok(t) => t,
        Err(e) => return Err(e),
    };
    match read_all(hourly, Some(i), fs) {
        Ok(vals) => Ok(record_from(units, coordinates, time, &vals)),
        Err(e) => Err(e),
    }
}

/// Parses an hourly response into `forecast_hours` records (fewer when the
/// response has fewer times), reading exactly the requested fields, the
/// arrays of all fields kept in step by index.
pub fn parse_hourly(response: &Json, units: Units, arguments: &Vec<Hourly>, forecast_hours: u8) -> (r: Result<Vec<HourlyWeather>, ParsingError>)
    ensures
        match r {
            Ok(records) => hourly_outcome(*response, units, arguments@, forecast_hours) == Ok::<Seq<HourlyWeather>, ErrorView>(records@),
            Err(e) => hourly_outcome(*response, units, arguments@, forecast_hours) == Err::<Seq<HourlyWeather>, ErrorView>(e@),
        },
{
    let coordinates = match read_coordinates(response) {
        Ok(c) => c,
        Err(e) => return Err(e),
    };
    let offset = match read_offset(response) {
        Some(o) => o,
        None => return Err(missing("utc_offset_seconds")),
    };
    let hourly_key = String::from_str("hourly");
    let hourly = match member_of(response, &hourly_key) {
        Some(Json::Object(entries)) => entries,
        _ => return Err(missing("hourly")),
    };
    let time_key = String::from_str("time");
    let times = match get(hourly, &time_key) {
        Some(Json::Array(items)) => items,
        _ => return Err(missing("time")),
    };
    let fs = fields(arguments);
    match check_columns(hourly, &fs) {
        Ok(_) => {},
        Err(e) => return Err(e),
    }
    let n: usize = if (forecast_hours as usize) < times.len() { forecast_hours as usize } else { times.len() };
    let ghost fsv = fields_of(arguments@);
    let mut records: Vec<HourlyWeather> = Vec::new();
    let mut i: usize = 0;
    while i < n
        invariant
            n <= times@.len(),
            n as nat == hour_count(forecast_hours, times@),
            hourly_outcome(*response, units, arguments@, forecast_hours)
                == rows_outcome(hourly@, times@, offset as int, units, coordinates, fsv, n as nat),
            i <= n,
            fs@ == fsv,
            rows_outcome(hourly@, times@, offset as int, units, coordinates, fsv, i as nat)
                == Ok::<Seq<HourlyWeather>, ErrorView>(records@),
        decreases n - i,
    {
        match parse_row(hourly, times, offset, units, coordinates, &fs, i) {
            Ok(rec) => {
                records.push(rec);
            },
            Err(e) => {
                proof {
                    assert(rows_outcome(hourly@, times@, offset as int, units, coordinates, fsv, (i + 1) as nat)
                        == Err::<Seq<HourlyWeather>, ErrorView>(e@));
                    lemma_rows_failure_extends(hourly@, times@, offset as int, units, coordinates, fsv, (i + 1) as nat, n as nat);
                    assert(rows_outcome(hourly@, times@, offset as int, units, coordinates, fsv, n as nat)
                        == Err::<Seq<HourlyWeather>, ErrorView>(e@));
                }
                return Err(e);
            },
        }
        i = i + 1;
    }
    Ok(records)
}

/// When field `f` fails to read and every other field of `fs` reads, the
/// list fails exactly when it holds `f`, with `f`'s error.
proof fn lemma_only_failure(obj: Seq<(String, Json)>, row: Option<nat>, fs: Seq<Field>, f: Field)
    requires
        read_field(obj, row, f) is Err,
        forall|k: int| 0 <= k < fs.len() && fs[k] != f ==> #[trigger] read_field(obj, row, fs[k]) is Ok,
    ensures
        first_failure(obj, row, fs) == (if fs.contains(f) {
            Some(read_field(obj, row, f)->Err_0)
        } else {
            None::<ErrorView>
        }),
    decreases fs.len(),
{
    if fs.len() > 0 {
        let init = fs.drop_last();
        assert forall|k: int| 0 <= k < init.len() && init[k] != f implies #[trigger] read_field(obj, row, init[k]) is Ok by {
            assert(init[k] == fs[k]);
        }
        lemma_only_failure(obj, row, init, f);
        assert(fs.contains(f) <==> (init.contains(f) || fs.last() == f)) by {
            if fs.contains(f) {
                let k = choose|k: int| 0 <= k < fs.len() && fs[k] == f;
                if k < init.len() {
                    assert(init[k] == f);
                }
            }
            if init.contains(f) {
                let k = choose|k: int| 0 <= k < init.len() && init[k] == f;
                assert(fs[k] == f);
            }
        }
        if fs.last() != f {
            assert(read_field(obj, row, fs[fs.len() - 1]) is Ok);
        }
    }
}

/// The parts of a current-weather response besides its fields: the
/// `current` object, coordinates, time and offset all read.
pub open spec fn current_frame_ok(response: Json) -> bool {
    &&& as_object(member(response, "current"@)) is Some
    &&& coordinates_outcome(response) is Ok
    &&& as_str(entry(as_object(member(response, "current"@))->Some_0, "time"@)) is Some
    &&& as_i64(member(response, "utc_offset_seconds"@)) is Some
    &&& time_outcome(
        as_str(entry(as_object(member(response, "current"@))->Some_0, "time"@))->Some_0,
        as_i64(member(response, "utc_offset_seconds"@))->Some_0 as int,
    ) is Ok
}

/// A requested field that the `current` object lacks makes the parse fail
/// with `MissingField` naming exactly that field, whatever else the
/// response holds, when the other requested fields read.
pub proof fn lemma_missing_field_named(response: Json, units: Units, args: Seq<Current>, missing: Current)
    requires
        args.contains(missing),
        current_frame_ok(response),
        lookup(as_object(member(response, "current"@))->Some_0, field_wire(current_field(missing))) is None,
        forall|a: Current|
            #![trigger args.contains(a)]
            args.contains(a) && a != missing ==> read_field(
                as_object(member(response, "current"@))->Some_0,
                None,
                current_field(a),
            ) is Ok,
    ensures
        current_outcome(response, units, args) == Err::<HourlyWeather, ErrorView>(
            (ErrorKind::MissingField, field_wire(current_field(missing))),
        ),
{
    let cur = as_object(member(response, "current"@))->Some_0;
    let fs = fields_of(args);
    let f = current_field(missing);
    assert forall|k: int| 0 <= k < fs.len() && fs[k] != f implies #[trigger] read_field(cur, None, fs[k]) is Ok by {
        assert(fs[k] == current_field(args[k]));
        assert(args.contains(args[k]));
    }
    let j = choose|j: int| 0 <= j < args.len() && args[j] == missing;
    assert(fs[j] == f);
    lemma_only_failure(cur, None, fs, f);
}

/// Two objects that agree on every key but `key`.
pub open spec fn agree_except(a: Seq<(String, Json)>, b: Seq<(String, Json)>, key: Seq<char>) -> bool {
    forall|k: Seq<char>| k != key ==> #[trigger] lookup(a, k) == lookup(b, k)
}

/// Fields whose wire names differ from `key` read alike from objects that
/// agree except on `key`.
proof fn lemma_failure_agrees(
    a: Seq<(String, Json)>,
    b: Seq<(String, Json)>,
    key: Seq<char>,
    row: Option<nat>,
    fs: Seq<Field>,
)
    requires
        agree_except(a, b, key),
        forall|k: int| 0 <= k < fs.len() ==> field_wire(#[trigger] fs[k]) != key,
    ensures
        first_failure(a, row, fs) == first_failure(b, row, fs),
        forall|f: Field| #[trigger] requested(a, row, fs, f) == requested(b, row, fs, f),
    decreases fs.len(),
{
    if fs.len() > 0 {
        let init = fs.drop_last();
        assert forall|k: int| 0 <= k < init.len() implies field_wire(#[trigger] init[k]) != key by {
            assert(init[k] == fs[k]);
        }
        lemma_failure_agrees(a, b, key, row, init);
        assert(lookup(a, field_wire(fs.last())) == lookup(b, field_wire(fs.last())));
    }
    assert forall|f: Field| #[trigger] requested(a, row, fs, f) == requested(b, row, fs, f) by {
        if fs.contains(f) {
            let k = choose|k: int| 0 <= k < fs.len() && fs[k] == f;
            assert(field_wire(fs[k]) != key);
            assert(lookup(a, field_wire(f)) == lookup(b, field_wire(f)));
        }
    }
}

/// The parser never looks at a key of the `current` object that no
/// requested field is named by (other than `time`): two responses that
/// differ only under that key (its value changed, added or removed) parse
/// to the same outcome.
pub proof fn lemma_unrequested_field_ignored(r1: Json, r2: Json, units: Units, args: Seq<Current>, key: Seq<char>)
    requires
        key != "time"@,
        forall|a: Current| #[trigger] args.contains(a) ==> field_wire(current_field(a)) != key,
        forall|k: Seq<char>| k != "current"@ ==> #[trigger] member(r1, k) == member(r2, k),
        as_object(member(r1, "current"@)) is Some,
        as_object(member(r2, "current"@)) is Some,
        agree_except(
            as_object(member(r1, "current"@))->Some_0,
            as_object(member(r2, "current"@))->Some_0,
            key,
        ),
    ensures
        current_outcome(r1, units, args) == current_outcome(r2, units, args),
{
    reveal_strlit("current");
    reveal_strlit("longitude");
    reveal_strlit("latitude");
    reveal_strlit("utc_offset_seconds");
    assert("current"@.len() == 7);
    assert("longitude"@.len() == 9);
    assert("latitude"@.len() == 8);
    assert("utc_offset_seconds"@.len() == 18);
    assert(member(r1, "longitude"@) == member(r2, "longitude"@));
    assert(member(r1, "latitude"@) == member(r2, "latitude"@));
    assert(member(r1, "utc_offset_seconds"@) == member(r2, "utc_offset_seconds"@));
    let c1 = as_object(member(r1, "current"@))->Some_0;
    let c2 = as_object(member(r2, "current"@))->Some_0;
    assert(lookup(c1, "time"@) == lookup(c2, "time"@));
    let fs = fields_of(args);
    assert forall|k: int| 0 <= k < fs.len() implies field_wire(#[trigger] fs[k]) != key by {
        assert(fs[k] == current_field(args[k]));
        assert(args.contains(args[k]));
    }
    lemma_failure_agrees(c1, c2, key, None, fs);
}

/// The `time` array of an hourly response (empty when there is none).
pub open spec fn hourly_times(response: Json) -> Seq<Json> {
    match as_object(member(response, "hourly"@)) {
        Some(h) => match as_array(entry(h, "time"@)) {
            Some(t) => t,
            None => Seq::empty(),
        },
        None => Seq::empty(),
    }
}

/// Successful rows: one record per row, row `i` giving record `i`.
proof fn lemma_rows_ok(
    hourly: Seq<(String, Json)>,
    times: Seq<Json>,
    offset: int,
    units: Units,
    coordinates: Coordinates,
    fs: Seq<Field>,
    n: nat,
)
    requires
        rows_outcome(hourly, times, offset, units, coordinates, fs, n) is Ok,
    ensures
        rows_outcome(hourly, times, offset, units, coordinates, fs, n)->Ok_0.len() == n,
        forall|i: int|
            0 <= i < n ==> hour_outcome(hourly, times, offset, units, coordinates, fs, i as nat)
                == Ok::<HourlyWeather, ErrorView>(
                #[trigger] rows_outcome(hourly, times, offset, units, coordinates, fs, n)->Ok_0[i],
            ),
    decreases n,
{
    if n > 0 {
        lemma_rows_ok(hourly, times, offset, units, coordinates, fs, (n - 1) as nat);
        let prev = rows_outcome(hourly, times, offset, units, coordinates, fs, (n - 1) as nat)->Ok_0;
        let all = rows_outcome(hourly, times, offset, units, coordinates, fs, n)->Ok_0;
        assert forall|i: int| 0 <= i < n implies hour_outcome(hourly, times, offset, units, coordinates, fs, i as nat)
            == Ok::<HourlyWeather, ErrorView>(#[trigger] all[i]) by {
            if i < n - 1 {
                assert(all[i] == prev[i]);
            }
        }
    }
}

/// A successful hourly parse yields one record for each of the first
/// `hours` times (all of them when there are fewer), in the order of the
/// `time` array, each stamped with its own time string at the response's
/// offset. So when those time strings are strictly increasing, so are the
/// records' timestamps.
pub proof fn lemma_hourly_records(response: Json, units: Units, args: Seq<Hourly>, hours: u8)
    requires
        hourly_outcome(response, units, args, hours) is Ok,
    ensures
        hourly_outcome(response, units, args, hours)->Ok_0.len() == hour_count(hours, hourly_times(response)),
        forall|i: int|
            0 <= i < hour_count(hours, hourly_times(response)) ==> {
                &&& #[trigger] as_str(hourly_times(response)[i]) is Some
                &&& naive_seconds_of(as_str(hourly_times(response)[i])->Some_0)
                    == Some(hourly_outcome(response, units, args, hours)->Ok_0[i].time.utc_seconds)
                &&& hourly_outcome(response, units, args, hours)->Ok_0[i].time.offset_seconds
                    == as_i64(member(response, "utc_offset_seconds"@))->Some_0
            },
        (forall|i: int, j: int|
            0 <= i < j < hour_count(hours, hourly_times(response)) ==> (
            #[trigger] naive_seconds_of(as_str(hourly_times(response)[i])->Some_0))->Some_0
                < (#[trigger] naive_seconds_of(as_str(hourly_times(response)[j])->Some_0))->Some_0)
            ==> (forall|i: int, j: int|
            0 <= i < j < hour_count(hours, hourly_times(response)) ==> wall_clock(
                #[trigger] hourly_outcome(response, units, args, hours)->Ok_0[i].time,
            ) < wall_clock(#[trigger] hourly_outcome(response, units, args, hours)->Ok_0[j].time)),
{
    let coordinates = coordinates_outcome(response)->Ok_0;
    let offset = as_i64(member(response, "utc_offset_seconds"@))->Some_0;
    let hourly = as_object(member(response, "hourly"@))->Some_0;
    let times = as_array(entry(hourly, "time"@))->Some_0;
    let fs = fields_of(args);
    let n = hour_count(hours, times);
    lemma_rows_ok(hourly, times, offset as int, units, coordinates, fs, n);
    let s = hourly_outcome(response, units, args, hours)->Ok_0;
    assert forall|i: int| 0 <= i < n implies {
        &&& #[trigger] as_str(times[i]) is Some
        &&& naive_seconds_of(as_str(times[i])->Some_0) == Some(s[i].time.utc_seconds)
        &&& s[i].time.offset_seconds == offset
    } by {
        assert(hour_outcome(hourly, times, offset as int, units, coordinates, fs, i as nat) == Ok::<HourlyWeather, ErrorView>(s[i]));
    }
}

/// The coordinates an IP geolocation lookup answered with; a
/// `LocationError` when either of them is missing.
pub fn coordinates_from_lookup(longitude: Option<Decimal>, latitude: Option<Decimal>) -> (r: Result<Coordinates, ParsingError>)
    ensures
        match (longitude, latitude) {
            (Some(lng), Some(lat)) => r == Ok::<Coordinates, ParsingError>(Coordinates { lng, lat }),
            _ => r matches Err(e) && e@ == (ErrorKind::Location, "Coordinates missing from perform_lookup answer"@),
        },
{
    match (longitude, latitude) {
        (Some(lng), Some(lat)) => Ok(Coordinates::new(lng, lat)),
        _ => Err(ParsingError::LocationError(String::from_str("Coordinates missing from perform_lookup answer"))),
    }
}

/// When field `f` has no array and every other field of `fs` has one, the
/// column check fails exactly when `fs` holds `f`, with `f`'s error.
proof fn lemma_only_column_failure(hourly: Seq<(String, Json)>, fs: Seq<Field>, f: Field)
    requires
        column_check(hourly, f) is Some,
        forall|k: int| 0 <= k < fs.len() && fs[k] != f ==> #[trigger] column_check(hourly, fs[k]) is None,
    ensures
        columns_failure(hourly, fs) == (if fs.contains(f) {
            column_check(hourly, f)
        } else {
            None::<ErrorView>
        }),
    decreases fs.len(),
{
    if fs.len() > 0 {
        let init = fs.drop_last();
        assert forall|k: int| 0 <= k < init.len() && init[k] != f implies #[trigger] column_check(hourly, init[k]) is None by {
            assert(init[k] == fs[k]);
        }
        lemma_only_column_failure(hourly, init, f);
        assert(fs.contains(f) <==> (init.contains(f) || fs.last() == f)) by {
            if fs.contains(f) {
                let k = choose|k: int| 0 <= k < fs.len() && fs[k] == f;
                if k < init.len() {
                    assert(init[k] == f);
                }
            }
            if init.contains(f) {
                let k = choose|k: int| 0 <= k < init.len() && init[k] == f;
                assert(fs[k] == f);
            }
        }
        if fs.last() != f {
            assert(column_check(hourly, fs[fs.len() - 1]) is None);
        }
    }
}

/// A requested field whose array the `hourly` object lacks makes the parse
/// fail with `MissingField` naming exactly that field, for any number of
/// hours and any `time` array, when the other requested fields have arrays.
pub proof fn lemma_missing_column_named(response: Json, units: Units, args: Seq<Hourly>, hours: u8, missing: Hourly)
    requires
        args.contains(missing),
        coordinates_outcome(response) is Ok,
        as_i64(member(response, "utc_offset_seconds"@)) is Some,
        as_object(member(response, "hourly"@)) is Some,
        as_array(entry(as_object(member(response, "hourly"@))->Some_0, "time"@)) is Some,
        lookup(as_object(member(response, "hourly"@))->Some_0, field_wire(hourly_field(missing))) is None,
        forall|a: Hourly|
            #![trigger args.contains(a)]
            args.contains(a) && a != missing ==> column_check(
                as_object(member(response, "hourly"@))->Some_0,
                hourly_field(a),
            ) is None,
    ensures
        hourly_outcome(response, units, args, hours) == Err::<Seq<HourlyWeather>, ErrorView>(
            (ErrorKind::MissingField, field_wire(hourly_field(missing))),
        ),
{
    let hourly = as_object(member(response, "hourly"@))->Some_0;
    let fs = fields_of(args);
    let f = hourly_field(missing);
    assert forall|k: int| 0 <= k < fs.len() && fs[k] != f implies #[trigger] column_check(hourly, fs[k]) is None by {
        assert(fs[k] == hourly_field(args[k]));
        assert(args.contains(args[k]));
    }
    let j = choose|j: int| 0 <= j < args.len() && args[j] == missing;
    assert(fs[j] == f);
    lemma_only_column_failure(hourly, fs, f);
}

} // verus!
