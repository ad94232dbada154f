//! The forecast request: a builder of its options and the query string it
//! stands for.

use vstd::prelude::*;
use crate::arguments::{fields, fields_of, field_wire, Current, Field, Hourly};
use crate::decimal::{decimal_text, nat_digits, push_digits};
use crate::measurements::{length_name, speed_wire, temp_wire, Coordinates, Length, Speed, TempUnit, Units};

verus! {

/// The most forecast days the provider serves.
pub const MAX_FORECAST_DAYS: u8 = 16;

/// Options of a forecast request. Without units the provider's defaults
/// apply (km/h, Celsius, mm); without a time zone, `auto`, the zone of the
/// coordinates; without forecast days, the provider's default horizon.
#[derive(Debug)]
pub struct OpenMeteo {
    pub coordinates: Coordinates,
    pub current: Vec<Current>,
    pub hourly: Vec<Hourly>,
    pub units: Option<Units>,
    pub forecast_days: Option<u8>,
    pub timezone: Option<String>,
}

/// A character that a query value carries as it is: an ASCII letter or
/// digit, `-`, `_`, `.` or `~`.
pub open spec fn is_unreserved(c: char) -> bool {
    ('a' <= c && c <= 'z') || ('A' <= c && c <= 'Z') || ('0' <= c && c <= '9') || c == '-' || c == '_'
        || c == '.' || c == '~'
}

/// The UTF-8 encoding of a character.
pub open spec fn utf8_of(c: char) -> Seq<u8> {
    let n = c as u32;
    if n < 0x80 {
        seq![n as u8]
    } else if n < 0x800 {
        seq![(0xC0 + n / 64) as u8, (0x80 + n % 64) as u8]
    } else if n < 0x10000 {
        seq![(0xE0 + n / 4096) as u8, (0x80 + (n / 64) % 64) as u8, (0x80 + n % 64) as u8]
    } else {
        seq![
            (0xF0 + n / 262144) as u8,
            (0x80 + (n / 4096) % 64) as u8,
            (0x80 + (n / 64) % 64) as u8,
            (0x80 + n % 64) as u8,
        ]
    }
}

/// Upper-case hexadecimal digit.
pub open spec fn hex_digit(d: nat) -> char {
    if d < 10 {
        ('0' as u32 + d) as char
    } else {
        ('A' as u32 + (d - 10)) as char
    }
}

/// Each byte written as `%XX`.
pub open spec fn percent_bytes(bs: Seq<u8>) -> Seq<char>
    decreases bs.len(),
{
    if bs.len() == 0 {
        Seq::empty()
    } else {
        percent_bytes(bs.drop_last()) + seq!['%', hex_digit(bs.last() as nat / 16), hex_digit(bs.last() as nat % 16)]
    }
}

/// `s` percent-encoded: unreserved characters as they are, every other
/// character as the `%XX` of each byte of its UTF-8 encoding.
pub open spec fn percent_encode(s: Seq<char>) -> Seq<char>
    decreases s.len(),
{
    if s.len() == 0 {
        Seq::empty()
    } else {
        percent_encode(s.drop_last()) + (if is_unreserved(s.last()) {
            seq![s.last()]
        } else {
            percent_bytes(utf8_of(s.last()))
        })
    }
}

/// The time zone parameter's value: the zone percent-encoded, or `auto`.
pub open spec fn timezone_text(tz: Option<String>) -> Seq<char> {
    match tz {
        Some(t) => percent_encode(t@),
        None => "auto"@,
    }
}

/// The forecast days parameter, if set.
pub open spec fn days_text(days: Option<u8>) -> Seq<char> {
    match days {
        Some(n) => "&forecast_days="@ + nat_digits(n as nat),
        None => Seq::empty(),
    }
}

/// The wire names of `fs`, each preceded by a comma.
pub open spec fn joined_wires(fs: Seq<Field>) -> Seq<char>
    decreases fs.len(),
{
    if fs.len() == 0 {
        Seq::empty()
    } else {
        joined_wires(fs.drop_last()) + ","@ + field_wire(fs.last())
    }
}

/// A field list parameter, absent when the list is empty.
pub open spec fn list_text(name: Seq<char>, fs: Seq<Field>) -> Seq<char> {
    if fs.len() == 0 {
        Seq::empty()
    } else {
        name + joined_wires(fs)
    }
}

/// The unit parameters: each only where the unit is not the provider's default.
pub open spec fn units_text(units: Option<Units>) -> Seq<char> {
    match units {
        None => Seq::empty(),
        Some(u) => (if u.speed != Speed::Kmh {
            "&wind_speed_unit="@ + speed_wire(u.speed)
        } else {
            Seq::empty()
        }) + (if u.temperature == TempUnit::Fahrenheit {
            "&temperature_unit="@ + temp_wire(u.temperature)
        } else {
            Seq::empty()
        }) + (if u.length == Length::Inch {
            "&precipitation_unit="@ + length_name(u.length)
        } else {
            Seq::empty()
        }),
    }
}

/// The query string of a request.
pub open spec fn query_text(q: OpenMeteo) -> Seq<char> {
    "latitude="@ + decimal_text(q.coordinates.lat) + "&longitude="@ + decimal_text(q.coordinates.lng)
        + "&timezone="@ + timezone_text(q.timezone) + days_text(q.forecast_days) + list_text(
        "&current="@,
        fields_of(q.current@),
    ) + list_text("&hourly="@, fields_of(q.hourly@)) + units_text(q.units)
}

/// Appends `&name=` and the comma-led wire names of `fs`, unless `fs` is empty.
fn push_list(out: &mut String, name: &str, fs: &Vec<Field>)
    ensures
        final(out)@ == old(out)@ + list_text(name@, fs@),
{
    if fs.len() == 0 {
        proof {
            assert(final(out)@ =~= old(out)@ + list_text(name@, fs@));
        }
        return;
    }
    out.append(name);
    let ghost start = out@;
    let mut i: usize = 0;
    proof {
        assert(out@ =~= start + joined_wires(fs@.subrange(0, 0)));
    }
    while i < fs.len()
        invariant
            i <= fs@.len(),
            out@ == start + joined_wires(fs@.subrange(0, i as int)),
        decreases fs@.len() - i,
    {
        out.append(",");
        let w = fs[i].wire_name();
        out.append(w.as_str());
        proof {
            assert(fs@.subrange(0, i + 1).drop_last() =~= fs@.subrange(0, i as int));
            assert(out@ =~= start + joined_wires(fs@.subrange(0, i + 1)));
        }
        i = i + 1;
    }
    proof {
        assert(fs@.subrange(0, fs@.len() as int) =~= fs@);
        assert(final(out)@ =~= old(out)@ + list_text(name@, fs@));
    }
}

fn hex_str(d: u8) -> (r: &'static str)
    requires
        d < 16,
    ensures
        r@ == seq![hex_digit(d as nat)],
{
    proof {
        reveal_strlit("0");
        reveal_strlit("1");
        reveal_strlit("2");
        reveal_strlit("3");
        reveal_strlit("4");
        reveal_strlit("5");
        reveal_strlit("6");
        reveal_strlit("7");
        reveal_strlit("8");
        reveal_strlit("9");
        reveal_strlit("A");
        reveal_strlit("B");
        reveal_strlit("C");
        reveal_strlit("D");
        reveal_strlit("E");
        reveal_strlit("F");
    }
    if d == 0 {
        "0"
    } else if d == 1 {
        "1"
    } else if d == 2 {
        "2"
    } else if d == 3 {
        "3"
    } else if d == 4 {
        "4"
    } else if d == 5 {
        "5"
    } else if d == 6 {
        "6"
    } else if d == 7 {
        "7"
    } else if d == 8 {
        "8"
    } else if d == 9 {
        "9"
    } else if d == 10 {
        "A"
    } else if d == 11 {
        "B"
    } else if d == 12 {
        "C"
    } else if d == 13 {
        "D"
    } else if d == 14 {
        "E"
    } else {
        "F"
    }
}

/// Appends `%XX` for one byte.
fn push_percent_byte(out: &mut String, b: u8)
    ensures
        final(out)@ == old(out)@ + seq!['%', hex_digit(b as nat / 16), hex_digit(b as nat % 16)],
{
    out.append("%");
    out.append(hex_str(b / 16));
    out.append(hex_str(b % 16));
    proof {
        reveal_strlit("%");
        assert(final(out)@ =~= old(out)@ + seq!['%', hex_digit(b as nat / 16), hex_digit(b as nat % 16)]);
    }
}

proof fn lemma_percent_bytes_push(bs: Seq<u8>, b: u8)
    ensures
        percent_bytes(bs.push(b)) == percent_bytes(bs) + seq!['%', hex_digit(b as nat / 16), hex_digit(b as nat % 16)],
{
    assert(bs.push(b).drop_last() =~= bs);
}

/// Appends the `%XX` of each UTF-8 byte of `c`.
fn push_percent_char(out: &mut String, c: char)
    ensures
        final(out)@ == old(out)@ + percent_bytes(utf8_of(c)),
{
    let n = c as u32;
    let bytes: Vec<u8> = if n < 0x80 {
        vec![n as u8]
    } else if n < 0x800 {
        vec![(0xC0 + n / 64) as u8, (0x80 + n % 64) as u8]
    } else if n < 0x10000 {
        vec![(0xE0 + n / 4096) as u8, (0x80 + (n / 64) % 64) as u8, (0x80 + n % 64) as u8]
    } else {
        vec![
            (0xF0 + n / 262144) as u8,
            (0x80 + (n / 4096) % 64) as u8,
            (0x80 + (n / 64) % 64) as u8,
            (0x80 + n % 64) as u8,
        ]
    };
    assert(bytes@ =~= utf8_of(c));
    let mut i: usize = 0;
    proof {
        assert(bytes@.subrange(0, 0) =~= Seq::<u8>::empty());
        assert(out@ =~= old(out)@ + percent_bytes(bytes@.subrange(0, 0)));
    }
    while i < bytes.len()
        invariant
            i <= bytes@.len(),
            out@ == old(out)@ + percent_bytes(bytes@.subrange(0, i as int)),
        decreases bytes@.len() - i,
    {
        let b = bytes[i];
        push_percent_byte(out, b);
        proof {
            assert(bytes@.subrange(0, i + 1) =~= bytes@.subrange(0, i as int).push(b));
            lemma_percent_bytes_push(bytes@.subrange(0, i as int), b);
            assert(out@ =~= old(out)@ + percent_bytes(bytes@.subrange(0, i + 1)));
        }
        i = i + 1;
    }
    proof {
        assert(bytes@.subrange(0, bytes@.len() as int) =~= bytes@);
    }
}

fn is_unreserved_char(c: char) -> (r: bool)
    ensures
        r == is_unreserved(c),
{
    ('a' <= c && c <= 'z') || ('A' <= c && c <= 'Z') || ('0' <= c && c <= '9') || c == '-' || c == '_'
        || c == '.' || c == '~'
}

/// Appends `tz` percent-encoded.
fn push_encoded(out: &mut String, tz: &str)
    ensures
        final(out)@ == old(out)@ + percent_encode(tz@),
{
    let n = tz.unicode_len();
    let mut i: usize = 0;
    proof {
        assert(out@ =~= old(out)@ + percent_encode(tz@.subrange(0, 0)));
    }
    while i < n
        invariant
            n == tz@.len(),
            i <= n,
            out@ == old(out)@ + percent_encode(tz@.subrange(0, i as int)),
        decreases n - i,
    {
        let c = tz.get_char(i);
        let ghost before = out@;
        if is_unreserved_char(c) {
            out.append(tz.substring_char(i, i + 1));
            proof {
                assert(tz@.subrange(i as int, i + 1) =~= seq![c]);
            }
        } else {
            push_percent_char(out, c);
        }
        proof {
            let p1 = tz@.subrange(0, i + 1);
            assert(p1.drop_last() =~= tz@.subrange(0, i as int));
            assert(p1.last() == c);
            assert(out@ =~= old(out)@ + percent_encode(p1));
        }
        i = i + 1;
    }
    proof {
        assert(tz@.subrange(0, n as int) =~= tz@);
    }
}

impl OpenMeteo {
    /// A request for `coordinates` with no fields and no options set.
    pub fn new(coordinates: Coordinates) -> (r: Self)
        ensures
            r.coordinates == coordinates,
            r.current@ == Seq::<Current>::empty(),
            r.hourly@ == Seq::<Hourly>::empty(),
            r.units is None,
            r.forecast_days is None,
            r.timezone is None,
    {
        OpenMeteo {
            coordinates,
            current: Vec::new(),
            hourly: Vec::new(),
            units: None,
            forecast_days: None,
            timezone: None,
        }
    }

    /// Adds current-weather fields after those already requested.
    pub fn current(self, args: Vec<Current>) -> (r: Self)
        ensures
            r.current@ == self.current@ + args@,
            r.coordinates == self.coordinates,
            r.hourly@ == self.hourly@,
            r.units == self.units,
            r.forecast_days == self.forecast_days,
            r.timezone == self.timezone,
    {
        let mut s = self;
        let mut args = args;
        s.current.append(&mut args);
        s
    }

    /// Adds hourly fields after those already requested.
    pub fn hourly(self, args: Vec<Hourly>) -> (r: Self)
        ensures
            r.hourly@ == self.hourly@ + args@,
            r.coordinates == self.coordinates,
            r.current@ == self.current@,
            r.units == self.units,
            r.forecast_days == self.forecast_days,
            r.timezone == self.timezone,
    {
        let mut s = self;
        let mut args = args;
        s.hourly.append(&mut args);
        s
    }

    pub fn units(self, units: Units) -> (r: Self)
        ensures
            r.units == Some(units),
            r.coordinates == self.coordinates,
            r.current@ == self.current@,
            r.hourly@ == self.hourly@,
            r.forecast_days == self.forecast_days,
            r.timezone == self.timezone,
    {
        let mut s = self;
        s.units = Some(units);
        s
    }

    /// Sets the forecast horizon in days, at most `MAX_FORECAST_DAYS`.
    pub fn forecast_days(self, days: u8) -> (r: Self)
        ensures
            r.forecast_days == Some(if days < MAX_FORECAST_DAYS { days } else { MAX_FORECAST_DAYS }),
            r.coordinates == self.coordinates,
            r.current@ == self.current@,
            r.hourly@ == self.hourly@,
            r.units == self.units,
            r.timezone == self.timezone,
    {
        let mut s = self;
        s.forecast_days = Some(if days < MAX_FORECAST_DAYS { days } else { MAX_FORECAST_DAYS });
        s
    }

    pub fn timezone(self, timezone: &str) -> (r: Self)
        ensures
            r.timezone matches Some(t) && t@ == timezone@,
            r.coordinates == self.coordinates,
            r.current@ == self.current@,
            r.hourly@ == self.hourly@,
            r.units == self.units,
            r.forecast_days == self.forecast_days,
    {
        let mut s = self;
        s.timezone = Some(String::from_str(timezone));
        s
    }

    /// The query string of the request: coordinates, percent-encoded time zone, forecast
    /// days if set, the field lists in the order given, and a unit
    /// parameter only for a unit that is not the provider's default.
    pub fn build_url(&self) -> (r: String)
        ensures
            r@ == query_text(*self),
    {
        let mut url = String::from_str("latitude=");
        let lat = self.coordinates.lat.to_string();
        url.append(lat.as_str());
        url.append("&longitude=");
        let lng = self.coordinates.lng.to_string();
        url.append(lng.as_str());
        url.append("&timezone=");
        match &self.timezone {
            Some(tz) => push_encoded(&mut url, tz.as_str()),
            None => url.append("auto"),
        }
        let ghost head = url@;
        match self.forecast_days {
            Some(d) => {
                url.append("&forecast_days=");
                push_digits(&mut url, d as u64);
            },
            None => {},
        }
        proof {
            assert(url@ =~= head + days_text(self.forecast_days));
        }
        let current = fields(&self.current);
        push_list(&mut url, "&current=", &current);
        let hourly = fields(&self.hourly);
        push_list(&mut url, "&hourly=", &hourly);
        let ghost before_units = url@;
        match self.units {
            Some(u) => {
                if u.speed != Speed::Kmh {
                    url.append("&wind_speed_unit=");
                    let w = u.speed.to_string();
                    url.append(w.as_str());
                }
                if u.temperature == TempUnit::Fahrenheit {
                    url.append("&temperature_unit=");
                    let w = u.temperature.to_string();
                    url.append(w.as_str());
                }
                if u.length == Length::Inch {
                    url.append("&precipitation_unit=");
                    let w = u.length.to_string();
                    url.append(w.as_str());
                }
                proof {
                    assert(url@ =~= before_units + units_text(self.units));
                }
            },
            None => {
                proof {
                    assert(url@ =~= before_units + units_text(self.units));
                }
            },
        }
        proof {
            assert(url@ =~= query_text(*self));
        }
        url
    }
}

/// Units equal to the provider's defaults add nothing to the query: it is
/// the query of the same request without units.
pub proof fn lemma_default_units_omitted(q: OpenMeteo)
    requires
        q.units == Some(Units { speed: Speed::Kmh, temperature: TempUnit::Celsius, length: Length::Mm }),
    ensures
        query_text(q) == query_text(OpenMeteo { units: None, ..q }),
{
    assert(units_text(q.units) =~= Seq::<char>::empty());
    assert(query_text(q) =~= query_text(OpenMeteo { units: None, ..q }));
}

proof fn lemma_percent_bytes_charset(bs: Seq<u8>)
    ensures
        forall|i: int|
            0 <= i < percent_bytes(bs).len() ==> is_unreserved(#[trigger] percent_bytes(bs)[i])
                || percent_bytes(bs)[i] == '%',
    decreases bs.len(),
{
    if bs.len() > 0 {
        lemma_percent_bytes_charset(bs.drop_last());
        let b = bs.last() as nat;
        let hi = b / 16;
        let lo = b % 16;
        assert(is_unreserved(hex_digit(hi)));
        assert(is_unreserved(hex_digit(lo)));
        let p = percent_bytes(bs.drop_last());
        let t = seq!['%', hex_digit(hi), hex_digit(lo)];
        assert forall|i: int| 0 <= i < (p + t).len() implies is_unreserved(#[trigger] (p + t)[i]) || (p + t)[i] == '%' by {
            if i < p.len() {
                assert((p + t)[i] == p[i]);
            } else {
                assert((p + t)[i] == t[i - p.len()]);
            }
        }
    }
}

/// A percent-encoded value holds only unreserved characters and `%`: no
/// `&`, `=`, `+` or space, so a time zone cannot add or alter parameters.
pub proof fn lemma_encoded_charset(s: Seq<char>)
    ensures
        forall|i: int|
            0 <= i < percent_encode(s).len() ==> is_unreserved(#[trigger] percent_encode(s)[i])
                || percent_encode(s)[i] == '%',
    decreases s.len(),
{
    if s.len() > 0 {
        lemma_encoded_charset(s.drop_last());
        let p = percent_encode(s.drop_last());
        let t = if is_unreserved(s.last()) { seq![s.last()] } else { percent_bytes(utf8_of(s.last())) };
        lemma_percent_bytes_charset(utf8_of(s.last()));
        assert forall|i: int| 0 <= i < (p + t).len() implies is_unreserved(#[trigger] (p + t)[i]) || (p + t)[i] == '%' by {
            if i < p.len() {
                assert((p + t)[i] == p[i]);
            } else {
                assert((p + t)[i] == t[i - p.len()]);
            }
        }
    }
}

/// Setting units adds to the query exactly one parameter for each unit
/// that is not the provider's default (km/h, Celsius, mm), in the order
/// wind speed, temperature, precipitation, and changes nothing else.
pub proof fn lemma_unit_parameters(q: OpenMeteo, u: Units)
    requires
        q.units == Some(u),
    ensures
        query_text(q) == query_text(OpenMeteo { units: None, ..q }) + (if u.speed != Speed::Kmh {
            "&wind_speed_unit="@ + speed_wire(u.speed)
        } else {
            Seq::empty()
        }) + (if u.temperature != TempUnit::Celsius {
            "&temperature_unit="@ + temp_wire(u.temperature)
        } else {
            Seq::empty()
        }) + (if u.length != Length::Mm {
            "&precipitation_unit="@ + length_name(u.length)
        } else {
            Seq::empty()
        }),
{
    assert(units_text(None) =~= Seq::<char>::empty());
    let base = query_text(OpenMeteo { units: None, ..q });
    assert(query_text(q) =~= base + units_text(q.units));
}

} // verus!
