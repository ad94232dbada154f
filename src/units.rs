//! The readings of a weather record: weather condition codes, wind,
//! precipitation, temperature and humidity, each with its display text.

use vstd::prelude::*;
use vstd::arithmetic::div_mod::{
    lemma_fundamental_div_mod,
    lemma_fundamental_div_mod_converse,
    lemma_mod_multiples_vanish,
    lemma_mul_mod_noop,
};
use crate::decimal::{
    decimal_text,
    denominator,
    lemma_pow10_monotonic,
    lemma_pow10_positive,
    nat_digits,
    numerator,
    pow10,
    push_digits,
    Decimal,
};
use crate::measurements::{length_name, speed_symbol, temp_symbol, Length, Speed, TempUnit};

verus! {

/// Cloud cover over an area.
#[derive(Clone, Copy, Debug, PartialEq, Eq, Structural)]
pub enum CloudCover {
    MainlyClear,
    Partial,
    Overcast,
}

/// Intensity of a weather event with three grades.
#[derive(Clone, Copy, Debug, PartialEq, Eq, Structural)]
pub enum Intensity {
    Light,
    Moderate,
    Heavy,
}

/// Intensity of a weather event with two grades.
#[derive(Clone, Copy, Debug, PartialEq, Eq, Structural)]
pub enum SimpleIntensity {
    Light,
    Heavy,
}

/// A weather condition, as the forecast provider's numeric weather codes
/// describe it.
#[derive(Clone, Copy, Debug, PartialEq, Eq, Structural)]
pub enum WeatherCode {
    Clear,
    Cloudy(CloudCover),
    Fog { is_rime_fog: bool },
    Drizzle(Intensity),
    FreezingDrizzle(SimpleIntensity),
    Rain(Intensity),
    FreezingRain(SimpleIntensity),
    SnowFall(Intensity),
    SnowGrains,
    RainShowers(Intensity),
    SnowShowers(SimpleIntensity),
    Thunderstorm,
    ThunderstormWithHail(SimpleIntensity),
}

/// The condition that a numeric weather code stands for, if it is supported.
pub open spec fn code_condition(code: u8) -> Option<WeatherCode> {
    if code == 0 {
        Some(WeatherCode::Clear)
    } else if code == 1 {
        Some(WeatherCode::Cloudy(CloudCover::MainlyClear))
    } else if code == 2 {
        Some(WeatherCode::Cloudy(CloudCover::Partial))
    } else if code == 3 {
        Some(WeatherCode::Cloudy(CloudCover::Overcast))
    } else if code == 45 {
        Some(WeatherCode::Fog { is_rime_fog: false })
    } else if code == 48 {
        Some(WeatherCode::Fog { is_rime_fog: true })
    } else if code == 51 {
        Some(WeatherCode::Drizzle(Intensity::Light))
    } else if code == 53 {
        Some(WeatherCode::Drizzle(Intensity::Moderate))
    } else if code == 55 {
        Some(WeatherCode::Drizzle(Intensity::Heavy))
    } else if code == 56 {
        Some(WeatherCode::FreezingDrizzle(SimpleIntensity::Light))
    } else if code == 57 {
        Some(WeatherCode::FreezingDrizzle(SimpleIntensity::Heavy))
    } else if code == 61 {
        Some(WeatherCode::Rain(Intensity::Light))
    } else if code == 63 {
        Some(WeatherCode::Rain(Intensity::Moderate))
    } else if code == 65 {
        Some(WeatherCode::Rain(Intensity::Heavy))
    } else if code == 66 {
        Some(WeatherCode::FreezingRain(SimpleIntensity::Light))
    } else if code == 67 {
        Some(WeatherCode::FreezingRain(SimpleIntensity::Heavy))
    } else if code == 71 {
        Some(WeatherCode::SnowFall(Intensity::Light))
    } else if code == 73 {
        Some(WeatherCode::SnowFall(Intensity::Moderate))
    } else if code == 75 {
        Some(WeatherCode::SnowFall(Intensity::Heavy))
    } else if code == 77 {
        Some(WeatherCode::SnowGrains)
    } else if code == 80 {
        Some(WeatherCode::RainShowers(Intensity::Light))
    } else if code == 81 {
        Some(WeatherCode::RainShowers(Intensity::Moderate))
    } else if code == 82 {
        Some(WeatherCode::RainShowers(Intensity::Heavy))
    } else if code == 85 {
        Some(WeatherCode::SnowShowers(SimpleIntensity::Light))
    } else if code == 86 {
        Some(WeatherCode::SnowShowers(SimpleIntensity::Heavy))
    } else if code == 95 {
        Some(WeatherCode::Thunderstorm)
    } else if code == 96 {
        Some(WeatherCode::ThunderstormWithHail(SimpleIntensity::Light))
    } else if code == 99 {
        Some(WeatherCode::ThunderstormWithHail(SimpleIntensity::Heavy))
    } else {
        None
    }
}

/// The numeric codes that the provider documents.
pub open spec fn supported_codes() -> Set<u8> {
    set![0u8, 1, 2, 3, 45, 48, 51, 53, 55, 56, 57, 61, 63, 65, 66, 67, 71, 73, 75, 77,
        80, 81, 82, 85, 86, 95, 96, 99]
}

/// Human readable label of a condition.
pub open spec fn condition_label(w: WeatherCode) -> Seq<char> {
    match w {
        WeatherCode::Clear => "Clear sky"@,
        WeatherCode::Cloudy(c) => match c {
            CloudCover::MainlyClear => "Mainly clear"@,
            CloudCover::Partial => "Partly cloudy"@,
            CloudCover::Overcast => "Overcast"@,
        },
        WeatherCode::Fog { is_rime_fog } => if is_rime_fog { "Rime fog"@ } else { "Fog"@ },
        WeatherCode::Drizzle(i) => match i {
            Intensity::Light => "Light drizzle"@,
            Intensity::Moderate => "Moderate drizzle"@,
            Intensity::Heavy => "Dense drizzle"@,
        },
        WeatherCode::FreezingDrizzle(i) => match i {
            SimpleIntensity::Light => "Light freezing drizzle"@,
            SimpleIntensity::Heavy => "Dense freezing drizzle"@,
        },
        WeatherCode::Rain(i) => match i {
            Intensity::Light => "Light rain"@,
            Intensity::Moderate => "Moderate rain"@,
            Intensity::Heavy => "Heavy rain"@,
        },
        WeatherCode::FreezingRain(i) => match i {
            SimpleIntensity::Light => "Light freezing rain"@,
            SimpleIntensity::Heavy => "Heavy freezing rain"@,
        },
        WeatherCode::SnowFall(i) => match i {
            Intensity::Light => "Light snowfall"@,
            Intensity::Moderate => "Moderate snowfall"@,
            Intensity::Heavy => "Heavy snowfall"@,
        },
        WeatherCode::SnowGrains => "Snow grains"@,
        WeatherCode::RainShowers(i) => match i {
            Intensity::Light => "Light rain showers"@,
            Intensity::Moderate => "Moderate rain showers"@,
            Intensity::Heavy => "Violent rain showers"@,
        },
        WeatherCode::SnowShowers(i) => match i {
            SimpleIntensity::Light => "Light snow showers"@,
            SimpleIntensity::Heavy => "Heavy snow showers"@,
        },
        WeatherCode::Thunderstorm => "Thunderstorm"@,
        WeatherCode::ThunderstormWithHail(i) => match i {
            SimpleIntensity::Light => "Thunderstorm with slight hail"@,
            SimpleIntensity::Heavy => "Thunderstorm with heavy hail"@,
        },
    }
}

/// Emoji of a condition; for a clear sky, the moon when `is_night` holds
/// and the sun otherwise. Each emoji belongs to one icon family.
pub open spec fn condition_emoji(w: WeatherCode, is_night: bool) -> Seq<char> {
    match w {
        WeatherCode::Clear => if is_night { "🌙"@ } else { "☀️"@ },
        WeatherCode::Cloudy(c) => match c {
            CloudCover::MainlyClear => "🌤️"@,
            _ => "🌥️"@,
        },
        WeatherCode::Fog { .. } => "🌫️"@,
        WeatherCode::Drizzle(_) | WeatherCode::FreezingDrizzle(_) => "🌦️"@,
        WeatherCode::Rain(_) | WeatherCode::FreezingRain(_) | WeatherCode::RainShowers(_) => "🌧️"@,
        WeatherCode::SnowFall(_) | WeatherCode::SnowShowers(_) => "🌨️"@,
        WeatherCode::SnowGrains => "❄️"@,
        WeatherCode::Thunderstorm | WeatherCode::ThunderstormWithHail(_) => "⛈️"@,
    }
}

/// The icon families: conditions of one family share an icon.
#[derive(Clone, Copy, Debug, PartialEq, Eq, Structural)]
pub enum IconFamily {
    Clear,
    Cloudy,
    Foggy,
    Drizzle,
    Rainy,
    Snowfall,
    Thunderstorm,
}

/// The icon family of a condition.
pub open spec fn icon_family(w: WeatherCode) -> IconFamily {
    match w {
        WeatherCode::Clear => IconFamily::Clear,
        WeatherCode::Cloudy(_) => IconFamily::Cloudy,
        WeatherCode::Fog { .. } => IconFamily::Foggy,
        WeatherCode::Drizzle(_) | WeatherCode::FreezingDrizzle(_) => IconFamily::Drizzle,
        WeatherCode::Rain(_) | WeatherCode::RainShowers(_) | WeatherCode::FreezingRain(_) => IconFamily::Rainy,
        WeatherCode::SnowFall(_) | WeatherCode::SnowGrains | WeatherCode::SnowShowers(_) => IconFamily::Snowfall,
        WeatherCode::Thunderstorm | WeatherCode::ThunderstormWithHail(_) => IconFamily::Thunderstorm,
    }
}

/// Name of the icon asset of a family.
pub open spec fn family_key(f: IconFamily) -> Seq<char> {
    match f {
        IconFamily::Clear => "clear"@,
        IconFamily::Cloudy => "cloudy"@,
        IconFamily::Foggy => "foggy"@,
        IconFamily::Drizzle => "drizzle"@,
        IconFamily::Rainy => "rainy"@,
        IconFamily::Snowfall => "snowfall"@,
        IconFamily::Thunderstorm => "thunderstorm"@,
    }
}

/// Name of the icon asset of a condition.
pub open spec fn icon_key(w: WeatherCode) -> Seq<char> {
    family_key(icon_family(w))
}

impl WeatherCode {
    /// The condition of a numeric weather code; `None` for a code that is
    /// not supported.
    pub fn from_code(code: u8) -> (r: Option<WeatherCode>)
        ensures
            r == code_condition(code),
    {
        match code {
            0 => Some(WeatherCode::Clear),
            1 => Some(WeatherCode::Cloudy(CloudCover::MainlyClear)),
            2 => Some(WeatherCode::Cloudy(CloudCover::Partial)),
            3 => Some(WeatherCode::Cloudy(CloudCover::Overcast)),
            45 => Some(WeatherCode::Fog { is_rime_fog: false }),
            48 => Some(WeatherCode::Fog { is_rime_fog: true }),
            51 => Some(WeatherCode::Drizzle(Intensity::Light)),
            53 => Some(WeatherCode::Drizzle(Intensity::Moderate)),
            55 => Some(WeatherCode::Drizzle(Intensity::Heavy)),
            56 => Some(WeatherCode::FreezingDrizzle(SimpleIntensity::Light)),
            57 => Some(WeatherCode::FreezingDrizzle(SimpleIntensity::Heavy)),
            61 => Some(WeatherCode::Rain(Intensity::Light)),
            63 => Some(WeatherCode::Rain(Intensity::Moderate)),
            65 => Some(WeatherCode::Rain(Intensity::Heavy)),
            66 => Some(WeatherCode::FreezingRain(SimpleIntensity::Light)),
            67 => Some(WeatherCode::FreezingRain(SimpleIntensity::Heavy)),
            71 => Some(WeatherCode::SnowFall(Intensity::Light)),
            73 => Some(WeatherCode::SnowFall(Intensity::Moderate)),
            75 => Some(WeatherCode::SnowFall(Intensity::Heavy)),
            77 => Some(WeatherCode::SnowGrains),
            80 => Some(WeatherCode::RainShowers(Intensity::Light)),
            81 => Some(WeatherCode::RainShowers(Intensity::Moderate)),
            82 => Some(WeatherCode::RainShowers(Intensity::Heavy)),
            85 => Some(WeatherCode::SnowShowers(SimpleIntensity::Light)),
            86 => Some(WeatherCode::SnowShowers(SimpleIntensity::Heavy)),
            95 => Some(WeatherCode::Thunderstorm),
            96 => Some(WeatherCode::ThunderstormWithHail(SimpleIntensity::Light)),
            99 => Some(WeatherCode::ThunderstormWithHail(SimpleIntensity::Heavy)),
            _ => None,
        }
    }

    /// The human readable label of the condition.
    pub fn to_string(&self) -> (r: String)
        ensures
            r@ == condition_label(*self),
    {
        match self {
            WeatherCode::Clear => String::from_str("Clear sky"),
            WeatherCode::Cloudy(c) => match c {
                CloudCover::MainlyClear => String::from_str("Mainly clear"),
                CloudCover::Partial => String::from_str("Partly cloudy"),
                CloudCover::Overcast => String::from_str("Overcast"),
            },
            WeatherCode::Fog { is_rime_fog } => if *is_rime_fog {
                String::from_str("Rime fog")
            } else {
                String::from_str("Fog")
            },
            WeatherCode::Drizzle(i) => match i {
                Intensity::Light => String::from_str("Light drizzle"),
                Intensity::Moderate => String::from_str("Moderate drizzle"),
                Intensity::Heavy => String::from_str("Dense drizzle"),
            },
            WeatherCode::FreezingDrizzle(i) => match i {
                SimpleIntensity::Light => String::from_str("Light freezing drizzle"),
                SimpleIntensity::Heavy => String::from_str("Dense freezing drizzle"),
            },
            WeatherCode::Rain(i) => match i {
                Intensity::Light => String::from_str("Light rain"),
                Intensity::Moderate => String::from_str("Moderate rain"),
                Intensity::Heavy => String::from_str("Heavy rain"),
            },
            WeatherCode::FreezingRain(i) => match i {
                SimpleIntensity::Light => String::from_str("Light freezing rain"),
                SimpleIntensity::Heavy => String::from_str("Heavy freezing rain"),
            },
            WeatherCode::SnowFall(i) => match i {
                Intensity::Light => String::from_str("Light snowfall"),
                Intensity::Moderate => String::from_str("Moderate snowfall"),
                Intensity::Heavy => String::from_str("Heavy snowfall"),
            },
            WeatherCode::SnowGrains => String::from_str("Snow grains"),
            WeatherCode::RainShowers(i) => match i {
                Intensity::Light => String::from_str("Light rain showers"),
                Intensity::Moderate => String::from_str("Moderate rain showers"),
                Intensity::Heavy => String::from_str("Violent rain showers"),
            },
            WeatherCode::SnowShowers(i) => match i {
                SimpleIntensity::Light => String::from_str("Light snow showers"),
                SimpleIntensity::Heavy => String::from_str("Heavy snow showers"),
            },
            WeatherCode::Thunderstorm => String::from_str("Thunderstorm"),
            WeatherCode::ThunderstormWithHail(i) => match i {
                SimpleIntensity::Light => String::from_str("Thunderstorm with slight hail"),
                SimpleIntensity::Heavy => String::from_str("Thunderstorm with heavy hail"),
            },
        }
    }

    /// An emoji for the condition.
    pub fn to_emoji(&self, is_night: bool) -> (r: String)
        ensures
            r@ == condition_emoji(*self, is_night),
    {
        match self {
            WeatherCode::Clear => if is_night {
                String::from_str("🌙")
            } else {
                String::from_str("☀️")
            },
            WeatherCode::Cloudy(c) => match c {
                CloudCover::MainlyClear => String::from_str("🌤️"),
                _ => String::from_str("🌥️"),
            },
            WeatherCode::Fog { .. } => String::from_str("🌫️"),
            WeatherCode::Drizzle(_) | WeatherCode::FreezingDrizzle(_) => String::from_str("🌦️"),
            WeatherCode::Rain(_) | WeatherCode::FreezingRain(_) | WeatherCode::RainShowers(_) => {
                String::from_str("🌧️")
            },
            WeatherCode::SnowFall(_) | WeatherCode::SnowShowers(_) => {
                String::from_str("🌨️")
            },
            WeatherCode::SnowGrains => String::from_str("❄️"),
            WeatherCode::Thunderstorm | WeatherCode::ThunderstormWithHail(_) => {
                String::from_str("⛈️")
            },
        }
    }

    /// The name of the condition's icon asset, the same for every condition
    /// of one family.
    pub fn get_svg_name(&self) -> (r: String)
        ensures
            r@ == icon_key(*self),
    {
        match self {
            WeatherCode::Clear => String::from_str("clear"),
            WeatherCode::Cloudy(_) => String::from_str("cloudy"),
            WeatherCode::Fog { .. } => String::from_str("foggy"),
            WeatherCode::Drizzle(_) | WeatherCode::FreezingDrizzle(_) => String::from_str("drizzle"),
            WeatherCode::Rain(_) | WeatherCode::RainShowers(_) | WeatherCode::FreezingRain(_) => {
                String::from_str("rainy")
            },
            WeatherCode::SnowFall(_) | WeatherCode::SnowGrains | WeatherCode::SnowShowers(_) => {
                String::from_str("snowfall")
            },
            WeatherCode::Thunderstorm | WeatherCode::ThunderstormWithHail(_) => {
                String::from_str("thunderstorm")
            },
        }
    }
}

/// A weather code in 0..=99 names a condition exactly when the provider
/// documents it.
pub proof fn lemma_supported_codes(code: u8)
    requires
        code <= 99,
    ensures
        code_condition(code) is Some <==> supported_codes().contains(code),
{
}

/// Two conditions share an icon asset exactly when they belong to one
/// family.
pub proof fn lemma_icon_key_by_family(a: WeatherCode, b: WeatherCode)
    ensures
        icon_key(a) == icon_key(b) <==> icon_family(a) == icon_family(b),
{
    reveal_strlit("clear");
    reveal_strlit("cloudy");
    reveal_strlit("foggy");
    reveal_strlit("drizzle");
    reveal_strlit("rainy");
    reveal_strlit("snowfall");
    reveal_strlit("thunderstorm");
    if icon_family(a) != icon_family(b) {
        let ka = icon_key(a);
        let kb = icon_key(b);
        assert(ka.len() != kb.len() || ka[0] != kb[0] || ka[1] != kb[1]);
    }
}

/// Two conditions that share an emoji share an icon family, so their icon
/// asset is the same.
pub proof fn lemma_emoji_within_family(a: WeatherCode, b: WeatherCode, is_night: bool)
    ensures
        condition_emoji(a, is_night) == condition_emoji(b, is_night) ==> icon_family(a) == icon_family(b),
{
    reveal_strlit("☀️");
    reveal_strlit("🌙");
    reveal_strlit("🌤️");
    reveal_strlit("🌥️");
    reveal_strlit("🌫️");
    reveal_strlit("🌦️");
    reveal_strlit("🌧️");
    reveal_strlit("🌨️");
    reveal_strlit("❄️");
    reveal_strlit("⛈️");
    if icon_family(a) != icon_family(b) {
        let ea = condition_emoji(a, is_night);
        let eb = condition_emoji(b, is_night);
        assert(ea[0] != eb[0]);
    }
}

/// Compass sector (0 = N, 1 = NE, ..., 7 = NW) of the direction
/// `num / den` degrees: each sector is the half-open range from 22.5 degrees
/// before its centre up to 22.5 degrees after it, modulo 360.
pub open spec fn compass_sector(num: int, den: int) -> int {
    ((2 * num + 45 * den) / (90 * den)) % 8
}

/// Compass sector of a direction in degrees.
pub open spec fn direction_sector(d: Decimal) -> int {
    compass_sector(numerator(d), denominator(d) as int)
}

/// Name of a compass sector.
pub open spec fn sector_name(i: int) -> Seq<char> {
    if i == 0 {
        "N"@
    } else if i == 1 {
        "NE"@
    } else if i == 2 {
        "E"@
    } else if i == 3 {
        "SE"@
    } else if i == 4 {
        "S"@
    } else if i == 5 {
        "SW"@
    } else if i == 6 {
        "W"@
    } else {
        "NW"@
    }
}

/// Turning a direction by whole turns keeps its compass sector: a negative
/// direction falls in the sector of the same direction plus 360 degrees.
pub proof fn lemma_sector_whole_turns(num: int, den: int, turns: int)
    requires
        den > 0,
    ensures
        compass_sector(num + 360 * den * turns, den) == compass_sector(num, den),
{
    let x = 2 * num + 45 * den;
    let m = 90 * den;
    lemma_fundamental_div_mod(x, m);
    let q = x / m;
    let r = x % m;
    assert(2 * (num + 360 * den * turns) + 45 * den == (q + 8 * turns) * m + r) by (nonlinear_arith)
        requires
            x == 2 * num + 45 * den,
            m == 90 * den,
            x == m * q + r,
    ;
    lemma_fundamental_div_mod_converse(2 * (num + 360 * den * turns) + 45 * den, m, q + 8 * turns, r);
    lemma_mod_multiples_vanish(turns, q, 8);
}

/// The sector depends on the direction modulo a full turn.
proof fn lemma_sector_residue(num: int, den: int)
    requires
        den > 0,
    ensures
        compass_sector(num, den) == compass_sector(num % (360 * den), den),
{
    let t = 360 * den;
    lemma_fundamental_div_mod(num, t);
    lemma_sector_whole_turns(num % t, den, num / t);
    assert(num % t + 360 * den * (num / t) == num) by (nonlinear_arith)
        requires
            t == 360 * den,
            num == t * (num / t) + num % t,
    ;
}

/// `(-a) mod t` from `a mod t`.
proof fn lemma_negated_mod(a: int, t: int)
    requires
        t > 0,
    ensures
        (-a) % t == (t - a % t) % t,
{
    lemma_fundamental_div_mod(a, t);
    let q = a / t;
    let r = a % t;
    if r == 0 {
        assert(-a == (-q) * t + 0) by (nonlinear_arith)
            requires a == t * q + r, r == 0;
        lemma_fundamental_div_mod_converse(-a, t, -q, 0);
        lemma_fundamental_div_mod_converse(t, t, 1, 0);
    } else {
        assert(-a == (-q - 1) * t + (t - r)) by (nonlinear_arith)
            requires a == t * q + r;
        lemma_fundamental_div_mod_converse(-a, t, -q - 1, t - r);
        lemma_fundamental_div_mod_converse(t - r, t, 0, t - r);
    }
}

/// `10^e mod 360`.
proof fn lemma_pow10_mod_360(e: nat)
    ensures
        pow10(e) % 360 == (if e == 0 { 1nat } else if e == 1 { 10nat } else if e == 2 { 100nat } else { 280nat }),
    decreases e,
{
    if e > 3 {
        lemma_pow10_mod_360((e - 1) as nat);
        vstd::arithmetic::div_mod::lemma_mul_mod_noop_right(10, pow10((e - 1) as nat) as int, 360);
    } else {
        reveal_with_fuel(pow10, 4);
    }
}

/// The compass sector of a direction, 0 for north up to 7 for north-west.
fn sector_of(d: Decimal) -> (r: u64)
    ensures
        r as int == direction_sector(d),
        r < 8,
{
    let neg = d.mantissa < 0;
    let a: u128 = if neg { (0i128 - d.mantissa as i128) as u128 } else { d.mantissa as u128 };
    if d.exponent >= 0 {
        let e = d.exponent as u64;
        let p: u128 = if e == 0 { 1 } else if e == 1 { 10 } else if e == 2 { 100 } else { 280 };
        let am = a % 360;
        let mres: u128 = if neg { (360 - am) % 360 } else { am };
        let res = (mres * p) % 360;
        let s = ((2 * res + 45) / 90) % 8;
        proof {
            let v = numerator(d);
            lemma_pow10_mod_360(e as nat);
            if neg {
                lemma_negated_mod(a as int, 360);
            }
            assert(mres as int == (d.mantissa as int) % 360);
            lemma_mul_mod_noop(d.mantissa as int, pow10(e as nat) as int, 360);
            assert(res as int == v % 360);
            lemma_sector_residue(v, 1);
        }
        s as u64
    } else {
        let k: u64 = (0i64 - d.exponent as i64) as u64;
        if k >= 19 {
            proof {
                lemma_pow10_monotonic(19, k as nat);
                reveal_with_fuel(pow10, 20);
                let den = denominator(d) as int;
                let x = 2 * (d.mantissa as int) + 45 * den;
                lemma_fundamental_div_mod_converse(x, 90 * den, 0, x);
            }
            0
        } else {
            let mut den: u128 = 1;
            let mut i: u64 = 0;
            while i < k
                invariant
                    i <= k <= 18,
                    den == pow10(i as nat),
                decreases k - i,
            {
                proof {
                    lemma_pow10_monotonic((i + 1) as nat, 18);
                    reveal_with_fuel(pow10, 19);
                }
                den = den * 10;
                i = i + 1;
            }
            proof {
                lemma_pow10_monotonic(k as nat, 18);
                reveal_with_fuel(pow10, 19);
                lemma_pow10_positive(k as nat);
            }
            let t = 360 * den;
            let am = a % t;
            let res: u128 = if neg { (t - am) % t } else { am };
            let s = ((2 * res + 45 * den) / (90 * den)) % 8;
            proof {
                if neg {
                    lemma_negated_mod(a as int, t as int);
                }
                assert(res as int == (d.mantissa as int) % (t as int));
                lemma_sector_residue(d.mantissa as int, den as int);
            }
            s as u64
        }
    }
}

/// The name of a compass sector.
fn sector_str(i: u64) -> (r: &'static str)
    requires
        i < 8,
    ensures
        r@ == sector_name(i as int),
{
    if i == 0 {
        "N"
    } else if i == 1 {
        "NE"
    } else if i == 2 {
        "E"
    } else if i == 3 {
        "SE"
    } else if i == 4 {
        "S"
    } else if i == 5 {
        "SW"
    } else if i == 6 {
        "W"
    } else {
        "NW"
    }
}

/// Wind speed and direction (degrees), with the unit of the speed.
#[derive(Clone, Copy, Debug, PartialEq, Eq, Structural)]
pub struct Wind {
    pub speed: Option<Decimal>,
    pub direction: Option<Decimal>,
    pub unit: Speed,
}

/// Text of a wind speed: the number and the unit symbol; empty when unknown.
pub open spec fn wind_speed_text(w: Wind) -> Seq<char> {
    match w.speed {
        Some(v) => decimal_text(v) + speed_symbol(w.unit),
        None => Seq::empty(),
    }
}

/// Text of a wind direction: its compass sector; empty when unknown.
pub open spec fn wind_direction_text(w: Wind) -> Seq<char> {
    match w.direction {
        Some(d) => sector_name(direction_sector(d)),
        None => Seq::empty(),
    }
}

impl Wind {
    /// A wind reading; `None` when neither speed nor direction is known.
    pub fn new(speed: Option<Decimal>, direction: Option<Decimal>, unit: Speed) -> (r: Option<Wind>)
        ensures
            r == (if speed is None && direction is None {
                None
            } else {
                Some(Wind { speed, direction, unit })
            }),
    {
        if speed.is_none() && direction.is_none() {
            None
        } else {
            Some(Wind { speed, direction, unit })
        }
    }

    /// Direction and speed, as `NE, 12.5km/h`.
    pub fn stringify(&self) -> (r: String)
        ensures
            r@ == wind_direction_text(*self) + ", "@ + wind_speed_text(*self),
    {
        let mut out = self.direction_stringify();
        out.append(", ");
        let speed = self.speed_stringify();
        out.append(speed.as_str());
        out
    }

    /// The speed with its unit symbol, or the empty string.
    pub fn speed_stringify(&self) -> (r: String)
        ensures
            r@ == wind_speed_text(*self),
    {
        match self.speed {
            Some(v) => {
                let mut out = v.to_string();
                let unit = self.unit.stringify();
                out.append(unit.as_str());
                out
            },
            None => String::new(),
        }
    }

    /// The compass sector of the direction (N, NE, E, SE, S, SW, W or NW),
    /// or the empty string.
    pub fn direction_stringify(&self) -> (r: String)
        ensures
            r@ == wind_direction_text(*self),
    {
        match self.direction {
            Some(d) => {
                let i = sector_of(d);
                String::from_str(sector_str(i))
            },
            None => String::new(),
        }
    }
}

/// Precipitation amounts and probability (percent), with the unit of the
/// amounts.
#[derive(Clone, Copy, Debug, PartialEq, Eq, Structural)]
pub struct Precipitation {
    pub combined: Option<Decimal>,
    pub rain: Option<Decimal>,
    pub showers: Option<Decimal>,
    pub snowfall: Option<Decimal>,
    /// Only forecasts carry a probability.
    pub probability: Option<u8>,
    pub unit: Length,
}

/// Text of an amount with the unit's name, or `??` when unknown.
pub open spec fn amount_text(v: Option<Decimal>, unit: Length) -> Seq<char> {
    match v {
        Some(x) => decimal_text(x) + length_name(unit),
        None => "??"@,
    }
}

/// Text of a probability in percent, as `40%`, or `??` when unknown.
pub open spec fn probability_text(p: Option<u8>) -> Seq<char> {
    match p {
        Some(x) => nat_digits(x as nat) + "%"@,
        None => "??"@,
    }
}

fn amount_string(v: Option<Decimal>, unit: Length) -> (r: String)
    ensures
        r@ == amount_text(v, unit),
{
    match v {
        Some(x) => {
            let mut out = x.to_string();
            let name = unit.to_string();
            out.append(name.as_str());
            out
        },
        None => String::from_str("??"),
    }
}

impl Precipitation {
    /// A precipitation reading; `None` when every part of it is unknown.
    pub fn new(
        combined: Option<Decimal>,
        rain: Option<Decimal>,
        showers: Option<Decimal>,
        snowfall: Option<Decimal>,
        probability: Option<u8>,
        unit: Length,
    ) -> (r: Option<Precipitation>)
        ensures
            r == (if combined is None && rain is None && showers is None && snowfall is None
                && probability is None {
                None
            } else {
                Some(Precipitation { combined, rain, showers, snowfall, probability, unit })
            }),
    {
        if combined.is_none() && rain.is_none() && showers.is_none() && snowfall.is_none()
            && probability.is_none() {
            None
        } else {
            Some(Precipitation { combined, rain, showers, snowfall, probability, unit })
        }
    }

    pub fn combined_to_string(&self) -> (r: String)
        ensures
            r@ == amount_text(self.combined, self.unit),
    {
        amount_string(self.combined, self.unit)
    }

    pub fn rain_to_string(&self) -> (r: String)
        ensures
            r@ == amount_text(self.rain, self.unit),
    {
        amount_string(self.rain, self.unit)
    }

    pub fn showers_to_string(&self) -> (r: String)
        ensures
            r@ == amount_text(self.showers, self.unit),
    {
        amount_string(self.showers, self.unit)
    }

    pub fn snowfall_to_string(&self) -> (r: String)
        ensures
            r@ == amount_text(self.snowfall, self.unit),
    {
        amount_string(self.snowfall, self.unit)
    }

    pub fn probability_to_string(&self) -> (r: String)
        ensures
            r@ == probability_text(self.probability),
    {
        match self.probability {
            Some(p) => {
                let mut out = String::new();
                push_digits(&mut out, p as u64);
                out.append("%");
                proof {
                    assert(out@ =~= probability_text(self.probability));
                }
                out
            },
            None => String::from_str("??"),
        }
    }
}

/// A temperature with the unit it was reported in.
#[derive(Clone, Copy, Debug, PartialEq, Eq, Structural)]
pub struct Temperature {
    pub temp: Decimal,
    pub unit: TempUnit,
}

impl Temperature {
    pub fn new(temp: Decimal, unit: TempUnit) -> (r: Temperature)
        ensures
            r == (Temperature { temp, unit }),
    {
        Temperature { temp, unit }
    }

    /// The value with its unit symbol, as `21.5°C`.
    pub fn stringify(&self) -> (r: String)
        ensures
            r@ == decimal_text(self.temp) + temp_symbol(self.unit),
    {
        let mut out = self.temp.to_string();
        let unit = self.unit.stringify();
        out.append(unit.as_str());
        out
    }
}

/// Relative humidity in percent, as reported.
#[derive(Clone, Copy, Debug, PartialEq, Eq, Structural)]
pub struct Humidity {
    pub percentage: u8,
}

impl Humidity {
    pub fn new(percentage: u8) -> (r: Humidity)
        ensures
            r == (Humidity { percentage }),
    {
        Humidity { percentage }
    }

    /// The percentage followed by `%`.
    pub fn stringify(&self) -> (r: String)
        ensures
            r@ == nat_digits(self.percentage as nat) + "%"@,
    {
        let mut out = String::new();
        push_digits(&mut out, self.percentage as u64);
        out.append("%");
        proof {
            assert(out@ =~= nat_digits(self.percentage as nat) + "%"@);
        }
        out
    }
}

} // verus!
