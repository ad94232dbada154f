//! The store of icon assets: built once at start-up, then only read.

use vstd::prelude::*;
use crate::units::{icon_family, icon_key, IconFamily, WeatherCode};

verus! {

/// One asset: its module (`day`, `night`, `weather`, ...), its name in the
/// module, and its SVG text.
#[derive(Clone, Debug)]
pub struct AssetEntry {
    pub module: String,
    pub name: String,
    pub svg: String,
}

/// A read-only lookup table of assets.
#[derive(Debug)]
pub struct Assets {
    entries: Vec<AssetEntry>,
}

/// The SVG text under `module` and `name`: the last entry with that key
/// wins, as when inserting the entries one after another into a map.
pub open spec fn asset_lookup(entries: Seq<AssetEntry>, module: Seq<char>, name: Seq<char>) -> Option<Seq<char>>
    decreases entries.len(),
{
    if entries.len() == 0 {
        None
    } else if entries.last().module@ == module && entries.last().name@ == name {
        Some(entries.last().svg@)
    } else {
        asset_lookup(entries.drop_last(), module, name)
    }
}

impl Assets {
    /// The entries the store was loaded with.
    pub closed spec fn entries(&self) -> Seq<AssetEntry> {
        self.entries@
    }
}

/// Builds the asset store from its entries.
pub fn load_assets(entries: Vec<AssetEntry>) -> (r: Assets)
    ensures
        r.entries() == entries@,
{
    Assets { entries }
}

/// The SVG text of asset `name` in `module`, if the store holds it.
fn find_svg(assets: &Assets, module: &str, name: &str) -> (r: Option<String>)
    ensures
        match r {
            Some(s) => asset_lookup(assets.entries(), module@, name@) == Some(s@),
            None => asset_lookup(assets.entries(), module@, name@) is None,
        },
{
    let module_key = String::from_str(module);
    let name_key = String::from_str(name);
    let entries = &assets.entries;
    let mut i: usize = entries.len();
    proof {
        assert(entries@.subrange(0, i as int) =~= entries@);
    }
    while i > 0
        invariant
            i <= entries@.len(),
            module_key@ == module@,
            name_key@ == name@,
            assets.entries() == entries@,
            asset_lookup(entries@, module_key@, name_key@) == asset_lookup(entries@.subrange(0, i as int), module_key@, name_key@),
        decreases i,
    {
        let ghost prefix = entries@.subrange(0, i as int);
        let e = &entries[i - 1];
        if e.module == module_key && e.name == name_key {
            proof {
                assert(prefix.last() == entries@[i - 1]);
                assert(asset_lookup(prefix, module_key@, name_key@) == Some(e.svg@));
            }
            return Some(e.svg.clone());
        }
        proof {
            assert(prefix.drop_last() =~= entries@.subrange(0, i - 1));
        }
        i = i - 1;
    }
    None
}

/// Whether the store holds asset `name` in `module`.
pub fn has_svg(assets: &Assets, module: &str, name: &str) -> (r: bool)
    ensures
        r == asset_lookup(assets.entries(), module@, name@) is Some,
{
    find_svg(assets, module, name).is_some()
}

/// The SVG text of asset `name` in `module`, which the store must hold.
pub fn get_svg(assets: &Assets, module: &str, name: &str) -> (r: String)
    requires
        asset_lookup(assets.entries(), module@, name@) is Some,
    ensures
        asset_lookup(assets.entries(), module@, name@) == Some(r@),
{
    match find_svg(assets, module, name) {
        Some(s) => s,
        None => String::new(),
    }
}


/// Where an icon comes from: its module, its name, and its file under the
/// asset directory.
#[derive(Clone, Copy, Debug)]
pub struct AssetSource {
    pub module: &'static str,
    pub name: &'static str,
    pub file: &'static str,
}

/// An asset source as module, name and file.
pub open spec fn source_view(s: AssetSource) -> (Seq<char>, Seq<char>, Seq<char>) {
    (s.module@, s.name@, s.file@)
}

/// The icons the application loads. At night the drizzle, rain, snow and
/// thunderstorm icons are the day ones.
pub open spec fn icon_catalog() -> Seq<(Seq<char>, Seq<char>, Seq<char>)> {
    seq![
        ("day"@, "clear"@, "svgs/weather/day/clear.svg"@),
        ("day"@, "cloudy"@, "svgs/weather/day/cloudy.svg"@),
        ("day"@, "drizzle"@, "svgs/weather/day/drizzle.svg"@),
        ("day"@, "foggy"@, "svgs/weather/day/foggy.svg"@),
        ("day"@, "rainy"@, "svgs/weather/day/rainy.svg"@),
        ("day"@, "snowfall"@, "svgs/weather/day/snowfall.svg"@),
        ("day"@, "thunderstorm"@, "svgs/weather/day/thunderstorm.svg"@),
        ("night"@, "clear"@, "svgs/weather/night/clear.svg"@),
        ("night"@, "cloudy"@, "svgs/weather/night/cloudy.svg"@),
        ("night"@, "drizzle"@, "svgs/weather/day/drizzle.svg"@),
        ("night"@, "foggy"@, "svgs/weather/night/foggy.svg"@),
        ("night"@, "rainy"@, "svgs/weather/day/rainy.svg"@),
        ("night"@, "snowfall"@, "svgs/weather/day/snowfall.svg"@),
        ("night"@, "thunderstorm"@, "svgs/weather/day/thunderstorm.svg"@),
        ("weather"@, "droplet"@, "svgs/weather/droplet.svg"@),
        ("weather"@, "humidity"@, "svgs/weather/humidity.svg"@),
        ("weather"@, "wind"@, "svgs/weather/wind.svg"@),
        ("weather"@, "temperature"@, "svgs/weather/temperature.svg"@),
        ("weather"@, "apparent_temperature"@, "svgs/weather/feels_like.svg"@),
        ("prec"@, "combined"@, "svgs/weather/prec/combined.svg"@),
        ("prec"@, "rain"@, "svgs/weather/prec/rain.svg"@),
        ("prec"@, "showers"@, "svgs/weather/prec/showers.svg"@),
        ("prec"@, "snow"@, "svgs/weather/prec/snow.svg"@),
        ("commons"@, "refresh"@, "svgs/refresh.svg"@),
        ("commons"@, "back"@, "svgs/back.svg"@),
    ]
}

/// The catalog of icons to load; see `icon_catalog`.
pub fn asset_catalog() -> (r: Vec<AssetSource>)
    ensures
        r@.map_values(|s: AssetSource| source_view(s)) == icon_catalog(),
{
    let mut r: Vec<AssetSource> = Vec::new();
    r.push(AssetSource { module: "day", name: "clear", file: "svgs/weather/day/clear.svg" });
    r.push(AssetSource { module: "day", name: "cloudy", file: "svgs/weather/day/cloudy.svg" });
    r.push(AssetSource { module: "day", name: "drizzle", file: "svgs/weather/day/drizzle.svg" });
    r.push(AssetSource { module: "day", name: "foggy", file: "svgs/weather/day/foggy.svg" });
    r.push(AssetSource { module: "day", name: "rainy", file: "svgs/weather/day/rainy.svg" });
    r.push(AssetSource { module: "day", name: "snowfall", file: "svgs/weather/day/snowfall.svg" });
    r.push(AssetSource { module: "day", name: "thunderstorm", file: "svgs/weather/day/thunderstorm.svg" });
    r.push(AssetSource { module: "night", name: "clear", file: "svgs/weather/night/clear.svg" });
    r.push(AssetSource { module: "night", name: "cloudy", file: "svgs/weather/night/cloudy.svg" });
    r.push(AssetSource { module: "night", name: "drizzle", file: "svgs/weather/day/drizzle.svg" });
    r.push(AssetSource { module: "night", name: "foggy", file: "svgs/weather/night/foggy.svg" });
    r.push(AssetSource { module: "night", name: "rainy", file: "svgs/weather/day/rainy.svg" });
    r.push(AssetSource { module: "night", name: "snowfall", file: "svgs/weather/day/snowfall.svg" });
    r.push(AssetSource { module: "night", name: "thunderstorm", file: "svgs/weather/day/thunderstorm.svg" });
    r.push(AssetSource { module: "weather", name: "droplet", file: "svgs/weather/droplet.svg" });
    r.push(AssetSource { module: "weather", name: "humidity", file: "svgs/weather/humidity.svg" });
    r.push(AssetSource { module: "weather", name: "wind", file: "svgs/weather/wind.svg" });
    r.push(AssetSource { module: "weather", name: "temperature", file: "svgs/weather/temperature.svg" });
    r.push(AssetSource { module: "weather", name: "apparent_temperature", file: "svgs/weather/feels_like.svg" });
    r.push(AssetSource { module: "prec", name: "combined", file: "svgs/weather/prec/combined.svg" });
    r.push(AssetSource { module: "prec", name: "rain", file: "svgs/weather/prec/rain.svg" });
    r.push(AssetSource { module: "prec", name: "showers", file: "svgs/weather/prec/showers.svg" });
    r.push(AssetSource { module: "prec", name: "snow", file: "svgs/weather/prec/snow.svg" });
    r.push(AssetSource { module: "commons", name: "refresh", file: "svgs/refresh.svg" });
    r.push(AssetSource { module: "commons", name: "back", file: "svgs/back.svg" });
    assert(r@.map_values(|s: AssetSource| source_view(s)) =~= icon_catalog());
    r
}

/// Every condition's icon is in the catalog, under `day` and under `night`.
pub proof fn lemma_icons_catalogued(w: WeatherCode)
    ensures
        exists|i: int| 0 <= i < icon_catalog().len() && icon_catalog()[i].0 == "day"@ && icon_catalog()[i].1 == icon_key(w),
        exists|i: int| 0 <= i < icon_catalog().len() && icon_catalog()[i].0 == "night"@ && icon_catalog()[i].1 == icon_key(w),
{
    let c = icon_catalog();
    match icon_family(w) {
        IconFamily::Clear => {
            assert(c[0].0 == "day"@ && c[0].1 == icon_key(w));
            assert(c[7].0 == "night"@ && c[7].1 == icon_key(w));
        },
        IconFamily::Cloudy => {
            assert(c[1].0 == "day"@ && c[1].1 == icon_key(w));
            assert(c[8].0 == "night"@ && c[8].1 == icon_key(w));
        },
        IconFamily::Foggy => {
            assert(c[3].0 == "day"@ && c[3].1 == icon_key(w));
            assert(c[10].0 == "night"@ && c[10].1 == icon_key(w));
        },
        IconFamily::Drizzle => {
            assert(c[2].0 == "day"@ && c[2].1 == icon_key(w));
            assert(c[9].0 == "night"@ && c[9].1 == icon_key(w));
        },
        IconFamily::Rainy => {
            assert(c[4].0 == "day"@ && c[4].1 == icon_key(w));
            assert(c[11].0 == "night"@ && c[11].1 == icon_key(w));
        },
        IconFamily::Snowfall => {
            assert(c[5].0 == "day"@ && c[5].1 == icon_key(w));
            assert(c[12].0 == "night"@ && c[12].1 == icon_key(w));
        },
        IconFamily::Thunderstorm => {
            assert(c[6].0 == "day"@ && c[6].1 == icon_key(w));
            assert(c[13].0 == "night"@ && c[13].1 == icon_key(w));
        },
    }
}

} // verus!
