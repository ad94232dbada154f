use rusty_weather::{asset_catalog, get_svg, has_svg, load_assets, WeatherCode, AssetEntry, Level, Notification, Timestamp};

fn entry(module: &str, name: &str, svg: &str) -> AssetEntry {
    AssetEntry { module: module.to_string(), name: name.to_string(), svg: svg.to_string() }
}

#[test]
fn assets_lookup() {
    let assets = load_assets(vec![
        entry("day", "clear", "<svg>sun</svg>"),
        entry("night", "clear", "<svg>moon</svg>"),
        entry("day", "clear", "<svg>sun2</svg>"),
    ]);
    assert_eq!(get_svg(&assets, "night", "clear"), "<svg>moon</svg>");
    assert_eq!(get_svg(&assets, "day", "clear"), "<svg>sun2</svg>");
    assert!(has_svg(&assets, "day", "clear"));
    assert!(!has_svg(&assets, "day", "rainy"));
    assert!(!has_svg(&assets, "clear", "day"));
}

#[test]
fn notification_retry() {
    let time = Timestamp { utc_seconds: 0, offset_seconds: 0 };
    let n = Notification::new_with_retry(Level::Error, "offline".to_string(), time, 7u32);
    assert_eq!(n.retry(), Ok(&7));
    let plain: Notification<u32> = Notification::new(Level::Warning, "slow".to_string(), time);
    assert_eq!(plain.retry(), Err("retry called on a non retryable notif:\nWarning:\nslow".to_string()));
}

#[test]
fn every_condition_icon_is_catalogued() {
    let catalog = asset_catalog();
    assert_eq!(catalog.len(), 25);
    for code in 0u8..=99 {
        if let Some(w) = WeatherCode::from_code(code) {
            let key = w.get_svg_name();
            for module in ["day", "night"] {
                assert!(catalog.iter().any(|s| s.module == module && s.name == key), "{module}/{key}");
            }
        }
    }
    let night_rain = catalog.iter().find(|s| s.module == "night" && s.name == "rainy").unwrap();
    assert_eq!(night_rain.file, "svgs/weather/day/rainy.svg");
}
