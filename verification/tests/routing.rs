use ecowitt_exporter::config::Args;
use ecowitt_exporter::pattern::channel_pattern;
use ecowitt_exporter::routing::{
    find_field, pm25_readings_invalid, pm25_updates, placement_of, process_report,
    rain_piezo_maps, route_key, Route,
};
use ecowitt_exporter::schema::Gauge;
use ecowitt_exporter::units::Conversion;

type Flat = Vec<(Gauge, Vec<String>, Conversion)>;

fn flat(route: Route) -> Option<Flat> {
    match route {
        Route::Apply(updates) => Some(
            updates
                .into_iter()
                .map(|u| (u.gauge, u.labels, u.conversion))
                .collect(),
        ),
        _ => None,
    }
}

fn one(gauge: Gauge, labels: &[&str], conversion: Conversion) -> Option<Flat> {
    Some(vec![(
        gauge,
        labels.iter().map(|s| s.to_string()).collect(),
        conversion,
    )])
}

fn route(cfg: &Args, key: &str) -> Route {
    let pattern = channel_pattern().expect("valid regex");
    route_key(cfg, &pattern, "garden", key, false)
}

fn cfg() -> Args {
    Args::default()
}

#[test]
fn bookkeeping_keys_are_skipped() {
    for key in [
        "PASSKEY", "dateutc", "runtime", "heap", "stationtype", "freq", "model", "interval",
        "soilad1",
    ] {
        assert!(matches!(route(&cfg(), key), Route::Skip), "{key}");
    }
}

#[test]
fn plain_readings_carry_the_station() {
    let c = cfg();
    assert_eq!(flat(route(&c, "winddir")), one(Gauge::WindDir, &["garden"], Conversion::Identity));
    assert_eq!(flat(route(&c, "uv")), one(Gauge::Uv, &["garden"], Conversion::Identity));
    assert_eq!(
        flat(route(&c, "lightning_num")),
        one(Gauge::LightningNum, &["garden"], Conversion::Identity)
    );
    assert_eq!(
        flat(route(&c, "lightning_time")),
        one(Gauge::LightningTime, &["garden"], Conversion::Identity)
    );
    assert_eq!(
        flat(route(&c, "ws90cap_volt")),
        one(Gauge::Ws90, &["garden", "ws90cap_volt", "volt"], Conversion::Identity)
    );
}

#[test]
fn battery_keys() {
    let c = cfg();
    assert_eq!(
        flat(route(&c, "wh57batt")),
        one(Gauge::BatteryLevel, &["garden", "wh57batt"], Conversion::Identity)
    );
    assert_eq!(
        flat(route(&c, "pm25batt1")),
        one(Gauge::BatteryLevel, &["garden", "pm25batt1"], Conversion::Identity)
    );
    assert_eq!(
        flat(route(&c, "soilbatt1")),
        one(Gauge::BatteryVoltage, &["garden", "soilbatt1", "volt"], Conversion::Identity)
    );
    assert_eq!(
        flat(route(&c, "ws90batt")),
        one(Gauge::BatteryVoltage, &["garden", "ws90batt", "volt"], Conversion::Identity)
    );
    assert_eq!(
        flat(route(&c, "wh65batt")),
        one(Gauge::BatteryStatus, &["garden", "wh65batt"], Conversion::Identity)
    );
}

#[test]
fn soil_moisture() {
    assert_eq!(
        flat(route(&cfg(), "soilmoisture2")),
        one(Gauge::SoilMoisture, &["garden", "soilmoisture2", "percent"], Conversion::Identity)
    );
}

#[test]
fn pm25_realtime_and_average() {
    let c = cfg();
    assert_eq!(
        flat(route(&c, "pm25_ch1")),
        one(Gauge::Pm25, &["garden", "realtime", "ch1", "\u{03bc}gm3"], Conversion::Identity)
    );
    assert_eq!(
        flat(route(&c, "pm25_avg_24h_ch2")),
        Some(vec![
            (
                Gauge::Pm25,
                vec!["garden".into(), "avg_24h".into(), "ch2".into(), "\u{03bc}gm3".into()],
                Conversion::Identity
            ),
            (Gauge::Aqi, vec!["garden".into(), "epa".into()], Conversion::AqiEpa),
        ])
    );
    assert_eq!(flat(route(&c, "pm25_total")), Some(vec![]));
}

#[test]
fn pm25_aqi_follows_the_standard() {
    let mut c = cfg();
    c.aqi_standard = "uk".to_string();
    let routed = flat(route(&c, "pm25_avg_24h_ch1")).unwrap();
    assert_eq!(routed[1], (Gauge::Aqi, vec!["garden".into(), "uk".into()], Conversion::AqiUk));
}

#[test]
fn pm25_dropped_when_marked_erroneous() {
    let pattern = channel_pattern().unwrap();
    assert!(matches!(
        route_key(&cfg(), &pattern, "garden", "pm25_ch1", true),
        Route::DropPm25
    ));
    // battery keys are not PM2.5 readings
    assert!(matches!(
        route_key(&cfg(), &pattern, "garden", "pm25batt1", true),
        Route::Apply(_)
    ));
}

#[test]
fn pm25_unicode_digit_channel() {
    // U+0663 ARABIC-INDIC DIGIT THREE is a Unicode decimal digit
    assert_eq!(
        flat(route(&cfg(), "pm25_ch\u{663}")),
        one(Gauge::Pm25, &["garden", "realtime", "ch\u{663}", "\u{03bc}gm3"], Conversion::Identity)
    );
}

#[test]
fn pm25_updates_series() {
    let r = pm25_updates("mep", "st", "ch1", "avg_24h_");
    assert_eq!(r.len(), 2);
    assert_eq!(r[0].labels, vec!["st", "avg_24h", "ch1", "\u{03bc}gm3"]);
    assert_eq!(r[1].conversion, Conversion::AqiMep);
    let r = pm25_updates("mep", "st", "ch1", "");
    assert_eq!(r.len(), 1);
    assert_eq!(r[0].labels[1], "realtime");
}

#[test]
fn humidity_placement() {
    let mut c = cfg();
    c.outdoor_location = Some("Garden".into());
    c.temp3_location = Some("Greenhouse".into());
    assert_eq!(
        flat(route(&c, "humidity")),
        one(Gauge::Humidity, &["garden", "outdoor", "percent", "Garden"], Conversion::Identity)
    );
    assert_eq!(
        flat(route(&c, "humidityin")),
        one(Gauge::Humidity, &["garden", "indoor", "percent", "indoor"], Conversion::Identity)
    );
    assert_eq!(
        flat(route(&c, "humidity3")),
        one(Gauge::Humidity, &["garden", "ch3", "percent", "Greenhouse"], Conversion::Identity)
    );
    assert_eq!(
        flat(route(&c, "humidity5")),
        one(Gauge::Humidity, &["garden", "ch5", "percent", "ch5"], Conversion::Identity)
    );
}

#[test]
fn temperature_keys() {
    let mut c = cfg();
    c.indoor_location = Some("Hall".into());
    assert_eq!(
        flat(route(&c, "tempf")),
        one(Gauge::Temp, &["garden", "outdoor", "c", "outdoor"], Conversion::FahrenheitToCelsius)
    );
    assert_eq!(
        flat(route(&c, "tempinf")),
        one(Gauge::Temp, &["garden", "indoor", "c", "Hall"], Conversion::FahrenheitToCelsius)
    );
    c.temperature_unit = "k".into();
    assert_eq!(
        flat(route(&c, "temp1f")),
        one(Gauge::Temp, &["garden", "ch1", "k", "ch1"], Conversion::FahrenheitToKelvin)
    );
    c.temperature_unit = "f".into();
    assert_eq!(
        flat(route(&c, "temp2f")),
        one(Gauge::Temp, &["garden", "ch2", "f", "ch2"], Conversion::Identity)
    );
}

#[test]
fn temperature_key_cut_inside_a_character_aborts() {
    assert!(matches!(route(&cfg(), "temp\u{e9}"), Route::Abort));
    assert!(matches!(route(&cfg(), "barom\u{e9}"), Route::Apply(_)));
    assert!(matches!(route(&cfg(), "barom\u{20ac}"), Route::Abort));
    assert!(matches!(route(&cfg(), "rain\u{20ac}"), Route::Abort));
}

#[test]
fn barometer_keys() {
    let c = cfg();
    assert_eq!(
        flat(route(&c, "baromrelin")),
        one(Gauge::Barom, &["garden", "relative", "hpa"], Conversion::InHgToHpa)
    );
    assert_eq!(
        flat(route(&c, "baromabsin")),
        one(Gauge::Barom, &["garden", "absolute", "hpa"], Conversion::InHgToHpa)
    );
    assert_eq!(
        flat(route(&c, "vpd")),
        one(Gauge::Vpd, &["garden", "hpa"], Conversion::InHgToHpa)
    );
}

#[test]
fn solar_radiation() {
    let mut c = cfg();
    c.irradiance_unit = "klx".into();
    assert_eq!(
        flat(route(&c, "solarradiation")),
        one(Gauge::SolarRadiation, &["garden", "klx"], Conversion::WattsToKilolux)
    );
}

#[test]
fn wind_keys() {
    let mut c = cfg();
    assert_eq!(
        flat(route(&c, "windspeedmph")),
        Some(vec![
            (Gauge::WindBeaufort, vec!["garden".into()], Conversion::MphToBeaufort),
            (
                Gauge::Wind,
                vec!["garden".into(), "windspeed".into(), "kmh".into()],
                Conversion::MphToKmh
            ),
        ])
    );
    c.wind_unit = "knots".into();
    assert_eq!(
        flat(route(&c, "windgustmph")),
        one(Gauge::Wind, &["garden", "windgust", "knots"], Conversion::MphToKnots)
    );
    assert_eq!(
        flat(route(&c, "maxdailygust")),
        one(Gauge::Wind, &["garden", "maxdailygust", "knots"], Conversion::MphToKnots)
    );
}

#[test]
fn rain_keys() {
    let c = cfg();
    assert_eq!(
        flat(route(&c, "dailyrainin")),
        one(Gauge::Rain, &["garden", "daily", "mm"], Conversion::InchesToMm)
    );
    assert_eq!(
        flat(route(&c, "rainratein")),
        one(Gauge::Rain, &["garden", "rate", "mm"], Conversion::InchesToMm)
    );
    assert_eq!(
        flat(route(&c, "drain_piezo")),
        one(Gauge::Rain, &["garden", "drain_piezo", "mm"], Conversion::InchesToMm)
    );
    assert_eq!(flat(route(&c, "srain_piezo")), Some(vec![]));
}

#[test]
fn lightning_distance() {
    let mut c = cfg();
    assert_eq!(
        flat(route(&c, "lightning")),
        one(Gauge::Lightning, &["garden", "km"], Conversion::Identity)
    );
    c.distance_unit = "mi".into();
    assert_eq!(
        flat(route(&c, "lightning")),
        one(Gauge::Lightning, &["garden", "mi"], Conversion::KmToMiles)
    );
}

#[test]
fn unknown_keys_set_nothing() {
    assert_eq!(flat(route(&cfg(), "co2")), Some(vec![]));
}

#[test]
fn temp_location_by_channel() {
    let mut c = cfg();
    c.temp1_location = Some("Greenhouse".into());
    c.temp8_location = Some("Garage".into());
    assert_eq!(c.temp_location('1'), Some("Greenhouse"));
    assert_eq!(c.temp_location('8'), Some("Garage"));
    assert_eq!(c.temp_location('2'), None);
    assert_eq!(c.temp_location('9'), None);
    assert_eq!(c.temp_location('x'), None);
}

#[test]
fn placement_of_channels() {
    let c = cfg();
    assert_eq!(
        placement_of(&c, "temp7", "temp", "tempin"),
        ("ch7".to_string(), "ch7".to_string())
    );
    assert_eq!(placement_of(&c, "", "temp", "tempin"), ("ch0".to_string(), "ch0".to_string()));
}

#[test]
fn piezo_maps() {
    let m = rain_piezo_maps();
    assert_eq!(m.len(), 7);
    assert!(m.contains(&("drain_piezo", "dailyrain")));
    assert!(m.contains(&("yrain_piezo", "yearlyrain")));
}

fn report(pairs: &[(&str, &str)]) -> Vec<(String, String)> {
    pairs.iter().map(|(k, v)| (k.to_string(), v.to_string())).collect()
}

#[test]
fn pm25_marked_erroneous() {
    let data = report(&[("pm25batt1", "1"), ("pm25_ch1", "1000")]);
    assert!(pm25_readings_invalid(&data));
    let data = report(&[("pm25batt2", "1"), ("pm25_ch2", "1000"), ("pm25_ch1", "12")]);
    assert!(pm25_readings_invalid(&data));
    let data = report(&[("pm25batt1", "0"), ("pm25_ch1", "1000")]);
    assert!(!pm25_readings_invalid(&data));
    let data = report(&[("pm25batt1", "1"), ("pm25_ch1", "999")]);
    assert!(!pm25_readings_invalid(&data));
}

#[test]
fn find_field_takes_first() {
    let data = report(&[("a", "1"), ("b", "2"), ("a", "3")]);
    assert_eq!(find_field(&data, "a"), Some("1"));
    assert_eq!(find_field(&data, "c"), None);
}

#[test]
fn process_report_routes_each_field() {
    let data = report(&[
        ("PASSKEY", "ABC"),
        ("tempf", "50.0"),
        ("pm25batt1", "1"),
        ("pm25_ch1", "1000"),
        ("windspeedmph", "3.0"),
    ]);
    let routes = process_report(&cfg(), "garden", &data).unwrap();
    assert_eq!(routes.len(), 5);
    assert!(matches!(routes[0], Route::Skip));
    assert_eq!(
        flat(routes[1].clone()),
        one(Gauge::Temp, &["garden", "outdoor", "c", "outdoor"], Conversion::FahrenheitToCelsius)
    );
    assert!(matches!(routes[2], Route::Apply(_)));
    assert!(matches!(routes[3], Route::DropPm25));
    assert_eq!(flat(routes[4].clone()).unwrap().len(), 2);
}
