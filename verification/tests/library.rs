use ecowitt_exporter::config::Args;
use ecowitt_exporter::form::{gather_fields, parse_report};
use ecowitt_exporter::metrics::Metrics;
use ecowitt_exporter::pattern::{channel_pattern, Pattern};
use ecowitt_exporter::schema::{all, Gauge};
use ecowitt_exporter::text::{
    char_width, contains_text, cut_bytes_from_end, ends_with, occurs_in_at, replace_all,
    starts_with, text_eq,
};
use ecowitt_exporter::units::{
    calculate_aqi, convert_distance, convert_irradiance, convert_pressure, convert_rain,
    convert_temperature, convert_wind, Conversion,
};

#[test]
fn default_configuration() {
    let a = Args::default();
    assert_eq!(a.listen_port, 8088);
    assert_eq!(a.listen_address, "0.0.0.0");
    assert_eq!(a.temperature_unit, "c");
    assert_eq!(a.pressure_unit, "hpa");
    assert_eq!(a.wind_unit, "kmh");
    assert_eq!(a.rain_unit, "mm");
    assert_eq!(a.distance_unit, "km");
    assert_eq!(a.irradiance_unit, "wm2");
    assert_eq!(a.aqi_standard, "epa");
    assert_eq!(a.station_id, "ecowitt");
    assert_eq!(a.outdoor_location, None);
    assert!(!a.debug);
}

#[test]
fn unit_selection() {
    assert_eq!(convert_temperature("c"), Conversion::FahrenheitToCelsius);
    assert_eq!(convert_temperature("k"), Conversion::FahrenheitToKelvin);
    assert_eq!(convert_temperature("f"), Conversion::Identity);
    assert_eq!(convert_pressure("hpa"), Conversion::InHgToHpa);
    assert_eq!(convert_pressure("mmhg"), Conversion::InHgToMmHg);
    assert_eq!(convert_pressure("inhg"), Conversion::Identity);
    assert_eq!(convert_wind("kmh"), Conversion::MphToKmh);
    assert_eq!(convert_wind("ms"), Conversion::MphToMetresPerSecond);
    assert_eq!(convert_wind("knots"), Conversion::MphToKnots);
    assert_eq!(convert_wind("fps"), Conversion::MphToFeetPerSecond);
    assert_eq!(convert_wind("mph"), Conversion::Identity);
    assert_eq!(convert_rain("mm"), Conversion::InchesToMm);
    assert_eq!(convert_rain("in"), Conversion::Identity);
    assert_eq!(convert_irradiance("lx"), Conversion::WattsToLux);
    assert_eq!(convert_irradiance("klx"), Conversion::WattsToKilolux);
    assert_eq!(convert_irradiance("fc"), Conversion::WattsToFootCandles);
    assert_eq!(convert_irradiance("wm2"), Conversion::Identity);
    assert_eq!(convert_distance("mi"), Conversion::KmToMiles);
    assert_eq!(convert_distance("km"), Conversion::Identity);
    assert_eq!(calculate_aqi("epa"), Conversion::AqiEpa);
    assert_eq!(calculate_aqi("mep"), Conversion::AqiMep);
    assert_eq!(calculate_aqi("nepm"), Conversion::AqiNepm);
    assert_eq!(calculate_aqi("uk"), Conversion::AqiUk);
    assert_eq!(calculate_aqi("other"), Conversion::AqiUk);
}

#[test]
fn text_operations() {
    assert!(text_eq("abc", "abc"));
    assert!(!text_eq("abc", "abd"));
    assert!(!text_eq("abc", "ab"));
    assert!(starts_with("pm25_ch1", "pm25"));
    assert!(!starts_with("pm2", "pm25"));
    assert!(ends_with("drain_piezo", "piezo"));
    assert!(!ends_with("piezo_x", "piezo"));
    assert!(contains_text("dailyrainin", "rain"));
    assert!(contains_text("x", ""));
    assert!(!contains_text("wh65bat", "batt"));
    assert!(occurs_in_at("abcdef", "cd", 2));
    assert!(!occurs_in_at("abcdef", "cd", 3));
    assert!(!occurs_in_at("abc", "c", 9));
    assert_eq!(replace_all("pm25_pm25_ch1", "pm25_", ""), "ch1");
    assert_eq!(replace_all("rainrain", "rain", "x"), "xx");
    assert_eq!(replace_all("\u{e9}rain\u{e9}", "rain", ""), "\u{e9}\u{e9}");
    assert_eq!(char_width('a'), 1);
    assert_eq!(char_width('\u{e9}'), 2);
    assert_eq!(char_width('\u{20ac}'), 3);
    assert_eq!(char_width('\u{1f600}'), 4);
    assert_eq!(cut_bytes_from_end("tempf", 1), Some("temp"));
    assert_eq!(cut_bytes_from_end("ab\u{e9}", 2), Some("ab"));
    assert_eq!(cut_bytes_from_end("ab\u{e9}", 1), None);
    assert_eq!(cut_bytes_from_end("a", 2), None);
    assert_eq!(cut_bytes_from_end("abc", 0), Some("abc"));
}

#[test]
fn channel_pattern_matches() {
    let p = channel_pattern().unwrap();
    assert_eq!(p.captures_first_group("avg_24h_ch2"), Some("ch2".to_string()));
    assert_eq!(p.captures_first_group("ch2x"), None);
    assert_eq!(p.captures_first_group("chx"), None);
    assert_eq!(p.replace("avg_24h_ch2", ""), "avg_24h_");
    assert_eq!(p.replace("total", ""), "total");
}

#[test]
fn invalid_pattern_is_refused() {
    assert!(Pattern::new("(ch").is_err());
    assert!(Pattern::new("a+").is_ok());
}

#[test]
fn gauge_schema() {
    let gauges = all();
    assert_eq!(gauges.len(), 20);
    for (i, g) in gauges.iter().enumerate() {
        assert_eq!(g.index(), i);
    }
    assert_eq!(Gauge::Temp.name(), "ecowitt_temp");
    assert_eq!(Gauge::Ws90.name(), "ecowitt_wh90");
    assert_eq!(Gauge::WindBeaufort.help(), "Wind Beaufort scale");
    assert_eq!(Gauge::Pm25.label_names(), vec!["station", "series", "sensor", "unit"]);
    assert_eq!(Gauge::Uv.label_names(), vec!["station"]);
}

#[test]
fn metrics_register_every_family() {
    let m = Metrics::new().unwrap();
    assert_eq!(m.families.len(), 20);
    m.families[Gauge::Temp.index()]
        .with_label_values(&["garden", "outdoor", "c", "outdoor"])
        .set(10.0);
    let families = m.registry.gather();
    assert_eq!(families.len(), 1);
    assert_eq!(families[0].get_name(), "ecowitt_temp");
}

#[test]
fn report_body_last_value_wins() {
    let fields = parse_report("tempf=50.0&humidity=40&tempf=51.5");
    assert_eq!(
        fields,
        vec![
            ("tempf".to_string(), "51.5".to_string()),
            ("humidity".to_string(), "40".to_string())
        ]
    );
}

#[test]
fn report_body_decoding() {
    let fields = parse_report("model=GW1100A_V2.0.4&stationtype=GW1100A+V2&x=%CE%BC&empty&&");
    assert_eq!(
        fields,
        vec![
            ("model".to_string(), "GW1100A_V2.0.4".to_string()),
            ("stationtype".to_string(), "GW1100A V2".to_string()),
            ("x".to_string(), "\u{03bc}".to_string()),
            ("empty".to_string(), "".to_string()),
        ]
    );
    assert!(parse_report("").is_empty());
}

#[test]
fn gathering_fields() {
    let pairs = vec![
        ("a".to_string(), "1".to_string()),
        ("b".to_string(), "2".to_string()),
        ("a".to_string(), "3".to_string()),
        ("c".to_string(), "4".to_string()),
        ("b".to_string(), "5".to_string()),
    ];
    assert_eq!(
        gather_fields(pairs),
        vec![
            ("a".to_string(), "3".to_string()),
            ("b".to_string(), "5".to_string()),
            ("c".to_string(), "4".to_string())
        ]
    );
}

#[test]
fn separately_made_metrics_share_no_gauge() {
    let m1 = Metrics::new().unwrap();
    let m2 = Metrics::new().unwrap();
    m1.families[Gauge::Temp.index()]
        .with_label_values(&["garden", "outdoor", "c", "outdoor"])
        .set(21.5);
    assert_eq!(m1.registry.gather().len(), 1);
    assert!(m2.registry.gather().is_empty());
    assert_eq!(
        m2.families[Gauge::Temp.index()]
            .with_label_values(&["garden", "outdoor", "c", "outdoor"])
            .get(),
        0.0
    );
}
