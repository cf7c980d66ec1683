use ecowitt_exporter::config::Args;
use ecowitt_exporter::metrics::Metrics;
use ecowitt_exporter::pattern::channel_pattern;
use ecowitt_exporter::routing::{route_key, GaugeUpdate, Route};
use ecowitt_exporter::schema::{all, Gauge};
use ecowitt_exporter::units::{
    calculate_aqi, convert_distance, convert_irradiance, convert_pressure, convert_rain,
    convert_temperature, convert_wind, Conversion,
};

const KEYS: &[&str] = &[
    "winddir", "uv", "lightning_num", "lightning_time", "ws90cap_volt", "wh57batt", "soilbatt1",
    "wh65batt", "soilmoisture1", "pm25_ch1", "pm25_avg_24h_ch1", "humidity", "humidityin",
    "humidity2", "solarradiation", "tempf", "tempinf", "temp4f", "baromrelin", "baromabsin", "vpd",
    "windspeedmph", "windgustmph", "maxdailygust", "rrain_piezo", "eventrainin", "dailyrainin",
    "lightning",
];

fn updates(cfg: &Args, station: &str, key: &str) -> Vec<GaugeUpdate> {
    let pattern = channel_pattern().unwrap();
    match route_key(cfg, &pattern, station, key, false) {
        Route::Apply(u) => u,
        _ => Vec::new(),
    }
}

fn custom() -> Args {
    let mut c = Args::default();
    c.temperature_unit = "k".into();
    c.pressure_unit = "mmhg".into();
    c.wind_unit = "fps".into();
    c.rain_unit = "in".into();
    c.distance_unit = "mi".into();
    c.irradiance_unit = "fc".into();
    c.aqi_standard = "nepm".into();
    c
}

#[test]
fn labels_fit_the_family_and_start_with_the_station() {
    for cfg in [Args::default(), custom()] {
        for key in KEYS {
            let us = updates(&cfg, "rooftop", key);
            assert!(!us.is_empty(), "{key}");
            for u in us {
                assert_eq!(u.labels.len(), u.gauge.label_names().len(), "{key}");
                assert_eq!(u.labels[0], "rooftop");
            }
        }
    }
}

#[test]
fn unit_labels_name_the_conversion() {
    let cfg = custom();
    for key in KEYS {
        for u in updates(&cfg, "rooftop", key) {
            match u.gauge {
                Gauge::Temp => {
                    assert_eq!(u.labels[2], "k");
                    assert_eq!(u.conversion, convert_temperature("k"));
                }
                Gauge::Barom => {
                    assert_eq!(u.labels[2], "mmhg");
                    assert_eq!(u.conversion, convert_pressure("mmhg"));
                }
                Gauge::Vpd => assert_eq!(u.conversion, convert_pressure(&u.labels[1])),
                Gauge::Wind => assert_eq!(u.conversion, convert_wind(&u.labels[2])),
                Gauge::Rain => assert_eq!(u.conversion, convert_rain(&u.labels[2])),
                Gauge::SolarRadiation => assert_eq!(u.conversion, convert_irradiance(&u.labels[1])),
                Gauge::Lightning => assert_eq!(u.conversion, convert_distance(&u.labels[1])),
                Gauge::Aqi => assert_eq!(u.conversion, calculate_aqi(&u.labels[1])),
                Gauge::WindBeaufort => {
                    assert_eq!(*key, "windspeedmph");
                    assert_eq!(u.conversion, Conversion::MphToBeaufort)
                }
                _ => assert_eq!(u.conversion, Conversion::Identity),
            }
        }
    }
}

#[test]
fn routed_updates_fit_the_registered_families() {
    let m = Metrics::new().unwrap();
    let cfg = Args::default();
    for key in KEYS {
        for u in updates(&cfg, "rooftop", key) {
            let labels: Vec<&str> = u.labels.iter().map(String::as_str).collect();
            let family = &m.families[u.gauge.index()];
            assert!(family.get_metric_with_label_values(&labels).is_ok(), "{key}");
        }
    }
    let names: Vec<String> = m.registry.gather().iter().map(|f| f.get_name().to_string()).collect();
    for g in all() {
        assert!(names.contains(&g.name().to_string()));
    }
}

#[test]
fn gauge_names_are_distinct() {
    let gauges = all();
    for (i, g) in gauges.iter().enumerate() {
        for h in &gauges[i + 1..] {
            assert_ne!(g.name(), h.name());
        }
    }
}

#[test]
fn stations_do_not_collide() {
    let cfg = Args::default();
    for k1 in KEYS {
        for k2 in KEYS {
            for a in updates(&cfg, "garden", k1) {
                for b in updates(&cfg, "rooftop", k2) {
                    assert_ne!(a.labels, b.labels);
                }
            }
        }
    }
}
