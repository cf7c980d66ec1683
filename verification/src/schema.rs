//! The gauges that the exporter publishes: their metric names, help texts
//! and label names.

use vstd::prelude::*;

verus! {

/// One of the gauge families that the exporter publishes.
#[derive(Clone, Copy, Debug, PartialEq, Eq, Structural)]
pub enum Gauge {
    Temp,
    Humidity,
    WindDir,
    Uv,
    Pm25,
    Aqi,
    BatteryStatus,
    BatteryLevel,
    BatteryVoltage,
    SolarRadiation,
    Barom,
    Vpd,
    Wind,
    WindBeaufort,
    Rain,
    Lightning,
    LightningNum,
    LightningTime,
    Ws90,
    SoilMoisture,
}

/// The metric name of each gauge family.
pub open spec fn gauge_name(g: Gauge) -> Seq<char> {
    match g {
        Gauge::Temp => "ecowitt_temp"@,
        Gauge::Humidity => "ecowitt_humidity"@,
        Gauge::WindDir => "ecowitt_winddir"@,
        Gauge::Uv => "ecowitt_uv"@,
        Gauge::Pm25 => "ecowitt_pm25"@,
        Gauge::Aqi => "ecowitt_aqi"@,
        Gauge::BatteryStatus => "ecowitt_batterystatus"@,
        Gauge::BatteryLevel => "ecowitt_batterylevel"@,
        Gauge::BatteryVoltage => "ecowitt_batteryvoltage"@,
        Gauge::SolarRadiation => "ecowitt_solarradiation"@,
        Gauge::Barom => "ecowitt_barom"@,
        Gauge::Vpd => "ecowitt_vpd"@,
        Gauge::Wind => "ecowitt_windspeed"@,
        Gauge::WindBeaufort => "ecowitt_windspeed_beaufort"@,
        Gauge::Rain => "ecowitt_rain"@,
        Gauge::Lightning => "ecowitt_lightning"@,
        Gauge::LightningNum => "ecowitt_lightning_num"@,
        Gauge::LightningTime => "ecowitt_lightning_time"@,
        Gauge::Ws90 => "ecowitt_wh90"@,
        Gauge::SoilMoisture => "ecowitt_soilmoisture"@,
    }
}

/// The help text of each gauge family.
pub open spec fn gauge_help(g: Gauge) -> Seq<char> {
    match g {
        Gauge::Temp => "Temperature"@,
        Gauge::Humidity => "Relative humidity"@,
        Gauge::WindDir => "Wind direction"@,
        Gauge::Uv => "UV index"@,
        Gauge::Pm25 => "PM2.5 concentration"@,
        Gauge::Aqi => "Air quality index"@,
        Gauge::BatteryStatus => "Battery status"@,
        Gauge::BatteryLevel => "Battery level"@,
        Gauge::BatteryVoltage => "Battery voltage"@,
        Gauge::SolarRadiation => "Solar irradiance"@,
        Gauge::Barom => "Barometer"@,
        Gauge::Vpd => "Vapour pressure deficit"@,
        Gauge::Wind => "Wind speed"@,
        Gauge::WindBeaufort => "Wind Beaufort scale"@,
        Gauge::Rain => "Rainfall"@,
        Gauge::Lightning => "Lightning distance"@,
        Gauge::LightningNum => "Lightning daily count"@,
        Gauge::LightningTime => "Lightning last strike"@,
        Gauge::Ws90 => "WS90 electrical energy stored"@,
        Gauge::SoilMoisture => "Soil moisture"@,
    }
}

/// The label names of each gauge family, in the order in which label
/// values are given.
pub open spec fn gauge_labels(g: Gauge) -> Seq<Seq<char>> {
    match g {
        Gauge::Temp | Gauge::Humidity => seq!["station"@, "sensor"@, "unit"@, "location"@],
        Gauge::Pm25 => seq!["station"@, "series"@, "sensor"@, "unit"@],
        Gauge::Aqi => seq!["station"@, "standard"@],
        Gauge::BatteryStatus | Gauge::BatteryLevel => seq!["station"@, "sensor"@],
        Gauge::SolarRadiation | Gauge::Vpd | Gauge::Lightning => seq!["station"@, "unit"@],
        Gauge::BatteryVoltage | Gauge::Barom | Gauge::Wind | Gauge::Rain | Gauge::Ws90
        | Gauge::SoilMoisture => seq!["station"@, "sensor"@, "unit"@],
        Gauge::WindDir | Gauge::Uv | Gauge::WindBeaufort | Gauge::LightningNum
        | Gauge::LightningTime => seq!["station"@],
    }
}

/// The texts of a sequence of string slices.
pub open spec fn str_texts(v: Seq<&str>) -> Seq<Seq<char>> {
    v.map_values(|s: &str| s@)
}

/// Every gauge family, in the order in which the exporter registers them.
pub open spec fn all_gauges() -> Seq<Gauge> {
    seq![
        Gauge::Temp,
        Gauge::Humidity,
        Gauge::WindDir,
        Gauge::Uv,
        Gauge::Pm25,
        Gauge::Aqi,
        Gauge::BatteryStatus,
        Gauge::BatteryLevel,
        Gauge::BatteryVoltage,
        Gauge::SolarRadiation,
        Gauge::Barom,
        Gauge::Vpd,
        Gauge::Wind,
        Gauge::WindBeaufort,
        Gauge::Rain,
        Gauge::Lightning,
        Gauge::LightningNum,
        Gauge::LightningTime,
        Gauge::Ws90,
        Gauge::SoilMoisture,
    ]
}

/// The position of each gauge family in the registration order.
pub open spec fn gauge_index(g: Gauge) -> int {
    match g {
        Gauge::Temp => 0,
        Gauge::Humidity => 1,
        Gauge::WindDir => 2,
        Gauge::Uv => 3,
        Gauge::Pm25 => 4,
        Gauge::Aqi => 5,
        Gauge::BatteryStatus => 6,
        Gauge::BatteryLevel => 7,
        Gauge::BatteryVoltage => 8,
        Gauge::SolarRadiation => 9,
        Gauge::Barom => 10,
        Gauge::Vpd => 11,
        Gauge::Wind => 12,
        Gauge::WindBeaufort => 13,
        Gauge::Rain => 14,
        Gauge::Lightning => 15,
        Gauge::LightningNum => 16,
        Gauge::LightningTime => 17,
        Gauge::Ws90 => 18,
        Gauge::SoilMoisture => 19,
    }
}

/// Each gauge family stands at its own position in the registration order,
/// and that order lists twenty families.
pub proof fn lemma_gauge_index(g: Gauge)
    ensures
        all_gauges().len() == 20,
        0 <= gauge_index(g) < 20,
        all_gauges()[gauge_index(g)] == g,
{
}

impl Gauge {
    /// The position of this gauge family in the registration order.
    pub fn index(self) -> (r: usize)
        ensures
            r == gauge_index(self),
    {
        match self {
            Gauge::Temp => 0,
            Gauge::Humidity => 1,
            Gauge::WindDir => 2,
            Gauge::Uv => 3,
            Gauge::Pm25 => 4,
            Gauge::Aqi => 5,
            Gauge::BatteryStatus => 6,
            Gauge::BatteryLevel => 7,
            Gauge::BatteryVoltage => 8,
            Gauge::SolarRadiation => 9,
            Gauge::Barom => 10,
            Gauge::Vpd => 11,
            Gauge::Wind => 12,
            Gauge::WindBeaufort => 13,
            Gauge::Rain => 14,
            Gauge::Lightning => 15,
            Gauge::LightningNum => 16,
            Gauge::LightningTime => 17,
            Gauge::Ws90 => 18,
            Gauge::SoilMoisture => 19,
        }
    }

    /// The metric name of this gauge family.
    pub fn name(self) -> (r: &'static str)
        ensures
            r@ == gauge_name(self),
    {
        match self {
            Gauge::Temp => "ecowitt_temp",
            Gauge::Humidity => "ecowitt_humidity",
            Gauge::WindDir => "ecowitt_winddir",
            Gauge::Uv => "ecowitt_uv",
            Gauge::Pm25 => "ecowitt_pm25",
            Gauge::Aqi => "ecowitt_aqi",
            Gauge::BatteryStatus => "ecowitt_batterystatus",
            Gauge::BatteryLevel => "ecowitt_batterylevel",
            Gauge::BatteryVoltage => "ecowitt_batteryvoltage",
            Gauge::SolarRadiation => "ecowitt_solarradiation",
            Gauge::Barom => "ecowitt_barom",
            Gauge::Vpd => "ecowitt_vpd",
            Gauge::Wind => "ecowitt_windspeed",
            Gauge::WindBeaufort => "ecowitt_windspeed_beaufort",
            Gauge::Rain => "ecowitt_rain",
            Gauge::Lightning => "ecowitt_lightning",
            Gauge::LightningNum => "ecowitt_lightning_num",
            Gauge::LightningTime => "ecowitt_lightning_time",
            Gauge::Ws90 => "ecowitt_wh90",
            Gauge::SoilMoisture => "ecowitt_soilmoisture",
        }
    }

    /// The help text of this gauge family.
    pub fn help(self) -> (r: &'static str)
        ensures
            r@ == gauge_help(self),
    {
        match self {
            Gauge::Temp => "Temperature",
            Gauge::Humidity => "Relative humidity",
            Gauge::WindDir => "Wind direction",
            Gauge::Uv => "UV index",
            Gauge::Pm25 => "PM2.5 concentration",
            Gauge::Aqi => "Air quality index",
            Gauge::BatteryStatus => "Battery status",
            Gauge::BatteryLevel => "Battery level",
            Gauge::BatteryVoltage => "Battery voltage",
            Gauge::SolarRadiation => "Solar irradiance",
            Gauge::Barom => "Barometer",
            Gauge::Vpd => "Vapour pressure deficit",
            Gauge::Wind => "Wind speed",
            Gauge::WindBeaufort => "Wind Beaufort scale",
            Gauge::Rain => "Rainfall",
            Gauge::Lightning => "Lightning distance",
            Gauge::LightningNum => "Lightning daily count",
            Gauge::LightningTime => "Lightning last strike",
            Gauge::Ws90 => "WS90 electrical energy stored",
            Gauge::SoilMoisture => "Soil moisture",
        }
    }

    /// The label names of this gauge family.
    pub fn label_names(self) -> (r: Vec<&'static str>)
        ensures
            str_texts(r@) == gauge_labels(self),
    {
        let r = match self {
            Gauge::Temp | Gauge::Humidity => vec!["station", "sensor", "unit", "location"],
            Gauge::Pm25 => vec!["station", "series", "sensor", "unit"],
            Gauge::Aqi => vec!["station", "standard"],
            Gauge::BatteryStatus | Gauge::BatteryLevel => vec!["station", "sensor"],
            Gauge::SolarRadiation | Gauge::Vpd | Gauge::Lightning => vec!["station", "unit"],
            Gauge::BatteryVoltage | Gauge::Barom | Gauge::Wind | Gauge::Rain | Gauge::Ws90
            | Gauge::SoilMoisture => vec!["station", "sensor", "unit"],
            Gauge::WindDir | Gauge::Uv | Gauge::WindBeaufort | Gauge::LightningNum
            | Gauge::LightningTime => vec!["station"],
        };
        assert(str_texts(r@) =~= gauge_labels(self));
        r
    }
}

/// Every gauge family, in the order in which the exporter registers them.
pub fn all() -> (r: Vec<Gauge>)
    ensures
        r@ == all_gauges(),
{
    let r = vec![
        Gauge::Temp,
        Gauge::Humidity,
        Gauge::WindDir,
        Gauge::Uv,
        Gauge::Pm25,
        Gauge::Aqi,
        Gauge::BatteryStatus,
        Gauge::BatteryLevel,
        Gauge::BatteryVoltage,
        Gauge::SolarRadiation,
        Gauge::Barom,
        Gauge::Vpd,
        Gauge::Wind,
        Gauge::WindBeaufort,
        Gauge::Rain,
        Gauge::Lightning,
        Gauge::LightningNum,
        Gauge::LightningTime,
        Gauge::Ws90,
        Gauge::SoilMoisture,
    ];
    assert(r@ =~= all_gauges());
    r
}

} // verus!
