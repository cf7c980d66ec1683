//! Which gauges each field of a station report feeds.
//!
//! Every field of a report is classified by its key alone: the gauge family,
//! the label values (station first) and the unit conversion of each gauge
//! that its reading sets. The reading itself is set only where it parses as a
//! number; that happens where the readings are applied.

use vstd::prelude::*;
use crate::config::{Args, opt_text, opt_as_str};
use crate::pattern::{
    Pattern,
    ends_with_ascii_channel,
    may_end_with_channel,
    PatternError,
    channel_pattern,
    channel_pattern_text,
    regex_first_group,
    regex_replace_first,
};
use crate::schema::{Gauge, gauge_labels};
use crate::text::{
    is_prefix,
    is_suffix,
    occurs_at,
    has_infix,
    replaced,
    cut_last_bytes,
    text_eq,
    starts_with,
    ends_with,
    contains_text,
    replace_all,
    cut_bytes_from_end,
};
use crate::units::{
    Conversion,
    temperature_conversion,
    pressure_conversion,
    wind_conversion,
    rain_conversion,
    irradiance_conversion,
    distance_conversion,
    aqi_conversion,
    convert_temperature,
    convert_pressure,
    convert_wind,
    convert_rain,
    convert_irradiance,
    convert_distance,
    calculate_aqi,
};

verus! {

/// A gauge to set: its family, its label values and the conversion that
/// turns the reading into its value.
pub struct Update {
    pub gauge: Gauge,
    pub labels: Seq<Seq<char>>,
    pub conversion: Conversion,
}

/// What becomes of one field of a report.
pub enum Plan {
    /// The field carries no reading; nothing is parsed or set.
    Skip,
    /// A PM2.5 reading that the station marked as erroneous; it is dropped.
    DropPm25,
    /// Where the value parses as a number, each of these gauges is set.
    Apply(Seq<Update>),
    /// Where the value parses as a number, the key cannot be cut at the byte
    /// at which its suffix is removed, and handling the report fails.
    Abort,
}

/// The texts of a sequence of strings.
pub open spec fn texts(v: Seq<String>) -> Seq<Seq<char>> {
    v.map_values(|s: String| s@)
}

/// A gauge to set, with label values that are strings.
#[derive(Clone, Debug, PartialEq)]
pub struct GaugeUpdate {
    pub gauge: Gauge,
    pub labels: Vec<String>,
    pub conversion: Conversion,
}

impl View for GaugeUpdate {
    type V = Update;

    open spec fn view(&self) -> Update {
        Update { gauge: self.gauge, labels: texts(self.labels@), conversion: self.conversion }
    }
}

/// What becomes of one field of a report.
#[derive(Clone, Debug, PartialEq)]
pub enum Route {
    Skip,
    DropPm25,
    Apply(Vec<GaugeUpdate>),
    Abort,
}

/// The models of a sequence of gauge updates.
pub open spec fn updates_view(v: Seq<GaugeUpdate>) -> Seq<Update> {
    v.map_values(|u: GaugeUpdate| u@)
}

impl View for Route {
    type V = Plan;

    open spec fn view(&self) -> Plan {
        match self {
            Route::Skip => Plan::Skip,
            Route::DropPm25 => Plan::DropPm25,
            Route::Apply(v) => Plan::Apply(updates_view(v@)),
            Route::Abort => Plan::Abort,
        }
    }
}

/// The update of `gauge` with `labels` and `conversion`.
pub open spec fn upd(gauge: Gauge, labels: Seq<Seq<char>>, conversion: Conversion) -> Update {
    Update { gauge, labels, conversion }
}

/// Set exactly the one gauge `u`.
pub open spec fn set_one(u: Update) -> Plan {
    Plan::Apply(seq![u])
}

/// `o`'s text, or `d` where there is none.
pub open spec fn text_or(o: Option<Seq<char>>, d: Seq<char>) -> Seq<char> {
    match o {
        Some(t) => t,
        None => d,
    }
}

/// The sensor label and the location of a temperature or humidity reading
/// whose key (without its unit suffix) is `name`: the outdoor and indoor
/// sensors have their own names, any other names a channel by its last
/// character, as `ch` and that character.
pub open spec fn placement(cfg: Args, name: Seq<char>, outdoor: Seq<char>, indoor: Seq<char>) -> (
    Seq<char>,
    Seq<char>,
) {
    if name == outdoor {
        ("outdoor"@, text_or(opt_text(cfg.outdoor_location), "outdoor"@))
    } else if name == indoor {
        ("indoor"@, text_or(opt_text(cfg.indoor_location), "indoor"@))
    } else {
        let ch = if name.len() > 0 {
            name.last()
        } else {
            '0'
        };
        let label = "ch"@ + seq![ch];
        (label, text_or(cfg.channel_location(ch), label))
    }
}

/// Keys that carry station bookkeeping or station information rather than
/// readings.
pub open spec fn is_ignored_key(key: Seq<char>) -> bool {
    ||| key == "PASSKEY"@
    ||| key == "dateutc"@
    ||| key == "runtime"@
    ||| key == "heap"@
    ||| key == "stationtype"@
    ||| key == "freq"@
    ||| key == "model"@
    ||| key == "interval"@
}

/// Battery keys whose reading is a level rather than a status or a voltage.
pub open spec fn is_battery_level_key(key: Seq<char>) -> bool {
    key == "wh57batt"@ || key == "pm25batt1"@ || key == "pm25batt2"@
}

/// The piezo rain keys of the WS90 and the rainfall series each stands for.
pub open spec fn piezo_rain_series() -> Seq<(Seq<char>, Seq<char>)> {
    seq![
        ("rrain_piezo"@, "rainrate"@),
        ("erain_piezo"@, "eventrain"@),
        ("hrain_piezo"@, "hourlyrain"@),
        ("drain_piezo"@, "dailyrain"@),
        ("wrain_piezo"@, "weeklyrain"@),
        ("mrain_piezo"@, "monthlyrain"@),
        ("yrain_piezo"@, "yearlyrain"@),
    ]
}

/// `key` is one of the piezo rain keys.
pub open spec fn is_piezo_rain_key(key: Seq<char>) -> bool {
    exists|i: int| 0 <= i < piezo_rain_series().len() && #[trigger] piezo_rain_series()[i].0 == key
}

/// The unit label of PM2.5 concentrations.
pub open spec fn pm25_unit() -> Seq<char> {
    "\u{03bc}gm3"@
}

/// The gauges that a PM2.5 reading of channel `sensor` sets, where
/// `remainder` is its key without the `pm25_` prefixes and the channel: the
/// concentration, in the `avg_24h` or the `realtime` series, and for the
/// 24-hour average also the air quality index of `standard`.
pub open spec fn pm25_plan(
    standard: Seq<char>,
    station: Seq<char>,
    sensor: Seq<char>,
    remainder: Seq<char>,
) -> Seq<Update> {
    let average = is_prefix("avg_24h"@, remainder);
    let series = if average {
        "avg_24h"@
    } else {
        "realtime"@
    };
    let reading = upd(Gauge::Pm25, seq![station, series, sensor, pm25_unit()], Conversion::Identity);
    if average {
        seq![
            reading,
            upd(Gauge::Aqi, seq![station, standard], aqi_conversion(standard)),
        ]
    } else {
        seq![reading]
    }
}

/// What becomes of a battery field.
pub open spec fn battery_plan(station: Seq<char>, key: Seq<char>) -> Plan {
    if is_battery_level_key(key) {
        set_one(upd(Gauge::BatteryLevel, seq![station, key], Conversion::Identity))
    } else if is_prefix("soil"@, key) || is_prefix("ws90"@, key) {
        set_one(upd(Gauge::BatteryVoltage, seq![station, key, "volt"@], Conversion::Identity))
    } else {
        set_one(upd(Gauge::BatteryStatus, seq![station, key], Conversion::Identity))
    }
}

/// What becomes of a PM2.5 field, given whether the station marked the
/// report's PM2.5 readings as erroneous.
pub open spec fn pm25_key_plan(cfg: Args, station: Seq<char>, key: Seq<char>, invalid: bool) -> Plan {
    if invalid {
        Plan::DropPm25
    } else {
        let stripped = replaced(key, "pm25_"@, seq![]);
        match regex_first_group(channel_pattern_text(), stripped) {
            Some(sensor) => Plan::Apply(
                pm25_plan(
                    cfg.aqi_standard@,
                    station,
                    sensor,
                    regex_replace_first(channel_pattern_text(), stripped, seq![]),
                ),
            ),
            None => Plan::Apply(seq![]),
        }
    }
}

/// The plan of a PM2.5 field whose key, without its `pm25_` prefixes, is
/// `stripped`, where that text is ASCII at its end: a channel `ch` and an
/// ASCII digit at the end is the sensor and the rest of the text tells the
/// series; without a channel at its end no gauge is set.
pub open spec fn pm25_ascii_plan(cfg: Args, station: Seq<char>, stripped: Seq<char>) -> Plan {
    if ends_with_ascii_channel(stripped) {
        Plan::Apply(
            pm25_plan(
                cfg.aqi_standard@,
                station,
                stripped.skip(stripped.len() - 3),
                stripped.take(stripped.len() - 3),
            ),
        )
    } else {
        Plan::Apply(seq![])
    }
}

/// A PM2.5 reading key: it starts with `pm25` and is not a battery key.
pub open spec fn is_pm25_reading_key(key: Seq<char>) -> bool {
    is_prefix("pm25"@, key) && !has_infix(key, "batt"@)
}

/// What becomes of a temperature field (the key ends in a one-byte unit).
pub open spec fn temp_plan(cfg: Args, station: Seq<char>, key: Seq<char>) -> Plan {
    match cut_last_bytes(key, 1) {
        Some(stripped) => {
            let (label, location) = placement(cfg, stripped, "temp"@, "tempin"@);
            set_one(
                upd(
                    Gauge::Temp,
                    seq![station, label, cfg.temperature_unit@, location],
                    temperature_conversion(cfg.temperature_unit@),
                ),
            )
        },
        None => Plan::Abort,
    }
}

/// What becomes of a barometer field (the key ends in the unit `in`).
pub open spec fn barom_plan(cfg: Args, station: Seq<char>, key: Seq<char>) -> Plan {
    match cut_last_bytes(key, 2) {
        Some(stripped) => set_one(
            upd(
                Gauge::Barom,
                seq![
                    station,
                    if stripped == "baromrel"@ {
                        "relative"@
                    } else {
                        "absolute"@
                    },
                    cfg.pressure_unit@,
                ],
                pressure_conversion(cfg.pressure_unit@),
            ),
        ),
        None => Plan::Abort,
    }
}

/// What becomes of a rainfall field (the key ends in the unit `in`).
pub open spec fn rain_plan(cfg: Args, station: Seq<char>, key: Seq<char>) -> Plan {
    match cut_last_bytes(key, 2) {
        Some(stripped) => set_one(
            upd(
                Gauge::Rain,
                seq![station, replaced(stripped, "rain"@, seq![]), cfg.rain_unit@],
                rain_conversion(cfg.rain_unit@),
            ),
        ),
        None => Plan::Abort,
    }
}

/// What becomes of a wind field: the speed in the configured unit, and for
/// the current speed also its force on the Beaufort scale.
pub open spec fn wind_plan(cfg: Args, station: Seq<char>, key: Seq<char>) -> Plan {
    let speed = |sensor: Seq<char>|
        upd(
            Gauge::Wind,
            seq![station, sensor, cfg.wind_unit@],
            wind_conversion(cfg.wind_unit@),
        );
    if key == "windspeedmph"@ {
        Plan::Apply(
            seq![
                upd(Gauge::WindBeaufort, seq![station], Conversion::MphToBeaufort),
                speed("windspeed"@),
            ],
        )
    } else if key == "windgustmph"@ {
        set_one(speed("windgust"@))
    } else {
        set_one(speed("maxdailygust"@))
    }
}

/// What becomes of the field `key` of a report from `station`, where
/// `pm25_invalid` tells whether the station marked the report's PM2.5
/// readings as erroneous.
pub open spec fn key_plan(cfg: Args, station: Seq<char>, key: Seq<char>, pm25_invalid: bool) -> Plan {
    if is_ignored_key(key) {
        Plan::Skip
    } else if key == "winddir"@ {
        set_one(upd(Gauge::WindDir, seq![station], Conversion::Identity))
    } else if key == "uv"@ {
        set_one(upd(Gauge::Uv, seq![station], Conversion::Identity))
    } else if key == "lightning_num"@ {
        set_one(upd(Gauge::LightningNum, seq![station], Conversion::Identity))
    } else if key == "lightning_time"@ {
        set_one(upd(Gauge::LightningTime, seq![station], Conversion::Identity))
    } else if key == "ws90cap_volt"@ {
        set_one(upd(Gauge::Ws90, seq![station, key, "volt"@], Conversion::Identity))
    } else if has_infix(key, "batt"@) {
        battery_plan(station, key)
    } else if is_prefix("soilmoisture"@, key) {
        set_one(upd(Gauge::SoilMoisture, seq![station, key, "percent"@], Conversion::Identity))
    } else if is_prefix("soilad"@, key) {
        Plan::Skip
    } else if is_prefix("pm25"@, key) && !is_prefix("pm25batt"@, key) {
        pm25_key_plan(cfg, station, key, pm25_invalid)
    } else if is_prefix("humidity"@, key) {
        let (label, location) = placement(cfg, key, "humidity"@, "humidityin"@);
        set_one(
            upd(Gauge::Humidity, seq![station, label, "percent"@, location], Conversion::Identity),
        )
    } else if key == "solarradiation"@ {
        set_one(
            upd(
                Gauge::SolarRadiation,
                seq![station, cfg.irradiance_unit@],
                irradiance_conversion(cfg.irradiance_unit@),
            ),
        )
    } else if is_prefix("temp"@, key) {
        temp_plan(cfg, station, key)
    } else if is_prefix("barom"@, key) {
        barom_plan(cfg, station, key)
    } else if key == "vpd"@ {
        set_one(
            upd(
                Gauge::Vpd,
                seq![station, cfg.pressure_unit@],
                pressure_conversion(cfg.pressure_unit@),
            ),
        )
    } else if key == "windspeedmph"@ || key == "windgustmph"@ || key == "maxdailygust"@ {
        wind_plan(cfg, station, key)
    } else if is_suffix("piezo"@, key) {
        if is_piezo_rain_key(key) {
            set_one(
                upd(
                    Gauge::Rain,
                    seq![station, key, cfg.rain_unit@],
                    rain_conversion(cfg.rain_unit@),
                ),
            )
        } else {
            Plan::Apply(seq![])
        }
    } else if has_infix(key, "rain"@) {
        rain_plan(cfg, station, key)
    } else if key == "lightning"@ {
        set_one(
            upd(
                Gauge::Lightning,
                seq![station, cfg.distance_unit@],
                distance_conversion(cfg.distance_unit@),
            ),
        )
    } else {
        Plan::Apply(seq![])
    }
}

/// The texts of the fields of a report.
pub open spec fn fields(data: Seq<(String, String)>) -> Seq<(Seq<char>, Seq<char>)> {
    data.map_values(|f: (String, String)| (f.0@, f.1@))
}

/// The value of the first field named `key`.
pub open spec fn lookup(data: Seq<(Seq<char>, Seq<char>)>, key: Seq<char>) -> Option<Seq<char>>
    decreases data.len(),
{
    if data.len() == 0 {
        None
    } else if data[0].0 == key {
        Some(data[0].1)
    } else {
        lookup(data.drop_first(), key)
    }
}

/// A PM2.5 channel whose sensor battery is low (`1`) reads `1000`, which the
/// station sends in place of a reading.
pub open spec fn pm25_channel_invalid(
    data: Seq<(Seq<char>, Seq<char>)>,
    battery: Seq<char>,
    reading: Seq<char>,
) -> bool {
    lookup(data, battery) == Some("1"@) && lookup(data, reading) == Some("1000"@)
}

/// The report's PM2.5 readings are erroneous: one of its two channels is.
pub open spec fn pm25_report_invalid(data: Seq<(Seq<char>, Seq<char>)>) -> bool {
    pm25_channel_invalid(data, "pm25batt1"@, "pm25_ch1"@) || pm25_channel_invalid(
        data,
        "pm25batt2"@,
        "pm25_ch2"@,
    )
}

/// An owned copy of `s`.
fn owned(s: &str) -> (r: String)
    ensures
        r@ == s@,
{
    String::from_str(s)
}

/// Owned label values.
fn labels1(a: &str) -> (r: Vec<String>)
    ensures
        texts(r@) == seq![a@],
{
    let r = vec![owned(a)];
    assert(texts(r@) =~= seq![a@]);
    r
}

/// Owned label values.
fn labels2(a: &str, b: &str) -> (r: Vec<String>)
    ensures
        texts(r@) == seq![a@, b@],
{
    let r = vec![owned(a), owned(b)];
    assert(texts(r@) =~= seq![a@, b@]);
    r
}

/// Owned label values.
fn labels3(a: &str, b: &str, c: &str) -> (r: Vec<String>)
    ensures
        texts(r@) == seq![a@, b@, c@],
{
    let r = vec![owned(a), owned(b), owned(c)];
    assert(texts(r@) =~= seq![a@, b@, c@]);
    r
}

/// Owned label values.
fn labels4(a: &str, b: &str, c: &str, d: &str) -> (r: Vec<String>)
    ensures
        texts(r@) == seq![a@, b@, c@, d@],
{
    let r = vec![owned(a), owned(b), owned(c), owned(d)];
    assert(texts(r@) =~= seq![a@, b@, c@, d@]);
    r
}

/// Set exactly one gauge.
fn set_single(gauge: Gauge, labels: Vec<String>, conversion: Conversion) -> (r: Route)
    ensures
        r@ == set_one(upd(gauge, texts(labels@), conversion)),
{
    let v = vec![GaugeUpdate { gauge, labels, conversion }];
    assert(updates_view(v@) =~= seq![upd(gauge, texts(labels@), conversion)]);
    Route::Apply(v)
}

/// Set no gauge.
fn set_none() -> (r: Route)
    ensures
        r@ == Plan::Apply(seq![]),
{
    let v: Vec<GaugeUpdate> = Vec::new();
    assert(updates_view(v@) =~= seq![]);
    Route::Apply(v)
}

/// The sensor label and the location of a temperature or humidity reading
/// whose key (without its unit suffix) is `name`.
pub fn placement_of(cfg: &Args, name: &str, outdoor: &str, indoor: &str) -> (r: (String, String))
    ensures
        (r.0@, r.1@) == placement(*cfg, name@, outdoor@, indoor@),
{
    if text_eq(name, outdoor) {
        let location = match opt_as_str(&cfg.outdoor_location) {
            Some(l) => owned(l),
            None => owned("outdoor"),
        };
        (owned("outdoor"), location)
    } else if text_eq(name, indoor) {
        let location = match opt_as_str(&cfg.indoor_location) {
            Some(l) => owned(l),
            None => owned("indoor"),
        };
        (owned("indoor"), location)
    } else {
        let n = name.unicode_len();
        let mut label = owned("ch");
        let ch = if n > 0 {
            let c = name.get_char(n - 1);
            let last = name.substring_char(n - 1, n);
            assert(last@ =~= seq![c]);
            label.append(last);
            c
        } else {
            label.append("0");
            proof {
                reveal_strlit("0");
            }
            assert("0"@ =~= seq!['0']);
            '0'
        };
        let location = match cfg.temp_location(ch) {
            Some(l) => owned(l),
            None => label.clone(),
        };
        (label, location)
    }
}

/// The gauges that a PM2.5 reading of channel `sensor` sets, where
/// `remainder` is its key without the `pm25_` prefixes and the channel.
pub fn pm25_updates(standard: &str, station: &str, sensor: &str, remainder: &str) -> (r: Vec<
    GaugeUpdate,
>)
    ensures
        updates_view(r@) == pm25_plan(standard@, station@, sensor@, remainder@),
{
    let average = starts_with(remainder, "avg_24h");
    let series = if average {
        "avg_24h"
    } else {
        "realtime"
    };
    let mut r = vec![
        GaugeUpdate {
            gauge: Gauge::Pm25,
            labels: labels4(station, series, sensor, "\u{03bc}gm3"),
            conversion: Conversion::Identity,
        },
    ];
    if average {
        r.push(
            GaugeUpdate {
                gauge: Gauge::Aqi,
                labels: labels2(station, standard),
                conversion: calculate_aqi(standard),
            },
        );
    }
    assert(updates_view(r@) =~= pm25_plan(standard@, station@, sensor@, remainder@));
    r
}

/// The piezo rain keys of the WS90, each with the rainfall series it stands
/// for.
pub fn rain_piezo_maps() -> (r: Vec<(&'static str, &'static str)>)
    ensures
        r@.map_values(|p: (&'static str, &'static str)| (p.0@, p.1@)) == piezo_rain_series(),
{
    let r = vec![
        ("rrain_piezo", "rainrate"),
        ("erain_piezo", "eventrain"),
        ("hrain_piezo", "hourlyrain"),
        ("drain_piezo", "dailyrain"),
        ("wrain_piezo", "weeklyrain"),
        ("mrain_piezo", "monthlyrain"),
        ("yrain_piezo", "yearlyrain"),
    ];
    assert(r@.map_values(|p: (&'static str, &'static str)| (p.0@, p.1@)) =~= piezo_rain_series());
    r
}

/// Whether `key` is one of the piezo rain keys.
pub fn is_piezo_rain(key: &str) -> (r: bool)
    ensures
        r == is_piezo_rain_key(key@),
{
    let maps = rain_piezo_maps();
    let ghost series = piezo_rain_series();
    let mut i: usize = 0;
    while i < maps.len()
        invariant
            maps@.map_values(|p: (&'static str, &'static str)| (p.0@, p.1@)) == series,
            series == piezo_rain_series(),
            i <= maps.len(),
            forall|j: int| 0 <= j < i ==> series[j].0 != key@,
        decreases maps.len() - i,
    {
        assert(series[i as int].0 == maps@[i as int].0@);
        if text_eq(maps[i].0, key) {
            return true;
        }
        i = i + 1;
    }
    assert forall|j: int| 0 <= j < series.len() implies #[trigger] series[j].0 != key@ by {
        assert(j < i);
    }
    false
}

/// What becomes of a PM2.5 field.
fn route_pm25(cfg: &Args, pattern: &Pattern, station: &str, key: &str, invalid: bool) -> (r: Route)
    requires
        pattern.text() == channel_pattern_text(),
    ensures
        r@ == pm25_key_plan(*cfg, station@, key@, invalid),
        !invalid && (ends_with_ascii_channel(replaced(key@, "pm25_"@, seq![])) || !may_end_with_channel(
            replaced(key@, "pm25_"@, seq![]),
        )) ==> r@ == pm25_ascii_plan(*cfg, station@, replaced(key@, "pm25_"@, seq![])),
{
    if invalid {
        return Route::DropPm25;
    }
    proof {
        reveal_strlit("pm25_");
        reveal_strlit("");
    }
    let stripped = replace_all(key, "pm25_", "");
    assert(""@ =~= Seq::<char>::empty());
    match pattern.captures_first_group(stripped.as_str()) {
        Some(sensor) => {
            let remainder = pattern.replace(stripped.as_str(), "");
            Route::Apply(
                pm25_updates(
                    cfg.aqi_standard.as_str(),
                    station,
                    sensor.as_str(),
                    remainder.as_str(),
                ),
            )
        },
        None => set_none(),
    }
}

/// What becomes of a battery field.
fn route_battery(station: &str, key: &str) -> (r: Route)
    ensures
        r@ == battery_plan(station@, key@),
{
    if text_eq(key, "wh57batt") || text_eq(key, "pm25batt1") || text_eq(key, "pm25batt2") {
        set_single(Gauge::BatteryLevel, labels2(station, key), Conversion::Identity)
    } else if starts_with(key, "soil") || starts_with(key, "ws90") {
        set_single(Gauge::BatteryVoltage, labels3(station, key, "volt"), Conversion::Identity)
    } else {
        set_single(Gauge::BatteryStatus, labels2(station, key), Conversion::Identity)
    }
}

/// What becomes of a temperature field.
fn route_temp(cfg: &Args, station: &str, key: &str) -> (r: Route)
    ensures
        r@ == temp_plan(*cfg, station@, key@),
{
    match cut_bytes_from_end(key, 1) {
        Some(stripped) => {
            let (label, location) = placement_of(cfg, stripped, "temp", "tempin");
            set_single(
                Gauge::Temp,
                labels4(station, label.as_str(), cfg.temperature_unit.as_str(), location.as_str()),
                convert_temperature(cfg.temperature_unit.as_str()),
            )
        },
        None => Route::Abort,
    }
}

/// What becomes of a barometer field.
fn route_barom(cfg: &Args, station: &str, key: &str) -> (r: Route)
    ensures
        r@ == barom_plan(*cfg, station@, key@),
{
    match cut_bytes_from_end(key, 2) {
        Some(stripped) => {
            let label = if text_eq(stripped, "baromrel") {
                "relative"
            } else {
                "absolute"
            };
            set_single(
                Gauge::Barom,
                labels3(station, label, cfg.pressure_unit.as_str()),
                convert_pressure(cfg.pressure_unit.as_str()),
            )
        },
        None => Route::Abort,
    }
}

/// What becomes of a rainfall field.
fn route_rain(cfg: &Args, station: &str, key: &str) -> (r: Route)
    ensures
        r@ == rain_plan(*cfg, station@, key@),
{
    match cut_bytes_from_end(key, 2) {
        Some(stripped) => {
            proof {
                reveal_strlit("rain");
                reveal_strlit("");
            }
            let sensor = replace_all(stripped, "rain", "");
            assert(""@ =~= Seq::<char>::empty());
            set_single(
                Gauge::Rain,
                labels3(station, sensor.as_str(), cfg.rain_unit.as_str()),
                convert_rain(cfg.rain_unit.as_str()),
            )
        },
        None => Route::Abort,
    }
}

/// What becomes of a wind field.
fn route_wind(cfg: &Args, station: &str, key: &str) -> (r: Route)
    ensures
        r@ == wind_plan(*cfg, station@, key@),
{
    let unit = cfg.wind_unit.as_str();
    if text_eq(key, "windspeedmph") {
        let v = vec![
            GaugeUpdate {
                gauge: Gauge::WindBeaufort,
                labels: labels1(station),
                conversion: Conversion::MphToBeaufort,
            },
            GaugeUpdate {
                gauge: Gauge::Wind,
                labels: labels3(station, "windspeed", unit),
                conversion: convert_wind(unit),
            },
        ];
        assert(updates_view(v@) =~= seq![
            upd(Gauge::WindBeaufort, seq![station@], Conversion::MphToBeaufort),
            upd(Gauge::Wind, seq![station@, "windspeed"@, unit@], wind_conversion(unit@)),
        ]);
        Route::Apply(v)
    } else if text_eq(key, "windgustmph") {
        set_single(Gauge::Wind, labels3(station, "windgust", unit), convert_wind(unit))
    } else {
        set_single(Gauge::Wind, labels3(station, "maxdailygust", unit), convert_wind(unit))
    }
}

/// What becomes of the field `key` of a report from `station`, where
/// `pm25_invalid` tells whether the station marked the report's PM2.5
/// readings as erroneous.
pub fn route_key(cfg: &Args, pattern: &Pattern, station: &str, key: &str, pm25_invalid: bool) -> (r:
    Route)
    requires
        pattern.text() == channel_pattern_text(),
    ensures
        r@ == key_plan(*cfg, station@, key@, pm25_invalid),
        is_pm25_reading_key(key@) && !pm25_invalid && (ends_with_ascii_channel(
            replaced(key@, "pm25_"@, seq![]),
        ) || !may_end_with_channel(replaced(key@, "pm25_"@, seq![]))) ==> r@ == pm25_ascii_plan(
            *cfg,
            station@,
            replaced(key@, "pm25_"@, seq![]),
        ),
{
    proof {
        if is_prefix("pm25"@, key@) {
            reveal_strlit("pm25");
            reveal_strlit("pm25batt");
            reveal_strlit("PASSKEY");
            reveal_strlit("dateutc");
            reveal_strlit("runtime");
            reveal_strlit("heap");
            reveal_strlit("stationtype");
            reveal_strlit("freq");
            reveal_strlit("model");
            reveal_strlit("interval");
            reveal_strlit("winddir");
            reveal_strlit("uv");
            reveal_strlit("lightning_num");
            reveal_strlit("lightning_time");
            reveal_strlit("ws90cap_volt");
            reveal_strlit("soilmoisture");
            reveal_strlit("soilad");
            assert(key@[0] == key@.take(4)[0]);
            assert(key@[0] == 'p');
            if is_prefix("pm25batt"@, key@) {
                assert(occurs_at(key@, "batt"@, 4)) by {
                    reveal_strlit("batt");
                    let t = key@.take(8);
                    assert(t == "pm25batt"@);
                    assert forall|j: int| 0 <= j < 4 implies key@.subrange(4, 8)[j] == "batt"@[j] by {
                        assert(key@.subrange(4, 8)[j] == t[4 + j]);
                    }
                    assert(key@.subrange(4, 8) =~= "batt"@);
                }
            }
        }
    }
    if text_eq(key, "PASSKEY") || text_eq(key, "dateutc") || text_eq(key, "runtime") || text_eq(
        key,
        "heap",
    ) || text_eq(key, "stationtype") || text_eq(key, "freq") || text_eq(key, "model") || text_eq(
        key,
        "interval",
    ) {
        Route::Skip
    } else if text_eq(key, "winddir") {
        set_single(Gauge::WindDir, labels1(station), Conversion::Identity)
    } else if text_eq(key, "uv") {
        set_single(Gauge::Uv, labels1(station), Conversion::Identity)
    } else if text_eq(key, "lightning_num") {
        set_single(Gauge::LightningNum, labels1(station), Conversion::Identity)
    } else if text_eq(key, "lightning_time") {
        set_single(Gauge::LightningTime, labels1(station), Conversion::Identity)
    } else if text_eq(key, "ws90cap_volt") {
        set_single(Gauge::Ws90, labels3(station, key, "volt"), Conversion::Identity)
    } else if contains_text(key, "batt") {
        route_battery(station, key)
    } else if starts_with(key, "soilmoisture") {
        set_single(Gauge::SoilMoisture, labels3(station, key, "percent"), Conversion::Identity)
    } else if starts_with(key, "soilad") {
        Route::Skip
    } else if starts_with(key, "pm25") && !starts_with(key, "pm25batt") {
        route_pm25(cfg, pattern, station, key, pm25_invalid)
    } else if starts_with(key, "humidity") {
        let (label, location) = placement_of(cfg, key, "humidity", "humidityin");
        set_single(
            Gauge::Humidity,
            labels4(station, label.as_str(), "percent", location.as_str()),
            Conversion::Identity,
        )
    } else if text_eq(key, "solarradiation") {
        let unit = cfg.irradiance_unit.as_str();
        set_single(Gauge::SolarRadiation, labels2(station, unit), convert_irradiance(unit))
    } else if starts_with(key, "temp") {
        route_temp(cfg, station, key)
    } else if starts_with(key, "barom") {
        route_barom(cfg, station, key)
    } else if text_eq(key, "vpd") {
        let unit = cfg.pressure_unit.as_str();
        set_single(Gauge::Vpd, labels2(station, unit), convert_pressure(unit))
    } else if text_eq(key, "windspeedmph") || text_eq(key, "windgustmph") || text_eq(
        key,
        "maxdailygust",
    ) {
        route_wind(cfg, station, key)
    } else if ends_with(key, "piezo") {
        if is_piezo_rain(key) {
            let unit = cfg.rain_unit.as_str();
            set_single(Gauge::Rain, labels3(station, key, unit), convert_rain(unit))
        } else {
            set_none()
        }
    } else if contains_text(key, "rain") {
        route_rain(cfg, station, key)
    } else if text_eq(key, "lightning") {
        let unit = cfg.distance_unit.as_str();
        set_single(Gauge::Lightning, labels2(station, unit), convert_distance(unit))
    } else {
        set_none()
    }
}

/// The value of the first field of `data` named `key`.
pub fn find_field<'a>(data: &'a Vec<(String, String)>, key: &str) -> (r: Option<&'a str>)
    ensures
        match r {
            Some(v) => lookup(fields(data@), key@) == Some(v@),
            None => lookup(fields(data@), key@) is None,
        },
{
    let mut i: usize = 0;
    assert(fields(data@).skip(0) =~= fields(data@));
    while i < data.len()
        invariant
            i <= data.len(),
            lookup(fields(data@), key@) == lookup(fields(data@).skip(i as int), key@),
        decreases data.len() - i,
    {
        let ghost rest = fields(data@).skip(i as int);
        assert(rest.drop_first() =~= fields(data@).skip(i + 1));
        assert(rest[0] == (data@[i as int].0@, data@[i as int].1@));
        if text_eq(data[i].0.as_str(), key) {
            return Some(data[i].1.as_str());
        }
        i = i + 1;
    }
    None
}

/// Whether the field `key` of `data` holds the text `expected`.
fn field_is(data: &Vec<(String, String)>, key: &str, expected: &str) -> (r: bool)
    ensures
        r == (lookup(fields(data@), key@) == Some(expected@)),
{
    match find_field(data, key) {
        Some(v) => text_eq(v, expected),
        None => false,
    }
}

/// Whether the station marked the PM2.5 readings of the report `data` as
/// erroneous: a channel whose sensor battery is low reads `1000`.
pub fn pm25_readings_invalid(data: &Vec<(String, String)>) -> (r: bool)
    ensures
        r == pm25_report_invalid(fields(data@)),
{
    (field_is(data, "pm25batt1", "1") && field_is(data, "pm25_ch1", "1000")) || (field_is(
        data,
        "pm25batt2",
        "1",
    ) && field_is(data, "pm25_ch2", "1000"))
}

/// What becomes of each field of the report `data` from `station`: the
/// `i`-th route is that of the `i`-th field. The channel pattern always
/// compiles, so this always succeeds.
pub fn process_report(cfg: &Args, station: &str, data: &Vec<(String, String)>) -> (r: Result<
    Vec<Route>,
    PatternError,
>)
    ensures
        r is Ok,
        r matches Ok(routes) ==> {
            &&& routes.len() == data.len()
            &&& forall|i: int|
                0 <= i < data.len() ==> #[trigger] routes@[i]@ == key_plan(
                    *cfg,
                    station@,
                    data@[i].0@,
                    pm25_report_invalid(fields(data@)),
                )
        },
{
    let pattern = match channel_pattern() {
        Ok(p) => p,
        Err(e) => return Err(e),
    };
    let invalid = pm25_readings_invalid(data);
    let mut routes: Vec<Route> = Vec::new();
    let mut i: usize = 0;
    while i < data.len()
        invariant
            pattern.text() == channel_pattern_text(),
            invalid == pm25_report_invalid(fields(data@)),
            i <= data.len(),
            routes.len() == i,
            forall|j: int|
                0 <= j < i ==> #[trigger] routes@[j]@ == key_plan(
                    *cfg,
                    station@,
                    data@[j].0@,
                    invalid,
                ),
        decreases data.len() - i,
    {
        let route = route_key(cfg, &pattern, station, data[i].0.as_str(), invalid);
        routes.push(route);
        i = i + 1;
    }
    Ok(routes)
}

/// The unit label of each gauge names the unit its value is converted into:
/// temperatures, pressures, wind speeds, rainfall, irradiance and distances
/// carry the configured unit and are converted into it, the air quality index
/// carries the configured standard and is computed by it, the Beaufort force
/// comes from the raw wind speed, and every other reading is set as it is.
pub open spec fn unit_consistent(cfg: Args, u: Update) -> bool {
    match u.gauge {
        Gauge::Temp => u.labels[2] == cfg.temperature_unit@ && u.conversion
            == temperature_conversion(cfg.temperature_unit@),
        Gauge::Barom => u.labels[2] == cfg.pressure_unit@ && u.conversion == pressure_conversion(
            cfg.pressure_unit@,
        ),
        Gauge::Vpd => u.labels[1] == cfg.pressure_unit@ && u.conversion == pressure_conversion(
            cfg.pressure_unit@,
        ),
        Gauge::Wind => u.labels[2] == cfg.wind_unit@ && u.conversion == wind_conversion(
            cfg.wind_unit@,
        ),
        Gauge::Rain => u.labels[2] == cfg.rain_unit@ && u.conversion == rain_conversion(
            cfg.rain_unit@,
        ),
        Gauge::SolarRadiation => u.labels[1] == cfg.irradiance_unit@ && u.conversion
            == irradiance_conversion(cfg.irradiance_unit@),
        Gauge::Lightning => u.labels[1] == cfg.distance_unit@ && u.conversion
            == distance_conversion(cfg.distance_unit@),
        Gauge::Aqi => u.labels[1] == cfg.aqi_standard@ && u.conversion == aqi_conversion(
            cfg.aqi_standard@,
        ),
        Gauge::WindBeaufort => u.conversion == Conversion::MphToBeaufort,
        _ => u.conversion == Conversion::Identity,
    }
}

/// Every gauge that a field sets is given exactly as many label values as
/// its family has label names, the first of which is the station that sent
/// the report; its unit label names the unit its value is converted into;
/// and only the current wind speed sets the Beaufort force.
pub proof fn lemma_plan_well_formed(cfg: Args, station: Seq<char>, key: Seq<char>, invalid: bool)
    ensures
        key_plan(cfg, station, key, invalid) matches Plan::Apply(us) ==> forall|i: int|
            0 <= i < us.len() ==> {
                &&& #[trigger] us[i].labels.len() == gauge_labels(us[i].gauge).len()
                &&& us[i].labels[0] == station
                &&& unit_consistent(cfg, us[i])
                &&& us[i].gauge == Gauge::WindBeaufort ==> key == "windspeedmph"@
            },
{
}

/// Reports from different stations never set the same gauge series: every
/// gauge that a field from one station sets differs in its label values from
/// every gauge that a field from another station sets, whatever their keys.
pub proof fn lemma_stations_do_not_collide(
    cfg: Args,
    station1: Seq<char>,
    key1: Seq<char>,
    invalid1: bool,
    station2: Seq<char>,
    key2: Seq<char>,
    invalid2: bool,
)
    requires
        station1 != station2,
    ensures
        key_plan(cfg, station1, key1, invalid1) matches Plan::Apply(us1) ==> key_plan(
            cfg,
            station2,
            key2,
            invalid2,
        ) matches Plan::Apply(us2) ==> forall|i: int, j: int|
            0 <= i < us1.len() && 0 <= j < us2.len() ==> #[trigger] us1[i].labels
                != #[trigger] us2[j].labels,
{
    lemma_plan_well_formed(cfg, station1, key1, invalid1);
    lemma_plan_well_formed(cfg, station2, key2, invalid2);
    if let Plan::Apply(us1) = key_plan(cfg, station1, key1, invalid1) {
        if let Plan::Apply(us2) = key_plan(cfg, station2, key2, invalid2) {
            assert forall|i: int, j: int|
                0 <= i < us1.len() && 0 <= j < us2.len() implies #[trigger] us1[i].labels
                != #[trigger] us2[j].labels by {
                assert(us1[i].labels.len() == gauge_labels(us1[i].gauge).len());
                assert(us1[i].labels[0] == station1);
                assert(us2[j].labels[0] == station2);
            }
        }
    }
}

} // verus!
