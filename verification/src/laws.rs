//! What the routing of report fields promises, stated over all inputs.

use vstd::prelude::*;
use crate::config::{Args, opt_text};
use crate::routing::{
    Plan,
    Update,
    key_plan,
    lookup,
    piezo_rain_series,
    is_piezo_rain_key,
    pm25_report_invalid,
    set_one,
    upd,
    text_or,
    placement,
    pm25_unit,
    lemma_plan_well_formed,
};
use crate::schema::{Gauge, gauge_labels};
use crate::text::{is_prefix, is_suffix, has_infix, occurs_at, cut_last_bytes};
use crate::units::{Conversion, rain_conversion};

verus! {

/// Temperature channel `N` (the digit `'1'` to `'8'`) takes its location from
/// the `--tempN-location` option of that same number, and nothing else names
/// a channel.
pub proof fn lemma_channel_locations(cfg: Args)
    ensures
        cfg.channel_location('1') == opt_text(cfg.temp1_location),
        cfg.channel_location('2') == opt_text(cfg.temp2_location),
        cfg.channel_location('3') == opt_text(cfg.temp3_location),
        cfg.channel_location('4') == opt_text(cfg.temp4_location),
        cfg.channel_location('5') == opt_text(cfg.temp5_location),
        cfg.channel_location('6') == opt_text(cfg.temp6_location),
        cfg.channel_location('7') == opt_text(cfg.temp7_location),
        cfg.channel_location('8') == opt_text(cfg.temp8_location),
        forall|c: char| !('1' <= c <= '8') ==> (#[trigger] cfg.channel_location(c)) is None,
{
}

/// A report's PM2.5 readings are marked erroneous exactly where one of the two
/// channels reads `1000` while the battery of that channel's sensor reads
/// `1`: a report in which no channel reads `1000`, or in which every channel
/// that does has a battery reading other than `1`, is never marked.
pub proof fn lemma_pm25_marking(data: Seq<(Seq<char>, Seq<char>)>)
    ensures
        pm25_report_invalid(data) ==> lookup(data, "pm25_ch1"@) == Some("1000"@) || lookup(
            data,
            "pm25_ch2"@,
        ) == Some("1000"@),
        pm25_report_invalid(data) <==> ((lookup(data, "pm25_ch1"@) == Some("1000"@) && lookup(
            data,
            "pm25batt1"@,
        ) == Some("1"@)) || (lookup(data, "pm25_ch2"@) == Some("1000"@) && lookup(
            data,
            "pm25batt2"@,
        ) == Some("1"@))),
{
}

/// The battery readings that are levels are exactly those of the WH57
/// lightning sensor and of the two PM2.5 sensors (`wh57batt`, `pm25batt1`,
/// `pm25batt2`): each of them sets the battery level gauge, labelled with the
/// station and the key, as it is; no other field sets that gauge.
pub proof fn lemma_battery_levels(cfg: Args, station: Seq<char>, key: Seq<char>, invalid: bool)
    ensures
        key == "wh57batt"@ || key == "pm25batt1"@ || key == "pm25batt2"@ ==> key_plan(
            cfg,
            station,
            key,
            invalid,
        ) == set_one(upd(Gauge::BatteryLevel, seq![station, key], Conversion::Identity)),
        key_plan(cfg, station, key, invalid) matches Plan::Apply(us) ==> forall|i: int|
            0 <= i < us.len() && (#[trigger] us[i]).gauge == Gauge::BatteryLevel ==> key
                == "wh57batt"@ || key == "pm25batt1"@ || key == "pm25batt2"@,
{
    reveal_strlit("PASSKEY");
    reveal_strlit("dateutc");
    reveal_strlit("runtime");
    reveal_strlit("heap");
    reveal_strlit("stationtype");
    reveal_strlit("freq");
    reveal_strlit("model");
    reveal_strlit("interval");
    reveal_strlit("winddir");
    reveal_strlit("uv");
    reveal_strlit("lightning_num");
    reveal_strlit("lightning_time");
    reveal_strlit("ws90cap_volt");
    reveal_strlit("wh57batt");
    reveal_strlit("pm25batt1");
    reveal_strlit("pm25batt2");
    reveal_strlit("batt");
    if key == "wh57batt"@ || key == "pm25batt1"@ || key == "pm25batt2"@ {
        assert(key.subrange(4, 8) =~= "batt"@);
        assert(occurs_at(key, "batt"@, 4));
    }
}

/// The piezo rain keys of the WS90 are exactly `rrain_piezo`, `erain_piezo`,
/// `hrain_piezo`, `drain_piezo`, `wrain_piezo`, `mrain_piezo` and
/// `yrain_piezo`: each of them sets the rainfall gauge labelled with the
/// station, the key itself and the configured rain unit, converted into that
/// unit.
pub proof fn lemma_piezo_rain_keys(cfg: Args, station: Seq<char>, key: Seq<char>, invalid: bool)
    ensures
        key == "rrain_piezo"@ || key == "erain_piezo"@ || key == "hrain_piezo"@ || key == "drain_piezo"@ || key == "wrain_piezo"@ || key == "mrain_piezo"@ || key == "yrain_piezo"@ ==> key_plan(cfg, station, key, invalid) == set_one(
            upd(Gauge::Rain, seq![station, key, cfg.rain_unit@], rain_conversion(cfg.rain_unit@)),
        ),
{
    reveal_strlit("PASSKEY");
    reveal_strlit("dateutc");
    reveal_strlit("runtime");
    reveal_strlit("heap");
    reveal_strlit("stationtype");
    reveal_strlit("freq");
    reveal_strlit("model");
    reveal_strlit("interval");
    reveal_strlit("winddir");
    reveal_strlit("uv");
    reveal_strlit("lightning_num");
    reveal_strlit("lightning_time");
    reveal_strlit("ws90cap_volt");
    reveal_strlit("soilmoisture");
    reveal_strlit("soilad");
    reveal_strlit("pm25");
    reveal_strlit("humidity");
    reveal_strlit("solarradiation");
    reveal_strlit("temp");
    reveal_strlit("barom");
    reveal_strlit("vpd");
    reveal_strlit("windspeedmph");
    reveal_strlit("windgustmph");
    reveal_strlit("maxdailygust");
    reveal_strlit("piezo");
    reveal_strlit("batt");
    reveal_strlit("rrain_piezo");
    reveal_strlit("erain_piezo");
    reveal_strlit("hrain_piezo");
    reveal_strlit("drain_piezo");
    reveal_strlit("wrain_piezo");
    reveal_strlit("mrain_piezo");
    reveal_strlit("yrain_piezo");
    if key == "rrain_piezo"@ || key == "erain_piezo"@ || key == "hrain_piezo"@ || key == "drain_piezo"@ || key == "wrain_piezo"@ || key == "mrain_piezo"@ || key == "yrain_piezo"@ {
        assert(key.len() == 11);
        assert forall|j: int| 0 <= j < key.len() implies key[j] != 'b' by {}
        assert forall|i: int| !occurs_at(key, "batt"@, i) by {
            if occurs_at(key, "batt"@, i) {
                assert(key.subrange(i, i + 4)[0] == key[i]);
            }
        }
        assert(key.skip(6) =~= "piezo"@);
        assert(is_suffix("piezo"@, key));
        assert(key[1] == 'r' && key[2] == 'a');
        assert(!is_prefix("humidity"@, key)) by {
            if is_prefix("humidity"@, key) {
                assert(key.take(8)[1] == key[1]);
            }
        }
        assert(!is_prefix("barom"@, key)) by {
            if is_prefix("barom"@, key) {
                assert(key.take(5)[1] == key[1]);
            }
        }
        assert(!is_prefix("temp"@, key)) by {
            if is_prefix("temp"@, key) {
                assert(key.take(4)[0] == key[0]);
            }
        }
        assert(!is_prefix("pm25"@, key)) by {
            if is_prefix("pm25"@, key) {
                assert(key.take(4)[1] == key[1]);
            }
        }
        if key == "rrain_piezo"@ {
            assert(piezo_rain_series()[0].0 == key);
        }
        if key == "erain_piezo"@ {
            assert(piezo_rain_series()[1].0 == key);
        }
        if key == "hrain_piezo"@ {
            assert(piezo_rain_series()[2].0 == key);
        }
        if key == "drain_piezo"@ {
            assert(piezo_rain_series()[3].0 == key);
        }
        if key == "wrain_piezo"@ {
            assert(piezo_rain_series()[4].0 == key);
        }
        if key == "mrain_piezo"@ {
            assert(piezo_rain_series()[5].0 == key);
        }
        if key == "yrain_piezo"@ {
            assert(piezo_rain_series()[6].0 == key);
        }
        assert(is_piezo_rain_key(key));
        assert(!is_prefix("soilmoisture"@, key));
        assert(!is_prefix("soilad"@, key)) by {
            if is_prefix("soilad"@, key) {
                assert(key.take(6)[0] == key[0]);
            }
        }
    }
}

/// The unit that a gauge family's `unit` label names: the configured unit of
/// its quantity, or the fixed unit in which the station reports it; `None`
/// for families without a unit label.
pub open spec fn unit_of(cfg: Args, g: Gauge) -> Option<Seq<char>> {
    match g {
        Gauge::Temp => Some(cfg.temperature_unit@),
        Gauge::Humidity | Gauge::SoilMoisture => Some("percent"@),
        Gauge::Pm25 => Some(pm25_unit()),
        Gauge::BatteryVoltage | Gauge::Ws90 => Some("volt"@),
        Gauge::SolarRadiation => Some(cfg.irradiance_unit@),
        Gauge::Barom | Gauge::Vpd => Some(cfg.pressure_unit@),
        Gauge::Wind => Some(cfg.wind_unit@),
        Gauge::Rain => Some(cfg.rain_unit@),
        Gauge::Lightning => Some(cfg.distance_unit@),
        _ => None,
    }
}

/// The location that belongs with a temperature or humidity sensor label: the
/// configured outdoor or indoor location for those sensors (their own names
/// where none is configured), and for channel `chN` the location configured
/// for channel `N` (the label itself where none is).
pub open spec fn location_of(cfg: Args, sensor: Seq<char>) -> Seq<char> {
    if sensor == "outdoor"@ {
        text_or(opt_text(cfg.outdoor_location), "outdoor"@)
    } else if sensor == "indoor"@ {
        text_or(opt_text(cfg.indoor_location), "indoor"@)
    } else {
        text_or(cfg.channel_location(sensor.last()), sensor)
    }
}

/// What the label values of an update are, family by family: the station
/// first, then the sensor or series, the unit, the standard and the location,
/// each where the family has it.
pub open spec fn labels_fit(cfg: Args, station: Seq<char>, u: Update) -> bool {
    &&& u.labels.len() == gauge_labels(u.gauge).len()
    &&& u.labels[0] == station
    &&& match u.gauge {
        Gauge::Temp | Gauge::Humidity => unit_of(cfg, u.gauge) == Some(u.labels[2]) && u.labels[3]
            == location_of(cfg, u.labels[1]),
        Gauge::Pm25 => (u.labels[1] == "avg_24h"@ || u.labels[1] == "realtime"@) && unit_of(
            cfg,
            u.gauge,
        ) == Some(u.labels[3]),
        Gauge::Aqi => u.labels[1] == cfg.aqi_standard@,
        Gauge::SolarRadiation | Gauge::Vpd | Gauge::Lightning => unit_of(cfg, u.gauge) == Some(
            u.labels[1],
        ),
        Gauge::BatteryVoltage | Gauge::Barom | Gauge::Wind | Gauge::Rain | Gauge::Ws90
        | Gauge::SoilMoisture => unit_of(cfg, u.gauge) == Some(u.labels[2]),
        _ => true,
    }
}

/// The location that a temperature or humidity reading is placed at belongs
/// with the sensor label it is given.
proof fn lemma_placement_location(cfg: Args, name: Seq<char>, outdoor: Seq<char>, indoor: Seq<char>)
    ensures
        placement(cfg, name, outdoor, indoor).1 == location_of(cfg, placement(cfg, name, outdoor, indoor).0),
{
    reveal_strlit("outdoor");
    reveal_strlit("indoor");
    reveal_strlit("ch");
    if name != outdoor && name != indoor {
        let ch = if name.len() > 0 {
            name.last()
        } else {
            '0'
        };
        let label = "ch"@ + seq![ch];
        assert(label.len() == 3);
        assert(label.last() == ch);
    }
}

/// Every update of a field's plan has label values that fit its family.
proof fn lemma_plan_labels_fit(cfg: Args, station: Seq<char>, key: Seq<char>, invalid: bool)
    ensures
        key_plan(cfg, station, key, invalid) matches Plan::Apply(us) ==> forall|i: int|
            0 <= i < us.len() ==> labels_fit(cfg, station, #[trigger] us[i]),
{
    lemma_placement_location(cfg, key, "humidity"@, "humidityin"@);
    if let Some(stripped) = cut_last_bytes(key, 1) {
        lemma_placement_location(cfg, stripped, "temp"@, "tempin"@);
    }
}

/// Under each label name of a family stands what the name says, for values
/// that fit the family.
proof fn lemma_fit_labels_mean(cfg: Args, station: Seq<char>, u: Update, p: int)
    requires
        labels_fit(cfg, station, u),
        0 <= p < gauge_labels(u.gauge).len(),
    ensures
        ({
            let name = gauge_labels(u.gauge)[p];
            &&& p < u.labels.len()
            &&& name == "station"@ ==> u.labels[p] == station
            &&& name == "unit"@ ==> unit_of(cfg, u.gauge) == Some(u.labels[p])
            &&& name == "standard"@ ==> u.labels[p] == cfg.aqi_standard@
            &&& name == "series"@ ==> u.labels[p] == "avg_24h"@ || u.labels[p] == "realtime"@
            &&& name == "location"@ ==> u.labels[p] == location_of(cfg, u.labels[1])
        }),
{
    reveal_strlit("station");
    reveal_strlit("sensor");
    reveal_strlit("unit");
    reveal_strlit("location");
    reveal_strlit("series");
    reveal_strlit("standard");
    assert("sensor"@[2] != "series"@[2]);
    assert("location"@[0] != "standard"@[0]);
    assert("station"@.len() == 7 && "sensor"@.len() == 6 && "unit"@.len() == 4);
    assert("location"@.len() == 8 && "series"@.len() == 6 && "standard"@.len() == 8);
    let names = gauge_labels(u.gauge);
    if p == 0 {
        assert(names[0] == "station"@);
    } else if p == 1 {
        assert(names[1] != "station"@ && names[1] != "location"@);
    } else if p == 2 {
        assert(names[2] != "station"@ && names[2] != "location"@ && names[2] != "standard"@
            && names[2] != "series"@);
    } else {
        assert(p == 3);
        assert(names[3] != "station"@ && names[3] != "standard"@ && names[3] != "series"@);
    }
}

/// Each label value stands under the label name that says what it is: under
/// `station` the station that sent the report, under `unit` the unit of the
/// value (`unit_of`), under `standard` the configured air quality standard,
/// under `series` one of the two PM2.5 series, and under a temperature's or
/// humidity's `location` the location that belongs with its `sensor`.
pub proof fn lemma_label_meanings(cfg: Args, station: Seq<char>, key: Seq<char>, invalid: bool)
    ensures
        key_plan(cfg, station, key, invalid) matches Plan::Apply(us) ==> forall|i: int, p: int|
            #![trigger us[i], gauge_labels(us[i].gauge)[p]]
            0 <= i < us.len() && 0 <= p < gauge_labels(us[i].gauge).len() ==> {
                let u = us[i];
                let name = gauge_labels(u.gauge)[p];
                &&& p < u.labels.len()
                &&& name == "station"@ ==> u.labels[p] == station
                &&& name == "unit"@ ==> unit_of(cfg, u.gauge) == Some(u.labels[p])
                &&& name == "standard"@ ==> u.labels[p] == cfg.aqi_standard@
                &&& name == "series"@ ==> u.labels[p] == "avg_24h"@ || u.labels[p] == "realtime"@
                &&& name == "location"@ ==> u.labels[p] == location_of(cfg, u.labels[1])
            },
{
    lemma_plan_labels_fit(cfg, station, key, invalid);
    if let Plan::Apply(us) = key_plan(cfg, station, key, invalid) {
        assert forall|i: int, p: int|
            #![trigger us[i], gauge_labels(us[i].gauge)[p]]
            0 <= i < us.len() && 0 <= p < gauge_labels(us[i].gauge).len() implies {
                let u = us[i];
                let name = gauge_labels(u.gauge)[p];
                &&& p < u.labels.len()
                &&& name == "station"@ ==> u.labels[p] == station
                &&& name == "unit"@ ==> unit_of(cfg, u.gauge) == Some(u.labels[p])
                &&& name == "standard"@ ==> u.labels[p] == cfg.aqi_standard@
                &&& name == "series"@ ==> u.labels[p] == "avg_24h"@ || u.labels[p] == "realtime"@
                &&& name == "location"@ ==> u.labels[p] == location_of(cfg, u.labels[1])
            } by {
            lemma_fit_labels_mean(cfg, station, us[i], p);
        }
    }
}

/// A field whose key contains `batt` is a battery reading: a level for the
/// WH57 and the two PM2.5 sensors, a voltage (labelled `volt`) for the soil
/// and WS90 sensors, and a status for every other sensor; each labelled with
/// the station and the key, and set as it is.
pub proof fn lemma_battery_kinds(cfg: Args, station: Seq<char>, key: Seq<char>, invalid: bool)
    requires
        has_infix(key, "batt"@),
    ensures
        key_plan(cfg, station, key, invalid) == if key == "wh57batt"@ || key == "pm25batt1"@ || key
            == "pm25batt2"@ {
            set_one(upd(Gauge::BatteryLevel, seq![station, key], Conversion::Identity))
        } else if is_prefix("soil"@, key) || is_prefix("ws90"@, key) {
            set_one(upd(Gauge::BatteryVoltage, seq![station, key, "volt"@], Conversion::Identity))
        } else {
            set_one(upd(Gauge::BatteryStatus, seq![station, key], Conversion::Identity))
        },
{
    reveal_strlit("PASSKEY");
    reveal_strlit("dateutc");
    reveal_strlit("runtime");
    reveal_strlit("heap");
    reveal_strlit("stationtype");
    reveal_strlit("freq");
    reveal_strlit("model");
    reveal_strlit("interval");
    reveal_strlit("winddir");
    reveal_strlit("uv");
    reveal_strlit("lightning_num");
    reveal_strlit("lightning_time");
    reveal_strlit("ws90cap_volt");
    reveal_strlit("wh57batt");
    reveal_strlit("pm25batt1");
    reveal_strlit("pm25batt2");
    reveal_strlit("batt");
    reveal_strlit("soil");
    reveal_strlit("ws90");
    reveal_strlit("volt");
    assert forall|j: int| 0 <= j < "PASSKEY"@.len() implies "PASSKEY"@[j] != 'b' by {}
    assert forall|j: int| 0 <= j < "dateutc"@.len() implies "dateutc"@[j] != 'b' by {}
    assert forall|j: int| 0 <= j < "runtime"@.len() implies "runtime"@[j] != 'b' by {}
    assert forall|j: int| 0 <= j < "heap"@.len() implies "heap"@[j] != 'b' by {}
    assert forall|j: int| 0 <= j < "stationtype"@.len() implies "stationtype"@[j] != 'b' by {}
    assert forall|j: int| 0 <= j < "freq"@.len() implies "freq"@[j] != 'b' by {}
    assert forall|j: int| 0 <= j < "model"@.len() implies "model"@[j] != 'b' by {}
    assert forall|j: int| 0 <= j < "interval"@.len() implies "interval"@[j] != 'b' by {}
    assert forall|j: int| 0 <= j < "winddir"@.len() implies "winddir"@[j] != 'b' by {}
    assert forall|j: int| 0 <= j < "uv"@.len() implies "uv"@[j] != 'b' by {}
    assert forall|j: int| 0 <= j < "lightning_num"@.len() implies "lightning_num"@[j] != 'b' by {}
    assert forall|j: int| 0 <= j < "lightning_time"@.len() implies "lightning_time"@[j] != 'b' by {}
    assert forall|j: int| 0 <= j < "ws90cap_volt"@.len() implies "ws90cap_volt"@[j] != 'b' by {}
    let i = choose|i: int| occurs_at(key, "batt"@, i);
    assert(key.subrange(i, i + 4)[0] == key[i]);
    assert(key[i] == 'b');
}

/// A field whose key ends in `piezo` but is none of the seven piezo rain
/// keys sets no gauge (where no earlier rule of the routing claims it: a
/// battery key, or a soil, PM2.5, humidity, temperature or barometer key).
pub proof fn lemma_other_piezo_keys(cfg: Args, station: Seq<char>, key: Seq<char>, invalid: bool)
    requires
        is_suffix("piezo"@, key),
        key != "rrain_piezo"@ && key != "erain_piezo"@ && key != "hrain_piezo"@ && key != "drain_piezo"@ && key != "wrain_piezo"@ && key != "mrain_piezo"@ && key != "yrain_piezo"@,
        !has_infix(key, "batt"@),
        !is_prefix("soilmoisture"@, key),
        !is_prefix("soilad"@, key),
        !is_prefix("pm25"@, key),
        !is_prefix("humidity"@, key),
        !is_prefix("temp"@, key),
        !is_prefix("barom"@, key),
    ensures
        key_plan(cfg, station, key, invalid) == Plan::Apply(Seq::<Update>::empty()),
{
    reveal_strlit("PASSKEY");
    reveal_strlit("dateutc");
    reveal_strlit("runtime");
    reveal_strlit("heap");
    reveal_strlit("stationtype");
    reveal_strlit("freq");
    reveal_strlit("model");
    reveal_strlit("interval");
    reveal_strlit("winddir");
    reveal_strlit("uv");
    reveal_strlit("lightning_num");
    reveal_strlit("lightning_time");
    reveal_strlit("ws90cap_volt");
    reveal_strlit("solarradiation");
    reveal_strlit("vpd");
    reveal_strlit("windspeedmph");
    reveal_strlit("windgustmph");
    reveal_strlit("maxdailygust");
    reveal_strlit("rrain_piezo");
    reveal_strlit("erain_piezo");
    reveal_strlit("hrain_piezo");
    reveal_strlit("drain_piezo");
    reveal_strlit("wrain_piezo");
    reveal_strlit("mrain_piezo");
    reveal_strlit("yrain_piezo");
    reveal_strlit("piezo");
    assert(key.last() == key.skip(key.len() - 5)[4]);
    assert(key.last() == 'o');
    assert forall|i: int| 0 <= i < piezo_rain_series().len() implies #[trigger] piezo_rain_series()[i].0 != key by {
        if i == 0 {} else if i == 1 {} else if i == 2 {} else if i == 3 {} else if i == 4 {} else if i == 5 {} else {}
    }
}

/// Every gauge family is labelled with the station first; each family whose
/// values have a unit has a `unit` label; and temperatures and humidities
/// have a `sensor` and a `location` label.
pub proof fn lemma_label_names_present(cfg: Args, g: Gauge)
    ensures
        gauge_labels(g).len() > 0,
        gauge_labels(g)[0] == "station"@,
        unit_of(cfg, g) is Some ==> exists|p: int| 0 <= p < gauge_labels(g).len() && #[trigger] gauge_labels(g)[p] == "unit"@,
        g == Gauge::Temp || g == Gauge::Humidity ==> gauge_labels(g)[1] == "sensor"@ && gauge_labels(g)[3] == "location"@,
{
    if unit_of(cfg, g) is Some {
        let names = gauge_labels(g);
        match g {
            Gauge::Temp | Gauge::Humidity | Gauge::Pm25 => assert(names[names.len() - 1] == "unit"@ || names[2] == "unit"@),
            Gauge::SolarRadiation | Gauge::Vpd | Gauge::Lightning => assert(names[1] == "unit"@),
            _ => assert(names[2] == "unit"@),
        }
    }
}

} // verus!
