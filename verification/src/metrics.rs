//! The Prometheus gauge families of the exporter, made and registered by the
//! `prometheus` crate.

use vstd::prelude::*;
use crate::schema::{Gauge, gauge_name, gauge_help, gauge_labels, str_texts, all_gauges, all, gauge_index, lemma_gauge_index};
use crate::config::Args;
use crate::routing::{Plan, key_plan, lemma_plan_well_formed};

verus! {

#[verifier::external_type_specification]
#[verifier::external_body]
pub struct ExPrometheusError(prometheus::Error);

/// The gauge families of the exporter and the registry that they are
/// registered with: `families[i]` is the `i`-th family added.
///
/// A `prometheus::GaugeVec` cannot be declared here, as the crate keeps its
/// builder type private; what the families are is given by
/// `metric_families`, and what the registry holds by `registered_families`.
/// Its users read the registry (gathering) and set gauges, but register
/// nothing else into it.
#[verifier::external_body]
pub struct Metrics {
    pub families: Vec<prometheus::GaugeVec>,
    pub registry: prometheus::Registry,
}

/// The metric name, help text and label names of a gauge family.
pub struct FamilySpec {
    pub name: Seq<char>,
    pub help: Seq<char>,
    pub labels: Seq<Seq<char>>,
}

/// The families of `m`, in the order in which they were added.
pub uninterp spec fn metric_families(m: Metrics) -> Seq<FamilySpec>;

/// The families registered with the registry of `m`, in the order in which
/// they were registered.
pub uninterp spec fn registered_families(m: Metrics) -> Seq<FamilySpec>;

/// A character that may start a Prometheus name: an ASCII letter, `_`, and
/// where `colon` holds, `:`.
pub open spec fn is_name_start(c: char, colon: bool) -> bool {
    ('a' <= c <= 'z') || ('A' <= c <= 'Z') || c == '_' || (colon && c == ':')
}

/// A Prometheus name: a start character followed by start characters and
/// ASCII digits.
pub open spec fn is_valid_name(s: Seq<char>, colon: bool) -> bool {
    &&& s.len() > 0
    &&& is_name_start(s[0], colon)
    &&& forall|i: int| 1 <= i < s.len() ==> is_name_start(#[trigger] s[i], colon) || ('0' <= s[i] <= '9')
}

/// What `prometheus::GaugeVec::new` accepts: a non-empty help text, a valid
/// metric name (`[a-zA-Z_:][a-zA-Z0-9_:]*`) and valid, distinct label names
/// (`[a-zA-Z_][a-zA-Z0-9_]*`).
pub open spec fn gauge_vec_accepts(name: Seq<char>, help: Seq<char>, labels: Seq<Seq<char>>) -> bool {
    &&& help.len() > 0
    &&& is_valid_name(name, true)
    &&& forall|i: int| 0 <= i < labels.len() ==> is_valid_name(#[trigger] labels[i], false)
    &&& forall|i: int, j: int| 0 <= i < j < labels.len() ==> labels[i] != labels[j]
}

/// One step of 64-bit FNV-1a: the byte is xored in, then the state is
/// multiplied by the FNV prime, wrapping.
pub open spec fn fnv1a_step(h: u64, b: u8) -> u64 {
    ((h ^ (b as u64)) * 0x100000001b3u64) as u64
}

/// 64-bit FNV-1a of `bytes`, from the state `h`.
pub open spec fn fnv1a(h: u64, bytes: Seq<u8>) -> u64
    decreases bytes.len(),
{
    if bytes.len() == 0 {
        h
    } else {
        fnv1a(fnv1a_step(h, bytes[0]), bytes.drop_first())
    }
}

/// The bytes of ASCII text.
pub open spec fn ascii_bytes(s: Seq<char>) -> Seq<u8> {
    s.map_values(|c: char| c as u8)
}

/// The descriptor id that `prometheus` gives a family named `name` (ASCII)
/// without constant labels: FNV-1a-64 of the name's bytes followed by the
/// separator byte `0xFF`.
pub open spec fn descriptor_id(name: Seq<char>) -> u64 {
    fnv1a(0xcbf29ce484222325u64, ascii_bytes(name).push(0xffu8))
}

/// No family of `families` has the descriptor id of `name`.
pub open spec fn id_is_fresh(families: Seq<FamilySpec>, name: Seq<char>) -> bool {
    forall|i: int| 0 <= i < families.len() ==> descriptor_id(#[trigger] families[i].name) != descriptor_id(name)
}

/// The descriptor id of each gauge family's metric name.
pub open spec fn gauge_descriptor_id(g: Gauge) -> u64 {
    match g {
        Gauge::Temp => 0x23191cfd1a1eabcau64,
        Gauge::Humidity => 0x1d26ab13973ed267u64,
        Gauge::WindDir => 0x7ae608f54e5cfd3du64,
        Gauge::Uv => 0x6148dcba27d5d4bdu64,
        Gauge::Pm25 => 0xb535906609cec52au64,
        Gauge::Aqi => 0xde3429f88ca2222du64,
        Gauge::BatteryStatus => 0xd7959086212cfc0bu64,
        Gauge::BatteryLevel => 0x144770e1b614cf17u64,
        Gauge::BatteryVoltage => 0x0ef50e2159ed7dcfu64,
        Gauge::SolarRadiation => 0x803017d97e6ac2e8u64,
        Gauge::Barom => 0xb3e9b6bd40738605u64,
        Gauge::Vpd => 0xf5b4524b4c75c388u64,
        Gauge::Wind => 0x5a05079511e944d9u64,
        Gauge::WindBeaufort => 0xe5714a74014317bcu64,
        Gauge::Rain => 0x033254ed642a138eu64,
        Gauge::Lightning => 0x74f60599a96ce464u64,
        Gauge::LightningNum => 0x4333398e6644a771u64,
        Gauge::LightningTime => 0xb5b0bf0af316b94eu64,
        Gauge::Ws90 => 0xff31cba58d27a9d2u64,
        Gauge::SoilMoisture => 0xc7507624a9673cfbu64,
    }
}

/// Each gauge family's descriptor id is the one in `gauge_descriptor_id`.
pub proof fn lemma_descriptor_id(g: Gauge)
    ensures
        descriptor_id(gauge_name(g)) == gauge_descriptor_id(g),
{
    match g {
        Gauge::Temp => {
            reveal_strlit("ecowitt_temp");
            assert(ascii_bytes("ecowitt_temp"@).push(0xffu8) =~= seq![101u8, 99u8, 111u8, 119u8, 105u8, 116u8, 116u8, 95u8, 116u8, 101u8, 109u8, 112u8, 255u8]);
            reveal_with_fuel(fnv1a, 14);
            assert(fnv1a_step(fnv1a_step(fnv1a_step(fnv1a_step(fnv1a_step(fnv1a_step(fnv1a_step(fnv1a_step(fnv1a_step(fnv1a_step(fnv1a_step(fnv1a_step(fnv1a_step(0xcbf29ce484222325u64, 101u8), 99u8), 111u8), 119u8), 105u8), 116u8), 116u8), 95u8), 116u8), 101u8), 109u8), 112u8), 255u8) == 0x23191cfd1a1eabcau64) by (bit_vector);
        },
        Gauge::Humidity => {
            reveal_strlit("ecowitt_humidity");
            assert(ascii_bytes("ecowitt_humidity"@).push(0xffu8) =~= seq![101u8, 99u8, 111u8, 119u8, 105u8, 116u8, 116u8, 95u8, 104u8, 117u8, 109u8, 105u8, 100u8, 105u8, 116u8, 121u8, 255u8]);
            reveal_with_fuel(fnv1a, 18);
            assert(fnv1a_step(fnv1a_step(fnv1a_step(fnv1a_step(fnv1a_step(fnv1a_step(fnv1a_step(fnv1a_step(fnv1a_step(fnv1a_step(fnv1a_step(fnv1a_step(fnv1a_step(fnv1a_step(fnv1a_step(fnv1a_step(fnv1a_step(0xcbf29ce484222325u64, 101u8), 99u8), 111u8), 119u8), 105u8), 116u8), 116u8), 95u8), 104u8), 117u8), 109u8), 105u8), 100u8), 105u8), 116u8), 121u8), 255u8) == 0x1d26ab13973ed267u64) by (bit_vector);
        },
        Gauge::WindDir => {
            reveal_strlit("ecowitt_winddir");
            assert(ascii_bytes("ecowitt_winddir"@).push(0xffu8) =~= seq![101u8, 99u8, 111u8, 119u8, 105u8, 116u8, 116u8, 95u8, 119u8, 105u8, 110u8, 100u8, 100u8, 105u8, 114u8, 255u8]);
            reveal_with_fuel(fnv1a, 17);
            assert(fnv1a_step(fnv1a_step(fnv1a_step(fnv1a_step(fnv1a_step(fnv1a_step(fnv1a_step(fnv1a_step(fnv1a_step(fnv1a_step(fnv1a_step(fnv1a_step(fnv1a_step(fnv1a_step(fnv1a_step(fnv1a_step(0xcbf29ce484222325u64, 101u8), 99u8), 111u8), 119u8), 105u8), 116u8), 116u8), 95u8), 119u8), 105u8), 110u8), 100u8), 100u8), 105u8), 114u8), 255u8) == 0x7ae608f54e5cfd3du64) by (bit_vector);
        },
        Gauge::Uv => {
            reveal_strlit("ecowitt_uv");
            assert(ascii_bytes("ecowitt_uv"@).push(0xffu8) =~= seq![101u8, 99u8, 111u8, 119u8, 105u8, 116u8, 116u8, 95u8, 117u8, 118u8, 255u8]);
            reveal_with_fuel(fnv1a, 12);
            assert(fnv1a_step(fnv1a_step(fnv1a_step(fnv1a_step(fnv1a_step(fnv1a_step(fnv1a_step(fnv1a_step(fnv1a_step(fnv1a_step(fnv1a_step(0xcbf29ce484222325u64, 101u8), 99u8), 111u8), 119u8), 105u8), 116u8), 116u8), 95u8), 117u8), 118u8), 255u8) == 0x6148dcba27d5d4bdu64) by (bit_vector);
        },
        Gauge::Pm25 => {
            reveal_strlit("ecowitt_pm25");
            assert(ascii_bytes("ecowitt_pm25"@).push(0xffu8) =~= seq![101u8, 99u8, 111u8, 119u8, 105u8, 116u8, 116u8, 95u8, 112u8, 109u8, 50u8, 53u8, 255u8]);
            reveal_with_fuel(fnv1a, 14);
            assert(fnv1a_step(fnv1a_step(fnv1a_step(fnv1a_step(fnv1a_step(fnv1a_step(fnv1a_step(fnv1a_step(fnv1a_step(fnv1a_step(fnv1a_step(fnv1a_step(fnv1a_step(0xcbf29ce484222325u64, 101u8), 99u8), 111u8), 119u8), 105u8), 116u8), 116u8), 95u8), 112u8), 109u8), 50u8), 53u8), 255u8) == 0xb535906609cec52au64) by (bit_vector);
        },
        Gauge::Aqi => {
            reveal_strlit("ecowitt_aqi");
            assert(ascii_bytes("ecowitt_aqi"@).push(0xffu8) =~= seq![101u8, 99u8, 111u8, 119u8, 105u8, 116u8, 116u8, 95u8, 97u8, 113u8, 105u8, 255u8]);
            reveal_with_fuel(fnv1a, 13);
            assert(fnv1a_step(fnv1a_step(fnv1a_step(fnv1a_step(fnv1a_step(fnv1a_step(fnv1a_step(fnv1a_step(fnv1a_step(fnv1a_step(fnv1a_step(fnv1a_step(0xcbf29ce484222325u64, 101u8), 99u8), 111u8), 119u8), 105u8), 116u8), 116u8), 95u8), 97u8), 113u8), 105u8), 255u8) == 0xde3429f88ca2222du64) by (bit_vector);
        },
        Gauge::BatteryStatus => {
            reveal_strlit("ecowitt_batterystatus");
            assert(ascii_bytes("ecowitt_batterystatus"@).push(0xffu8) =~= seq![101u8, 99u8, 111u8, 119u8, 105u8, 116u8, 116u8, 95u8, 98u8, 97u8, 116u8, 116u8, 101u8, 114u8, 121u8, 115u8, 116u8, 97u8, 116u8, 117u8, 115u8, 255u8]);
            reveal_with_fuel(fnv1a, 23);
            assert(fnv1a_step(fnv1a_step(fnv1a_step(fnv1a_step(fnv1a_step(fnv1a_step(fnv1a_step(fnv1a_step(fnv1a_step(fnv1a_step(fnv1a_step(fnv1a_step(fnv1a_step(fnv1a_step(fnv1a_step(fnv1a_step(fnv1a_step(fnv1a_step(fnv1a_step(fnv1a_step(fnv1a_step(fnv1a_step(0xcbf29ce484222325u64, 101u8), 99u8), 111u8), 119u8), 105u8), 116u8), 116u8), 95u8), 98u8), 97u8), 116u8), 116u8), 101u8), 114u8), 121u8), 115u8), 116u8), 97u8), 116u8), 117u8), 115u8), 255u8) == 0xd7959086212cfc0bu64) by (bit_vector);
        },
        Gauge::BatteryLevel => {
            reveal_strlit("ecowitt_batterylevel");
            assert(ascii_bytes("ecowitt_batterylevel"@).push(0xffu8) =~= seq![101u8, 99u8, 111u8, 119u8, 105u8, 116u8, 116u8, 95u8, 98u8, 97u8, 116u8, 116u8, 101u8, 114u8, 121u8, 108u8, 101u8, 118u8, 101u8, 108u8, 255u8]);
            reveal_with_fuel(fnv1a, 22);
            assert(fnv1a_step(fnv1a_step(fnv1a_step(fnv1a_step(fnv1a_step(fnv1a_step(fnv1a_step(fnv1a_step(fnv1a_step(fnv1a_step(fnv1a_step(fnv1a_step(fnv1a_step(fnv1a_step(fnv1a_step(fnv1a_step(fnv1a_step(fnv1a_step(fnv1a_step(fnv1a_step(fnv1a_step(0xcbf29ce484222325u64, 101u8), 99u8), 111u8), 119u8), 105u8), 116u8), 116u8), 95u8), 98u8), 97u8), 116u8), 116u8), 101u8), 114u8), 121u8), 108u8), 101u8), 118u8), 101u8), 108u8), 255u8) == 0x144770e1b614cf17u64) by (bit_vector);
        },
        Gauge::BatteryVoltage => {
            reveal_strlit("ecowitt_batteryvoltage");
            assert(ascii_bytes("ecowitt_batteryvoltage"@).push(0xffu8) =~= seq![101u8, 99u8, 111u8, 119u8, 105u8, 116u8, 116u8, 95u8, 98u8, 97u8, 116u8, 116u8, 101u8, 114u8, 121u8, 118u8, 111u8, 108u8, 116u8, 97u8, 103u8, 101u8, 255u8]);
            reveal_with_fuel(fnv1a, 24);
            assert(fnv1a_step(fnv1a_step(fnv1a_step(fnv1a_step(fnv1a_step(fnv1a_step(fnv1a_step(fnv1a_step(fnv1a_step(fnv1a_step(fnv1a_step(fnv1a_step(fnv1a_step(fnv1a_step(fnv1a_step(fnv1a_step(fnv1a_step(fnv1a_step(fnv1a_step(fnv1a_step(fnv1a_step(fnv1a_step(fnv1a_step(0xcbf29ce484222325u64, 101u8), 99u8), 111u8), 119u8), 105u8), 116u8), 116u8), 95u8), 98u8), 97u8), 116u8), 116u8), 101u8), 114u8), 121u8), 118u8), 111u8), 108u8), 116u8), 97u8), 103u8), 101u8), 255u8) == 0x0ef50e2159ed7dcfu64) by (bit_vector);
        },
        Gauge::SolarRadiation => {
            reveal_strlit("ecowitt_solarradiation");
            assert(ascii_bytes("ecowitt_solarradiation"@).push(0xffu8) =~= seq![101u8, 99u8, 111u8, 119u8, 105u8, 116u8, 116u8, 95u8, 115u8, 111u8, 108u8, 97u8, 114u8, 114u8, 97u8, 100u8, 105u8, 97u8, 116u8, 105u8, 111u8, 110u8, 255u8]);
            reveal_with_fuel(fnv1a, 24);
            assert(fnv1a_step(fnv1a_step(fnv1a_step(fnv1a_step(fnv1a_step(fnv1a_step(fnv1a_step(fnv1a_step(fnv1a_step(fnv1a_step(fnv1a_step(fnv1a_step(fnv1a_step(fnv1a_step(fnv1a_step(fnv1a_step(fnv1a_step(fnv1a_step(fnv1a_step(fnv1a_step(fnv1a_step(fnv1a_step(fnv1a_step(0xcbf29ce484222325u64, 101u8), 99u8), 111u8), 119u8), 105u8), 116u8), 116u8), 95u8), 115u8), 111u8), 108u8), 97u8), 114u8), 114u8), 97u8), 100u8), 105u8), 97u8), 116u8), 105u8), 111u8), 110u8), 255u8) == 0x803017d97e6ac2e8u64) by (bit_vector);
        },
        Gauge::Barom => {
            reveal_strlit("ecowitt_barom");
            assert(ascii_bytes("ecowitt_barom"@).push(0xffu8) =~= seq![101u8, 99u8, 111u8, 119u8, 105u8, 116u8, 116u8, 95u8, 98u8, 97u8, 114u8, 111u8, 109u8, 255u8]);
            reveal_with_fuel(fnv1a, 15);
            assert(fnv1a_step(fnv1a_step(fnv1a_step(fnv1a_step(fnv1a_step(fnv1a_step(fnv1a_step(fnv1a_step(fnv1a_step(fnv1a_step(fnv1a_step(fnv1a_step(fnv1a_step(fnv1a_step(0xcbf29ce484222325u64, 101u8), 99u8), 111u8), 119u8), 105u8), 116u8), 116u8), 95u8), 98u8), 97u8), 114u8), 111u8), 109u8), 255u8) == 0xb3e9b6bd40738605u64) by (bit_vector);
        },
        Gauge::Vpd => {
            reveal_strlit("ecowitt_vpd");
            assert(ascii_bytes("ecowitt_vpd"@).push(0xffu8) =~= seq![101u8, 99u8, 111u8, 119u8, 105u8, 116u8, 116u8, 95u8, 118u8, 112u8, 100u8, 255u8]);
            reveal_with_fuel(fnv1a, 13);
            assert(fnv1a_step(fnv1a_step(fnv1a_step(fnv1a_step(fnv1a_step(fnv1a_step(fnv1a_step(fnv1a_step(fnv1a_step(fnv1a_step(fnv1a_step(fnv1a_step(0xcbf29ce484222325u64, 101u8), 99u8), 111u8), 119u8), 105u8), 116u8), 116u8), 95u8), 118u8), 112u8), 100u8), 255u8) == 0xf5b4524b4c75c388u64) by (bit_vector);
        },
        Gauge::Wind => {
            reveal_strlit("ecowitt_windspeed");
            assert(ascii_bytes("ecowitt_windspeed"@).push(0xffu8) =~= seq![101u8, 99u8, 111u8, 119u8, 105u8, 116u8, 116u8, 95u8, 119u8, 105u8, 110u8, 100u8, 115u8, 112u8, 101u8, 101u8, 100u8, 255u8]);
            reveal_with_fuel(fnv1a, 19);
            assert(fnv1a_step(fnv1a_step(fnv1a_step(fnv1a_step(fnv1a_step(fnv1a_step(fnv1a_step(fnv1a_step(fnv1a_step(fnv1a_step(fnv1a_step(fnv1a_step(fnv1a_step(fnv1a_step(fnv1a_step(fnv1a_step(fnv1a_step(fnv1a_step(0xcbf29ce484222325u64, 101u8), 99u8), 111u8), 119u8), 105u8), 116u8), 116u8), 95u8), 119u8), 105u8), 110u8), 100u8), 115u8), 112u8), 101u8), 101u8), 100u8), 255u8) == 0x5a05079511e944d9u64) by (bit_vector);
        },
        Gauge::WindBeaufort => {
            reveal_strlit("ecowitt_windspeed_beaufort");
            assert(ascii_bytes("ecowitt_windspeed_beaufort"@).push(0xffu8) =~= seq![101u8, 99u8, 111u8, 119u8, 105u8, 116u8, 116u8, 95u8, 119u8, 105u8, 110u8, 100u8, 115u8, 112u8, 101u8, 101u8, 100u8, 95u8, 98u8, 101u8, 97u8, 117u8, 102u8, 111u8, 114u8, 116u8, 255u8]);
            reveal_with_fuel(fnv1a, 28);
            assert(fnv1a_step(fnv1a_step(fnv1a_step(fnv1a_step(fnv1a_step(fnv1a_step(fnv1a_step(fnv1a_step(fnv1a_step(fnv1a_step(fnv1a_step(fnv1a_step(fnv1a_step(fnv1a_step(fnv1a_step(fnv1a_step(fnv1a_step(fnv1a_step(fnv1a_step(fnv1a_step(fnv1a_step(fnv1a_step(fnv1a_step(fnv1a_step(fnv1a_step(fnv1a_step(fnv1a_step(0xcbf29ce484222325u64, 101u8), 99u8), 111u8), 119u8), 105u8), 116u8), 116u8), 95u8), 119u8), 105u8), 110u8), 100u8), 115u8), 112u8), 101u8), 101u8), 100u8), 95u8), 98u8), 101u8), 97u8), 117u8), 102u8), 111u8), 114u8), 116u8), 255u8) == 0xe5714a74014317bcu64) by (bit_vector);
        },
        Gauge::Rain => {
            reveal_strlit("ecowitt_rain");
            assert(ascii_bytes("ecowitt_rain"@).push(0xffu8) =~= seq![101u8, 99u8, 111u8, 119u8, 105u8, 116u8, 116u8, 95u8, 114u8, 97u8, 105u8, 110u8, 255u8]);
            reveal_with_fuel(fnv1a, 14);
            assert(fnv1a_step(fnv1a_step(fnv1a_step(fnv1a_step(fnv1a_step(fnv1a_step(fnv1a_step(fnv1a_step(fnv1a_step(fnv1a_step(fnv1a_step(fnv1a_step(fnv1a_step(0xcbf29ce484222325u64, 101u8), 99u8), 111u8), 119u8), 105u8), 116u8), 116u8), 95u8), 114u8), 97u8), 105u8), 110u8), 255u8) == 0x033254ed642a138eu64) by (bit_vector);
        },
        Gauge::Lightning => {
            reveal_strlit("ecowitt_lightning");
            assert(ascii_bytes("ecowitt_lightning"@).push(0xffu8) =~= seq![101u8, 99u8, 111u8, 119u8, 105u8, 116u8, 116u8, 95u8, 108u8, 105u8, 103u8, 104u8, 116u8, 110u8, 105u8, 110u8, 103u8, 255u8]);
            reveal_with_fuel(fnv1a, 19);
            assert(fnv1a_step(fnv1a_step(fnv1a_step(fnv1a_step(fnv1a_step(fnv1a_step(fnv1a_step(fnv1a_step(fnv1a_step(fnv1a_step(fnv1a_step(fnv1a_step(fnv1a_step(fnv1a_step(fnv1a_step(fnv1a_step(fnv1a_step(fnv1a_step(0xcbf29ce484222325u64, 101u8), 99u8), 111u8), 119u8), 105u8), 116u8), 116u8), 95u8), 108u8), 105u8), 103u8), 104u8), 116u8), 110u8), 105u8), 110u8), 103u8), 255u8) == 0x74f60599a96ce464u64) by (bit_vector);
        },
        Gauge::LightningNum => {
            reveal_strlit("ecowitt_lightning_num");
            assert(ascii_bytes("ecowitt_lightning_num"@).push(0xffu8) =~= seq![101u8, 99u8, 111u8, 119u8, 105u8, 116u8, 116u8, 95u8, 108u8, 105u8, 103u8, 104u8, 116u8, 110u8, 105u8, 110u8, 103u8, 95u8, 110u8, 117u8, 109u8, 255u8]);
            reveal_with_fuel(fnv1a, 23);
            assert(fnv1a_step(fnv1a_step(fnv1a_step(fnv1a_step(fnv1a_step(fnv1a_step(fnv1a_step(fnv1a_step(fnv1a_step(fnv1a_step(fnv1a_step(fnv1a_step(fnv1a_step(fnv1a_step(fnv1a_step(fnv1a_step(fnv1a_step(fnv1a_step(fnv1a_step(fnv1a_step(fnv1a_step(fnv1a_step(0xcbf29ce484222325u64, 101u8), 99u8), 111u8), 119u8), 105u8), 116u8), 116u8), 95u8), 108u8), 105u8), 103u8), 104u8), 116u8), 110u8), 105u8), 110u8), 103u8), 95u8), 110u8), 117u8), 109u8), 255u8) == 0x4333398e6644a771u64) by (bit_vector);
        },
        Gauge::LightningTime => {
            reveal_strlit("ecowitt_lightning_time");
            assert(ascii_bytes("ecowitt_lightning_time"@).push(0xffu8) =~= seq![101u8, 99u8, 111u8, 119u8, 105u8, 116u8, 116u8, 95u8, 108u8, 105u8, 103u8, 104u8, 116u8, 110u8, 105u8, 110u8, 103u8, 95u8, 116u8, 105u8, 109u8, 101u8, 255u8]);
            reveal_with_fuel(fnv1a, 24);
            assert(fnv1a_step(fnv1a_step(fnv1a_step(fnv1a_step(fnv1a_step(fnv1a_step(fnv1a_step(fnv1a_step(fnv1a_step(fnv1a_step(fnv1a_step(fnv1a_step(fnv1a_step(fnv1a_step(fnv1a_step(fnv1a_step(fnv1a_step(fnv1a_step(fnv1a_step(fnv1a_step(fnv1a_step(fnv1a_step(fnv1a_step(0xcbf29ce484222325u64, 101u8), 99u8), 111u8), 119u8), 105u8), 116u8), 116u8), 95u8), 108u8), 105u8), 103u8), 104u8), 116u8), 110u8), 105u8), 110u8), 103u8), 95u8), 116u8), 105u8), 109u8), 101u8), 255u8) == 0xb5b0bf0af316b94eu64) by (bit_vector);
        },
        Gauge::Ws90 => {
            reveal_strlit("ecowitt_wh90");
            assert(ascii_bytes("ecowitt_wh90"@).push(0xffu8) =~= seq![101u8, 99u8, 111u8, 119u8, 105u8, 116u8, 116u8, 95u8, 119u8, 104u8, 57u8, 48u8, 255u8]);
            reveal_with_fuel(fnv1a, 14);
            assert(fnv1a_step(fnv1a_step(fnv1a_step(fnv1a_step(fnv1a_step(fnv1a_step(fnv1a_step(fnv1a_step(fnv1a_step(fnv1a_step(fnv1a_step(fnv1a_step(fnv1a_step(0xcbf29ce484222325u64, 101u8), 99u8), 111u8), 119u8), 105u8), 116u8), 116u8), 95u8), 119u8), 104u8), 57u8), 48u8), 255u8) == 0xff31cba58d27a9d2u64) by (bit_vector);
        },
        Gauge::SoilMoisture => {
            reveal_strlit("ecowitt_soilmoisture");
            assert(ascii_bytes("ecowitt_soilmoisture"@).push(0xffu8) =~= seq![101u8, 99u8, 111u8, 119u8, 105u8, 116u8, 116u8, 95u8, 115u8, 111u8, 105u8, 108u8, 109u8, 111u8, 105u8, 115u8, 116u8, 117u8, 114u8, 101u8, 255u8]);
            reveal_with_fuel(fnv1a, 22);
            assert(fnv1a_step(fnv1a_step(fnv1a_step(fnv1a_step(fnv1a_step(fnv1a_step(fnv1a_step(fnv1a_step(fnv1a_step(fnv1a_step(fnv1a_step(fnv1a_step(fnv1a_step(fnv1a_step(fnv1a_step(fnv1a_step(fnv1a_step(fnv1a_step(fnv1a_step(fnv1a_step(fnv1a_step(0xcbf29ce484222325u64, 101u8), 99u8), 111u8), 119u8), 105u8), 116u8), 116u8), 95u8), 115u8), 111u8), 105u8), 108u8), 109u8), 111u8), 105u8), 115u8), 116u8), 117u8), 114u8), 101u8), 255u8) == 0xc7507624a9673cfbu64) by (bit_vector);
        },
    }
}

/// A metrics set with a new, empty `prometheus::Registry` (through
/// `Registry::new`) and no families.
#[verifier::external_body]
fn empty_metrics() -> (m: Metrics)
    ensures
        metric_families(m) == Seq::<FamilySpec>::empty(),
        registered_families(m) == Seq::<FamilySpec>::empty(),
{
    Metrics { families: Vec::new(), registry: prometheus::Registry::new() }
}

/// Makes a gauge family with `prometheus::GaugeVec::new` (and `Opts::new`)
/// and registers it with `Registry::register`, adding it to `m`.
///
/// Claims that the family is added to `m` and registered with its registry
/// when both calls succeed, that the call fails where `gauge_vec_accepts`
/// does not hold (the checks of `Desc::new` that `GaugeVec::new` makes), and
/// that a failure leaves the families and the registered families as they
/// were. Claims too that the call succeeds where the family is accepted and
/// its descriptor id differs from those of the families registered so far:
/// each of them is a collector with the one descriptor whose id is
/// `descriptor_id` of its name (`Desc::new`, with `fnv::FnvHasher`), and
/// `Registry::register` refuses a collector only where that id, or the same
/// name with another label set, is already registered.
#[verifier::external_body]
fn add_family(m: &mut Metrics, name: &str, help: &str, labels: &[&str]) -> (r: Result<(), prometheus::Error>)
    ensures
        !gauge_vec_accepts(name@, help@, str_texts(labels@)) ==> r is Err,
        r is Ok ==> metric_families(*final(m)) == metric_families(*old(m)).push(
            FamilySpec { name: name@, help: help@, labels: str_texts(labels@) },
        ),
        r is Ok ==> registered_families(*final(m)) == registered_families(*old(m)).push(
            FamilySpec { name: name@, help: help@, labels: str_texts(labels@) },
        ),
        r is Err ==> metric_families(*final(m)) == metric_families(*old(m)),
        r is Err ==> registered_families(*final(m)) == registered_families(*old(m)),
        gauge_vec_accepts(name@, help@, str_texts(labels@)) && id_is_fresh(
            registered_families(*old(m)),
            name@,
        ) ==> r is Ok,
{
    let family = prometheus::GaugeVec::new(prometheus::Opts::new(name, help), labels)?;
    m.registry.register(Box::new(family.clone()))?;
    m.families.push(family);
    Ok(())
}

/// Why the gauge families could not be set up.
#[derive(Clone, Copy, Debug, PartialEq, Eq, Structural)]
pub enum MetricsError {
    /// The registry refused the family of this gauge.
    Registration(Gauge),
}

/// The metric name, help text and label names of the family of gauge `g`.
pub open spec fn family_of(g: Gauge) -> FamilySpec {
    FamilySpec { name: gauge_name(g), help: gauge_help(g), labels: gauge_labels(g) }
}

/// Every gauge family is one that `prometheus` accepts: its help text is not
/// empty, and its metric name and its distinct label names are valid.
pub proof fn lemma_family_accepted(g: Gauge)
    ensures
        gauge_vec_accepts(gauge_name(g), gauge_help(g), gauge_labels(g)),
{
    reveal_strlit("station");
    reveal_strlit("sensor");
    reveal_strlit("unit");
    reveal_strlit("location");
    reveal_strlit("series");
    reveal_strlit("standard");
    assert("sensor"@[2] != "series"@[2]);
    assert("location"@[0] != "standard"@[0]);
    assert("station"@[1] != "sensor"@[1]);
    assert("station"@[1] != "series"@[1]);
    let labels = gauge_labels(g);
    assert forall|i: int, j: int| 0 <= i < j < labels.len() implies labels[i] != labels[j] by {
        if labels[i].len() == labels[j].len() && labels[i] == "sensor"@ {
            assert(labels[i][2] != labels[j][2]);
        }
        if labels[i].len() == labels[j].len() && labels[i] == "series"@ {
            assert(labels[i][2] != labels[j][2]);
        }
        if labels[i].len() == labels[j].len() && labels[i] == "station"@ {
            assert(labels[i][1] != labels[j][1]);
        }
        if labels[i].len() == labels[j].len() && labels[i] == "location"@ {
            assert(labels[i][0] != labels[j][0]);
        }
    }
    match g {
        Gauge::Temp => {
            reveal_strlit("ecowitt_temp");
            reveal_strlit("Temperature");
        },
        Gauge::Humidity => {
            reveal_strlit("ecowitt_humidity");
            reveal_strlit("Relative humidity");
        },
        Gauge::WindDir => {
            reveal_strlit("ecowitt_winddir");
            reveal_strlit("Wind direction");
        },
        Gauge::Uv => {
            reveal_strlit("ecowitt_uv");
            reveal_strlit("UV index");
        },
        Gauge::Pm25 => {
            reveal_strlit("ecowitt_pm25");
            reveal_strlit("PM2.5 concentration");
        },
        Gauge::Aqi => {
            reveal_strlit("ecowitt_aqi");
            reveal_strlit("Air quality index");
        },
        Gauge::BatteryStatus => {
            reveal_strlit("ecowitt_batterystatus");
            reveal_strlit("Battery status");
        },
        Gauge::BatteryLevel => {
            reveal_strlit("ecowitt_batterylevel");
            reveal_strlit("Battery level");
        },
        Gauge::BatteryVoltage => {
            reveal_strlit("ecowitt_batteryvoltage");
            reveal_strlit("Battery voltage");
        },
        Gauge::SolarRadiation => {
            reveal_strlit("ecowitt_solarradiation");
            reveal_strlit("Solar irradiance");
        },
        Gauge::Barom => {
            reveal_strlit("ecowitt_barom");
            reveal_strlit("Barometer");
        },
        Gauge::Vpd => {
            reveal_strlit("ecowitt_vpd");
            reveal_strlit("Vapour pressure deficit");
        },
        Gauge::Wind => {
            reveal_strlit("ecowitt_windspeed");
            reveal_strlit("Wind speed");
        },
        Gauge::WindBeaufort => {
            reveal_strlit("ecowitt_windspeed_beaufort");
            reveal_strlit("Wind Beaufort scale");
        },
        Gauge::Rain => {
            reveal_strlit("ecowitt_rain");
            reveal_strlit("Rainfall");
        },
        Gauge::Lightning => {
            reveal_strlit("ecowitt_lightning");
            reveal_strlit("Lightning distance");
        },
        Gauge::LightningNum => {
            reveal_strlit("ecowitt_lightning_num");
            reveal_strlit("Lightning daily count");
        },
        Gauge::LightningTime => {
            reveal_strlit("ecowitt_lightning_time");
            reveal_strlit("Lightning last strike");
        },
        Gauge::Ws90 => {
            reveal_strlit("ecowitt_wh90");
            reveal_strlit("WS90 electrical energy stored");
        },
        Gauge::SoilMoisture => {
            reveal_strlit("ecowitt_soilmoisture");
            reveal_strlit("Soil moisture");
        },
    }
}

/// The families of the first `n` gauges in registration order.
pub open spec fn first_families(n: int) -> Seq<FamilySpec> {
    all_gauges().take(n).map_values(|g: Gauge| family_of(g))
}

impl Metrics {
    /// Makes the family of every gauge and registers it, in registration
    /// order, with a new registry that belongs to this set alone. `prometheus`
    /// accepts every family and their descriptor ids are distinct, so this
    /// always succeeds, and the registry then holds exactly these families.
    pub fn new() -> (r: Result<Metrics, MetricsError>)
        ensures
            r is Ok,
            r matches Ok(m) ==> metric_families(m) == first_families(20),
            r matches Ok(m) ==> registered_families(m) == first_families(20),
    {
        let gauges = all();
        let mut m = empty_metrics();
        let mut i: usize = 0;
        assert(first_families(0) =~= Seq::<FamilySpec>::empty());
        while i < gauges.len()
            invariant
                gauges@ == all_gauges(),
                i <= gauges.len(),
                metric_families(m) == first_families(i as int),
                registered_families(m) == first_families(i as int),
            decreases gauges.len() - i,
        {
            let g = gauges[i];
            let labels = g.label_names();
            proof {
                lemma_family_accepted(g);
                lemma_gauge_index(g);
                lemma_descriptor_id(g);
                let done = first_families(i as int);
                assert forall|j: int| 0 <= j < done.len() implies descriptor_id(
                    #[trigger] done[j].name,
                ) != descriptor_id(gauge_name(g)) by {
                    let h = all_gauges()[j];
                    lemma_gauge_index(h);
                    lemma_descriptor_id(h);
                    assert(done[j].name == gauge_name(h));
                }
            }
            match add_family(&mut m, g.name(), g.help(), labels.as_slice()) {
                Ok(()) => {},
                Err(_) => {
                    return Err(MetricsError::Registration(g));
                },
            }
            assert(first_families(i + 1) =~= first_families(i as int).push(family_of(g)));
            i = i + 1;
        }
        Ok(m)
    }
}

/// Every gauge that a field of a report sets belongs to a family that
/// `Metrics::new` registered, at the gauge's position in registration order,
/// under the gauge's metric name and with as many label names as the update
/// has label values (so looking the gauge up by those values cannot fail on
/// their number).
pub proof fn lemma_updates_fit_families(
    m: Metrics,
    cfg: Args,
    station: Seq<char>,
    key: Seq<char>,
    invalid: bool,
)
    requires
        metric_families(m) == first_families(20),
    ensures
        key_plan(cfg, station, key, invalid) matches Plan::Apply(us) ==> forall|i: int|
            0 <= i < us.len() ==> {
                let f = metric_families(m)[gauge_index(#[trigger] us[i].gauge)];
                &&& 0 <= gauge_index(us[i].gauge) < metric_families(m).len()
                &&& f.name == gauge_name(us[i].gauge)
                &&& f.labels.len() == us[i].labels.len()
            },
{
    lemma_plan_well_formed(cfg, station, key, invalid);
    if let Plan::Apply(us) = key_plan(cfg, station, key, invalid) {
        assert forall|i: int| 0 <= i < us.len() implies {
            let f = metric_families(m)[gauge_index(#[trigger] us[i].gauge)];
            &&& 0 <= gauge_index(us[i].gauge) < metric_families(m).len()
            &&& f.name == gauge_name(us[i].gauge)
            &&& f.labels.len() == us[i].labels.len()
        } by {
            lemma_gauge_index(us[i].gauge);
        }
    }
}

/// Distinct gauges have distinct metric names.
pub proof fn lemma_gauge_names_distinct(g: Gauge, h: Gauge)
    ensures
        gauge_name(g) == gauge_name(h) ==> g == h,
{
    reveal_strlit("ecowitt_temp");
    reveal_strlit("ecowitt_humidity");
    reveal_strlit("ecowitt_winddir");
    reveal_strlit("ecowitt_uv");
    reveal_strlit("ecowitt_pm25");
    reveal_strlit("ecowitt_aqi");
    reveal_strlit("ecowitt_batterystatus");
    reveal_strlit("ecowitt_batterylevel");
    reveal_strlit("ecowitt_batteryvoltage");
    reveal_strlit("ecowitt_solarradiation");
    reveal_strlit("ecowitt_barom");
    reveal_strlit("ecowitt_vpd");
    reveal_strlit("ecowitt_windspeed");
    reveal_strlit("ecowitt_windspeed_beaufort");
    reveal_strlit("ecowitt_rain");
    reveal_strlit("ecowitt_lightning");
    reveal_strlit("ecowitt_lightning_num");
    reveal_strlit("ecowitt_lightning_time");
    reveal_strlit("ecowitt_wh90");
    reveal_strlit("ecowitt_soilmoisture");
    if gauge_name(g) == gauge_name(h) {
        assert(gauge_name(g).len() == gauge_name(h).len());
        assert(gauge_name(g)[8] == gauge_name(h)[8]);
    }
}

} // verus!
