//! The exporter's configuration, as given on the command line.

use vstd::prelude::*;

verus! {

/// The configuration of the exporter: where it listens, the units it reports
/// in, and the locations that label the temperature sensors.
pub struct Args {
    pub listen_port: u16,
    pub listen_address: String,
    pub temperature_unit: String,
    pub pressure_unit: String,
    pub wind_unit: String,
    pub rain_unit: String,
    pub distance_unit: String,
    pub irradiance_unit: String,
    pub aqi_standard: String,
    pub station_id: String,
    pub outdoor_location: Option<String>,
    pub indoor_location: Option<String>,
    pub temp1_location: Option<String>,
    pub temp2_location: Option<String>,
    pub temp3_location: Option<String>,
    pub temp4_location: Option<String>,
    pub temp5_location: Option<String>,
    pub temp6_location: Option<String>,
    pub temp7_location: Option<String>,
    pub temp8_location: Option<String>,
    pub debug: bool,
}

/// The text held by an optional string.
pub open spec fn opt_text(o: Option<String>) -> Option<Seq<char>> {
    match o {
        Some(s) => Some(s@),
        None => None,
    }
}

/// The text held by an optional string slice.
pub open spec fn opt_str_text(o: Option<&str>) -> Option<Seq<char>> {
    match o {
        Some(s) => Some(s@),
        None => None,
    }
}

/// Borrows the text of an optional string.
pub fn opt_as_str(o: &Option<String>) -> (r: Option<&str>)
    ensures
        opt_str_text(r) == opt_text(*o),
{
    match o {
        Some(s) => Some(s.as_str()),
        None => None,
    }
}

impl Args {
    /// The location configured for the temperature channel numbered by the
    /// digit `channel` (`'1'` to `'8'`); no other character names a channel.
    pub open spec fn channel_location(&self, channel: char) -> Option<Seq<char>> {
        if channel == '1' {
            opt_text(self.temp1_location)
        } else if channel == '2' {
            opt_text(self.temp2_location)
        } else if channel == '3' {
            opt_text(self.temp3_location)
        } else if channel == '4' {
            opt_text(self.temp4_location)
        } else if channel == '5' {
            opt_text(self.temp5_location)
        } else if channel == '6' {
            opt_text(self.temp6_location)
        } else if channel == '7' {
            opt_text(self.temp7_location)
        } else if channel == '8' {
            opt_text(self.temp8_location)
        } else {
            None
        }
    }

    /// The configured location of temperature channel `channel`.
    pub fn temp_location(&self, channel: char) -> (r: Option<&str>)
        ensures
            opt_str_text(r) == self.channel_location(channel),
    {
        match channel {
            '1' => opt_as_str(&self.temp1_location),
            '2' => opt_as_str(&self.temp2_location),
            '3' => opt_as_str(&self.temp3_location),
            '4' => opt_as_str(&self.temp4_location),
            '5' => opt_as_str(&self.temp5_location),
            '6' => opt_as_str(&self.temp6_location),
            '7' => opt_as_str(&self.temp7_location),
            '8' => opt_as_str(&self.temp8_location),
            _ => None,
        }
    }
}

/// The configuration that applies when no option is given: port 8088 on all
/// interfaces, metric units (Celsius, hectopascals, km/h, millimetres,
/// kilometres, W/m²), the EPA air quality index, station id `ecowitt`, no
/// locations and no debug output.
pub open spec fn is_default_args(a: Args) -> bool {
    &&& a.listen_port == 8088
    &&& a.listen_address@ == "0.0.0.0"@
    &&& a.temperature_unit@ == "c"@
    &&& a.pressure_unit@ == "hpa"@
    &&& a.wind_unit@ == "kmh"@
    &&& a.rain_unit@ == "mm"@
    &&& a.distance_unit@ == "km"@
    &&& a.irradiance_unit@ == "wm2"@
    &&& a.aqi_standard@ == "epa"@
    &&& a.station_id@ == "ecowitt"@
    &&& a.outdoor_location is None
    &&& a.indoor_location is None
    &&& a.temp1_location is None
    &&& a.temp2_location is None
    &&& a.temp3_location is None
    &&& a.temp4_location is None
    &&& a.temp5_location is None
    &&& a.temp6_location is None
    &&& a.temp7_location is None
    &&& a.temp8_location is None
    &&& !a.debug
}

impl Default for Args {
    fn default() -> (a: Args)
        ensures
            is_default_args(a),
    {
        Args {
            listen_port: 8088,
            listen_address: String::from_str("0.0.0.0"),
            temperature_unit: String::from_str("c"),
            pressure_unit: String::from_str("hpa"),
            wind_unit: String::from_str("kmh"),
            rain_unit: String::from_str("mm"),
            distance_unit: String::from_str("km"),
            irradiance_unit: String::from_str("wm2"),
            aqi_standard: String::from_str("epa"),
            station_id: String::from_str("ecowitt"),
            outdoor_location: None,
            indoor_location: None,
            temp1_location: None,
            temp2_location: None,
            temp3_location: None,
            temp4_location: None,
            temp5_location: None,
            temp6_location: None,
            temp7_location: None,
            temp8_location: None,
            debug: false,
        }
    }
}

} // verus!
