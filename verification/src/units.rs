//! Which unit conversion applies to a reading, given the configured unit.
//!
//! The station reports in imperial units (°F, inHg, mph, inches, W/m²) and
//! distances in kilometres; each configured unit selects the formula that
//! turns a raw reading into that unit.

use vstd::prelude::*;
use crate::text::text_eq;

verus! {

/// A formula that turns a raw station reading into the reported value.
#[derive(Clone, Copy, Debug, PartialEq, Eq, Structural)]
pub enum Conversion {
    /// The reading is reported as it is.
    Identity,
    /// Degrees Fahrenheit to degrees Celsius.
    FahrenheitToCelsius,
    /// Degrees Fahrenheit to kelvin.
    FahrenheitToKelvin,
    /// Inches of mercury to hectopascals.
    InHgToHpa,
    /// Inches of mercury to millimetres of mercury.
    InHgToMmHg,
    /// Miles per hour to kilometres per hour.
    MphToKmh,
    /// Miles per hour to metres per second.
    MphToMetresPerSecond,
    /// Miles per hour to knots.
    MphToKnots,
    /// Miles per hour to feet per second.
    MphToFeetPerSecond,
    /// Inches to millimetres.
    InchesToMm,
    /// Watts per square metre to lux.
    WattsToLux,
    /// Watts per square metre to kilolux.
    WattsToKilolux,
    /// Watts per square metre to foot-candles.
    WattsToFootCandles,
    /// Kilometres to miles.
    KmToMiles,
    /// Miles per hour to a force on the Beaufort scale.
    MphToBeaufort,
    /// PM2.5 concentration to the US EPA air quality index.
    AqiEpa,
    /// PM2.5 concentration to the Chinese MEP air quality index.
    AqiMep,
    /// PM2.5 concentration to the Australian NEPM air quality index.
    AqiNepm,
    /// PM2.5 concentration to the UK daily air quality index.
    AqiUk,
}

/// Temperatures arrive in °F: `c` selects Celsius, `k` kelvin, any other unit
/// leaves them in °F.
pub open spec fn temperature_conversion(unit: Seq<char>) -> Conversion {
    if unit == "c"@ {
        Conversion::FahrenheitToCelsius
    } else if unit == "k"@ {
        Conversion::FahrenheitToKelvin
    } else {
        Conversion::Identity
    }
}

/// Pressures arrive in inHg: `hpa` selects hectopascals, `mmhg` millimetres of
/// mercury, any other unit leaves them in inHg.
pub open spec fn pressure_conversion(unit: Seq<char>) -> Conversion {
    if unit == "hpa"@ {
        Conversion::InHgToHpa
    } else if unit == "mmhg"@ {
        Conversion::InHgToMmHg
    } else {
        Conversion::Identity
    }
}

/// Wind speeds arrive in mph: `kmh`, `ms`, `knots` and `fps` select their
/// units, any other unit leaves them in mph.
pub open spec fn wind_conversion(unit: Seq<char>) -> Conversion {
    if unit == "kmh"@ {
        Conversion::MphToKmh
    } else if unit == "ms"@ {
        Conversion::MphToMetresPerSecond
    } else if unit == "knots"@ {
        Conversion::MphToKnots
    } else if unit == "fps"@ {
        Conversion::MphToFeetPerSecond
    } else {
        Conversion::Identity
    }
}

/// Rainfall arrives in inches: `mm` selects millimetres, any other unit
/// leaves it in inches.
pub open spec fn rain_conversion(unit: Seq<char>) -> Conversion {
    if unit == "mm"@ {
        Conversion::InchesToMm
    } else {
        Conversion::Identity
    }
}

/// Irradiance arrives in W/m²: `lx` selects lux, `klx` kilolux, `fc`
/// foot-candles, any other unit leaves it in W/m².
pub open spec fn irradiance_conversion(unit: Seq<char>) -> Conversion {
    if unit == "lx"@ {
        Conversion::WattsToLux
    } else if unit == "klx"@ {
        Conversion::WattsToKilolux
    } else if unit == "fc"@ {
        Conversion::WattsToFootCandles
    } else {
        Conversion::Identity
    }
}

/// Lightning distances arrive in km: `mi` selects miles, any other unit
/// leaves them in km.
pub open spec fn distance_conversion(unit: Seq<char>) -> Conversion {
    if unit == "mi"@ {
        Conversion::KmToMiles
    } else {
        Conversion::Identity
    }
}

/// The air quality index of a standard: `epa`, `mep` and `nepm` name theirs,
/// any other standard selects the UK index.
pub open spec fn aqi_conversion(standard: Seq<char>) -> Conversion {
    if standard == "epa"@ {
        Conversion::AqiEpa
    } else if standard == "mep"@ {
        Conversion::AqiMep
    } else if standard == "nepm"@ {
        Conversion::AqiNepm
    } else {
        Conversion::AqiUk
    }
}

/// The conversion of temperatures into `unit`.
pub fn convert_temperature(unit: &str) -> (c: Conversion)
    ensures
        c == temperature_conversion(unit@),
{
    if text_eq(unit, "c") {
        Conversion::FahrenheitToCelsius
    } else if text_eq(unit, "k") {
        Conversion::FahrenheitToKelvin
    } else {
        Conversion::Identity
    }
}

/// The conversion of pressures into `unit`.
pub fn convert_pressure(unit: &str) -> (c: Conversion)
    ensures
        c == pressure_conversion(unit@),
{
    if text_eq(unit, "hpa") {
        Conversion::InHgToHpa
    } else if text_eq(unit, "mmhg") {
        Conversion::InHgToMmHg
    } else {
        Conversion::Identity
    }
}

/// The conversion of wind speeds into `unit`.
pub fn convert_wind(unit: &str) -> (c: Conversion)
    ensures
        c == wind_conversion(unit@),
{
    if text_eq(unit, "kmh") {
        Conversion::MphToKmh
    } else if text_eq(unit, "ms") {
        Conversion::MphToMetresPerSecond
    } else if text_eq(unit, "knots") {
        Conversion::MphToKnots
    } else if text_eq(unit, "fps") {
        Conversion::MphToFeetPerSecond
    } else {
        Conversion::Identity
    }
}

/// The conversion of rainfall into `unit`.
pub fn convert_rain(unit: &str) -> (c: Conversion)
    ensures
        c == rain_conversion(unit@),
{
    if text_eq(unit, "mm") {
        Conversion::InchesToMm
    } else {
        Conversion::Identity
    }
}

/// The conversion of irradiance into `unit`.
pub fn convert_irradiance(unit: &str) -> (c: Conversion)
    ensures
        c == irradiance_conversion(unit@),
{
    if text_eq(unit, "lx") {
        Conversion::WattsToLux
    } else if text_eq(unit, "klx") {
        Conversion::WattsToKilolux
    } else if text_eq(unit, "fc") {
        Conversion::WattsToFootCandles
    } else {
        Conversion::Identity
    }
}

/// The conversion of lightning distances into `unit`.
pub fn convert_distance(unit: &str) -> (c: Conversion)
    ensures
        c == distance_conversion(unit@),
{
    if text_eq(unit, "mi") {
        Conversion::KmToMiles
    } else {
        Conversion::Identity
    }
}

/// The air quality index that `standard` names, computed from a 24-hour
/// average PM2.5 concentration.
pub fn calculate_aqi(standard: &str) -> (c: Conversion)
    ensures
        c == aqi_conversion(standard@),
{
    if text_eq(standard, "epa") {
        Conversion::AqiEpa
    } else if text_eq(standard, "mep") {
        Conversion::AqiMep
    } else if text_eq(standard, "nepm") {
        Conversion::AqiNepm
    } else {
        Conversion::AqiUk
    }
}

} // verus!
