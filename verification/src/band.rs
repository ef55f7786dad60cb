//! Severity bands of the air-quality index and the colours that show them.

use vstd::prelude::*;

verus! {

/// A severity tier of the air-quality index.
#[derive(Clone, Copy, Debug, PartialEq, Eq, Structural)]
pub enum Band {
    /// 0 to 50.
    Good,
    /// 51 to 100.
    Moderate,
    /// 101 to 150.
    UnhealthyForSensitiveGroups,
    /// 151 to 200.
    Unhealthy,
    /// 201 to 300.
    VeryUnhealthy,
    /// 301 to 500.
    Hazardous,
    /// Below 0 or above 500.
    Unknown,
}

/// A colour in which an index value is shown.
#[derive(Clone, Copy, Debug, PartialEq, Eq, Structural)]
pub enum Color {
    Green,
    Yellow,
    Orange,
    Red,
    Purple,
    Maroon,
    White,
}

/// The tier that an index value falls into.
pub open spec fn band_of(aqi: int) -> Band {
    if 0 <= aqi <= 50 {
        Band::Good
    } else if 51 <= aqi <= 100 {
        Band::Moderate
    } else if 101 <= aqi <= 150 {
        Band::UnhealthyForSensitiveGroups
    } else if 151 <= aqi <= 200 {
        Band::Unhealthy
    } else if 201 <= aqi <= 300 {
        Band::VeryUnhealthy
    } else if 301 <= aqi <= 500 {
        Band::Hazardous
    } else {
        Band::Unknown
    }
}

/// The colour of a tier.
pub open spec fn band_color(band: Band) -> Color {
    match band {
        Band::Good => Color::Green,
        Band::Moderate => Color::Yellow,
        Band::UnhealthyForSensitiveGroups => Color::Orange,
        Band::Unhealthy => Color::Red,
        Band::VeryUnhealthy => Color::Purple,
        Band::Hazardous => Color::Maroon,
        Band::Unknown => Color::White,
    }
}

/// The lower-case English name of a colour.
pub open spec fn color_name(color: Color) -> Seq<char> {
    match color {
        Color::Green => "green"@,
        Color::Yellow => "yellow"@,
        Color::Orange => "orange"@,
        Color::Red => "red"@,
        Color::Purple => "purple"@,
        Color::Maroon => "maroon"@,
        Color::White => "white"@,
    }
}

impl Band {
    /// Classifies an index value.
    pub fn of(aqi: i64) -> (band: Band)
        ensures
            band == band_of(aqi as int),
    {
        if aqi < 0 {
            Band::Unknown
        } else if aqi <= 50 {
            Band::Good
        } else if aqi <= 100 {
            Band::Moderate
        } else if aqi <= 150 {
            Band::UnhealthyForSensitiveGroups
        } else if aqi <= 200 {
            Band::Unhealthy
        } else if aqi <= 300 {
            Band::VeryUnhealthy
        } else if aqi <= 500 {
            Band::Hazardous
        } else {
            Band::Unknown
        }
    }

    /// The colour in which values of this tier are shown.
    pub fn color(self) -> (color: Color)
        ensures
            color == band_color(self),
    {
        match self {
            Band::Good => Color::Green,
            Band::Moderate => Color::Yellow,
            Band::UnhealthyForSensitiveGroups => Color::Orange,
            Band::Unhealthy => Color::Red,
            Band::VeryUnhealthy => Color::Purple,
            Band::Hazardous => Color::Maroon,
            Band::Unknown => Color::White,
        }
    }
}

impl Color {
    /// The lower-case English name of the colour.
    pub fn name(self) -> (name: &'static str)
        ensures
            name@ == color_name(self),
    {
        match self {
            Color::Green => "green",
            Color::Yellow => "yellow",
            Color::Orange => "orange",
            Color::Red => "red",
            Color::Purple => "purple",
            Color::Maroon => "maroon",
            Color::White => "white",
        }
    }
}

/// The name of the colour in which the index value `aqi` is shown.
pub fn color_name_for(aqi: i64) -> (name: &'static str)
    ensures
        name@ == color_name(band_color(band_of(aqi as int))),
{
    Band::of(aqi).color().name()
}

/// The colour table: every integer has exactly one colour, fixed by the
/// range it lies in. 0 to 50 is green, 51 to 100 yellow, 101 to 150 orange,
/// 151 to 200 red, 201 to 300 purple, 301 to 500 maroon, and every other
/// integer, negative or above 500, is white.
pub proof fn color_table(aqi: int)
    ensures
        0 <= aqi <= 50 ==> color_name(band_color(band_of(aqi))) == "green"@,
        51 <= aqi <= 100 ==> color_name(band_color(band_of(aqi))) == "yellow"@,
        101 <= aqi <= 150 ==> color_name(band_color(band_of(aqi))) == "orange"@,
        151 <= aqi <= 200 ==> color_name(band_color(band_of(aqi))) == "red"@,
        201 <= aqi <= 300 ==> color_name(band_color(band_of(aqi))) == "purple"@,
        301 <= aqi <= 500 ==> color_name(band_color(band_of(aqi))) == "maroon"@,
        aqi < 0 || aqi > 500 ==> color_name(band_color(band_of(aqi))) == "white"@,
{
}

} // verus!
