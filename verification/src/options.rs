//! The two selectors of the command line: output format and temperature
//! scale.

use crate::text::same_text;
use vstd::prelude::*;
use vstd::string::*;

verus! {

/// A temperature scale.
#[derive(Clone, Copy, Debug, PartialEq, Eq, Structural)]
pub enum Scale {
    Celsius,
    Fahrenheit,
    Kelvin,
}

/// The text given for a scale names none.
#[derive(Clone, Copy, Debug, PartialEq, Eq, Structural)]
pub struct InvalidScale;

/// How results are written out.
#[derive(Clone, Copy, Debug, PartialEq, Eq, Structural)]
pub enum OutputFormat {
    Human,
    Json,
    Url,
    Debug,
}

/// The text given for an output format names none.
#[derive(Clone, Copy, Debug, PartialEq, Eq, Structural)]
pub struct InvalidOutputFormat;

/// The scale that `text` names. Names are case-sensitive; each scale has a
/// one-letter and a full name.
pub open spec fn scale_named(text: Seq<char>) -> Option<Scale> {
    if text == "c"@ || text == "celsius"@ {
        Some(Scale::Celsius)
    } else if text == "f"@ || text == "fahrenheit"@ {
        Some(Scale::Fahrenheit)
    } else if text == "k"@ || text == "kelvin"@ {
        Some(Scale::Kelvin)
    } else {
        None
    }
}

/// The output format that `text` names. Names are case-sensitive; `human`
/// and `debug` also have a one-letter name.
pub open spec fn output_format_named(text: Seq<char>) -> Option<OutputFormat> {
    if text == "h"@ || text == "human"@ {
        Some(OutputFormat::Human)
    } else if text == "json"@ {
        Some(OutputFormat::Json)
    } else if text == "url"@ {
        Some(OutputFormat::Url)
    } else if text == "d"@ || text == "debug"@ {
        Some(OutputFormat::Debug)
    } else {
        None
    }
}

/// What an [`InvalidScale`] says.
pub open spec fn invalid_scale_message() -> Seq<char> {
    "invalid scale"@
}

/// What an [`InvalidOutputFormat`] says.
pub open spec fn invalid_output_format_message() -> Seq<char> {
    "invalid output format"@
}

impl Scale {
    /// Reads a scale from its name.
    pub fn from_str(temp: &str) -> (scale: Result<Scale, InvalidScale>)
        ensures
            match scale {
                Ok(s) => scale_named(temp@) == Some(s),
                Err(_) => scale_named(temp@) is None,
            },
    {
        if same_text(temp, "c") || same_text(temp, "celsius") {
            Ok(Scale::Celsius)
        } else if same_text(temp, "f") || same_text(temp, "fahrenheit") {
            Ok(Scale::Fahrenheit)
        } else if same_text(temp, "k") || same_text(temp, "kelvin") {
            Ok(Scale::Kelvin)
        } else {
            Err(InvalidScale)
        }
    }
}

impl Default for Scale {
    /// Fahrenheit.
    fn default() -> (scale: Scale)
        ensures
            scale == Scale::Fahrenheit,
    {
        Scale::Fahrenheit
    }
}

impl InvalidScale {
    /// The diagnostic for a scale that could not be read.
    pub fn to_string(&self) -> (message: String)
        ensures
            message@ == invalid_scale_message(),
    {
        String::from_str("invalid scale")
    }
}

impl OutputFormat {
    /// Reads an output format from its name.
    pub fn from_str(temp: &str) -> (format: Result<OutputFormat, InvalidOutputFormat>)
        ensures
            match format {
                Ok(f) => output_format_named(temp@) == Some(f),
                Err(_) => output_format_named(temp@) is None,
            },
    {
        if same_text(temp, "h") || same_text(temp, "human") {
            Ok(OutputFormat::Human)
        } else if same_text(temp, "json") {
            Ok(OutputFormat::Json)
        } else if same_text(temp, "url") {
            Ok(OutputFormat::Url)
        } else if same_text(temp, "d") || same_text(temp, "debug") {
            Ok(OutputFormat::Debug)
        } else {
            Err(InvalidOutputFormat)
        }
    }
}

impl Default for OutputFormat {
    /// Human-readable text.
    fn default() -> (format: OutputFormat)
        ensures
            format == OutputFormat::Human,
    {
        OutputFormat::Human
    }
}

impl InvalidOutputFormat {
    /// The diagnostic for an output format that could not be read.
    pub fn to_string(&self) -> (message: String)
        ensures
            message@ == invalid_output_format_message(),
    {
        String::from_str("invalid output format")
    }
}

/// A bad output format and a bad scale are told apart by their diagnostics.
pub proof fn selector_diagnostics_differ()
    ensures
        invalid_output_format_message() != invalid_scale_message(),
{
    reveal_strlit("invalid output format");
    reveal_strlit("invalid scale");
    assert("invalid output format"@.len() != "invalid scale"@.len());
}

} // verus!
