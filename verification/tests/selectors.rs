use aqi::options::{InvalidOutputFormat, InvalidScale, OutputFormat, Scale};

#[test]
fn scale_names() {
    assert_eq!(Scale::from_str("c"), Ok(Scale::Celsius));
    assert_eq!(Scale::from_str("celsius"), Ok(Scale::Celsius));
    assert_eq!(Scale::from_str("f"), Ok(Scale::Fahrenheit));
    assert_eq!(Scale::from_str("fahrenheit"), Ok(Scale::Fahrenheit));
    assert_eq!(Scale::from_str("k"), Ok(Scale::Kelvin));
    assert_eq!(Scale::from_str("kelvin"), Ok(Scale::Kelvin));
}

#[test]
fn scale_names_are_case_sensitive_and_exact() {
    assert_eq!(Scale::from_str("C"), Err(InvalidScale));
    assert_eq!(Scale::from_str("Celsius"), Err(InvalidScale));
    assert_eq!(Scale::from_str("KELVIN"), Err(InvalidScale));
    assert_eq!(Scale::from_str(""), Err(InvalidScale));
    assert_eq!(Scale::from_str(" c"), Err(InvalidScale));
    assert_eq!(Scale::from_str("cel"), Err(InvalidScale));
    assert_eq!(Scale::from_str("rankine"), Err(InvalidScale));
}

#[test]
fn output_format_names() {
    assert_eq!(OutputFormat::from_str("h"), Ok(OutputFormat::Human));
    assert_eq!(OutputFormat::from_str("human"), Ok(OutputFormat::Human));
    assert_eq!(OutputFormat::from_str("json"), Ok(OutputFormat::Json));
    assert_eq!(OutputFormat::from_str("url"), Ok(OutputFormat::Url));
    assert_eq!(OutputFormat::from_str("d"), Ok(OutputFormat::Debug));
    assert_eq!(OutputFormat::from_str("debug"), Ok(OutputFormat::Debug));
}

#[test]
fn output_format_names_are_case_sensitive_and_exact() {
    assert_eq!(OutputFormat::from_str("xml"), Err(InvalidOutputFormat));
    assert_eq!(OutputFormat::from_str("Human"), Err(InvalidOutputFormat));
    assert_eq!(OutputFormat::from_str("JSON"), Err(InvalidOutputFormat));
    assert_eq!(OutputFormat::from_str("j"), Err(InvalidOutputFormat));
    assert_eq!(OutputFormat::from_str("u"), Err(InvalidOutputFormat));
    assert_eq!(OutputFormat::from_str(""), Err(InvalidOutputFormat));
    assert_eq!(OutputFormat::from_str("json "), Err(InvalidOutputFormat));
}

#[test]
fn diagnostics_are_distinct() {
    assert_eq!(InvalidOutputFormat.to_string(), "invalid output format");
    assert_eq!(InvalidScale.to_string(), "invalid scale");
    assert_ne!(InvalidOutputFormat.to_string(), InvalidScale.to_string());
}

#[test]
fn defaults() {
    assert_eq!(OutputFormat::default(), OutputFormat::Human);
    assert_eq!(Scale::default(), Scale::Fahrenheit);
    assert_eq!(OutputFormat::from_str("human"), Ok(OutputFormat::default()));
    assert_eq!(Scale::from_str("fahrenheit"), Ok(Scale::default()));
}
