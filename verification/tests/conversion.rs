use unit_convert::convert::{calculate, get_len_factor, lookup_len_factor, LinearRatio, FACTOR_SCALE};
use unit_convert::error::ParseError;
use unit_convert::units::{parse_unit, Unit};

/// Applies a conversion ratio to a value: the two scaled factors become
/// the exact floating-point factors of the table, and the value is
/// multiplied by the source factor and divided by the destination one.
fn apply(ratio: LinearRatio, value: f64) -> f64 {
    let from = ratio.from_factor as f64 / FACTOR_SCALE as f64;
    let to = ratio.to_factor as f64 / FACTOR_SCALE as f64;
    value * from / to
}

fn convert(value: f64, from: &str, to: &str) -> Result<f64, ParseError> {
    let ratio = calculate(Unit::Len, &from.to_string(), &to.to_string())?;
    Ok(apply(ratio, value))
}

#[test]
fn calculate_len() {
    let result = calculate(Unit::Len, &String::from("m"), &String::from("cm"));
    let value = apply(result.unwrap(), 1.0);
    assert_eq!(100.0, value);
}

#[test]
fn test_conversion_with_unknown_unit_returns_err() {
    let from = "m".to_string();
    let to = "furlong".to_string();

    let result = calculate(Unit::Len, &from, &to);

    assert!(
        result.is_err(),
        "The function should have returned an error, but it returned Ok."
    );

    if let Err(e) = result {
        assert_eq!(e.message(), "Unknown unit: furlong");
    }
}

#[test]
fn test_parsing_unit() {
    let res = parse_unit(&String::from("len"));

    if let Ok(res) = res {
        assert_eq!(res, Unit::Len);
    }
}

#[test]
fn parsing_unit_trims_whitespace() {
    assert_eq!(parse_unit(&String::from("  len \t\n")), Ok(Unit::Len));
    assert_eq!(parse_unit(&String::from(" mass")), Ok(Unit::Mass));
}

#[test]
fn parsing_unit_rejects_unknown_category() {
    let res = parse_unit(&String::from("volume"));
    assert_eq!(res, Err(ParseError::UnknownCategory));
    assert_eq!(res.unwrap_err().message(), "Unknown unit");
}

#[test]
fn parsing_unit_temperature_token_is_case_sensitive() {
    assert_eq!(parse_unit(&String::from("Temp")), Ok(Unit::Temp));
    assert_eq!(
        parse_unit(&String::from("temp")),
        Err(ParseError::UnknownCategory)
    );
}

#[test]
fn factor_table_is_exact() {
    assert_eq!(lookup_len_factor("m"), Some(10000));
    assert_eq!(lookup_len_factor("meter"), Some(10000));
    assert_eq!(lookup_len_factor("meters"), Some(10000));
    assert_eq!(lookup_len_factor("km"), Some(10000000));
    assert_eq!(lookup_len_factor("cm"), Some(100));
    assert_eq!(lookup_len_factor("mm"), Some(10));
    assert_eq!(lookup_len_factor("mile"), Some(16093400));
    assert_eq!(lookup_len_factor("ft"), Some(3048));
    assert_eq!(lookup_len_factor("in"), Some(254));
    assert_eq!(lookup_len_factor("furlong"), None);
    // The exact lookup is case-sensitive; case folding happens one layer up.
    assert_eq!(lookup_len_factor("KM"), None);
}

#[test]
fn factor_lookup_is_case_insensitive() {
    assert_eq!(get_len_factor(&"KM".to_string()), Ok(10000000));
    assert_eq!(get_len_factor(&"Mile".to_string()), Ok(16093400));
    assert_eq!(get_len_factor(&"meters".to_string()), Ok(10000));
}

#[test]
fn unknown_unit_message_keeps_original_case() {
    let res = get_len_factor(&"Furlong".to_string());
    assert_eq!(res.unwrap_err().message(), "Unknown unit: Furlong");
}

#[test]
fn conversion_is_case_insensitive() {
    let upper = calculate(Unit::Len, &"M".to_string(), &"CM".to_string()).unwrap();
    let lower = calculate(Unit::Len, &"m".to_string(), &"cm".to_string()).unwrap();
    assert_eq!(upper, lower);
    assert_eq!(convert(2.5, "M", "CM").unwrap(), convert(2.5, "m", "cm").unwrap());
}

#[test]
fn identity_conversion_returns_value() {
    for unit in ["m", "meter", "meters", "km", "cm", "mm", "mile", "ft", "in"] {
        let ratio = calculate(Unit::Len, &unit.to_string(), &unit.to_string()).unwrap();
        assert_eq!(ratio.from_factor, ratio.to_factor);
        let value = apply(ratio, 1.7);
        assert!((value - 1.7).abs() <= 1e-12 * 1.7, "identity failed for {unit}: {value}");
    }
}

#[test]
fn round_trip_is_inverse() {
    let pairs = [("m", "cm"), ("km", "mile"), ("ft", "in"), ("mile", "mm"), ("meter", "ft")];
    for (u1, u2) in pairs {
        let forward = convert(3.25, u1, u2).unwrap();
        let backward = convert(1.0, u2, u1).unwrap();
        let recovered = 3.25 / backward;
        assert!(
            (forward - recovered).abs() <= 1e-12 * forward.abs(),
            "round trip failed for {u1}->{u2}: {forward} vs {recovered}"
        );
    }
}

#[test]
fn one_meter_is_a_hundred_centimeters() {
    assert_eq!(convert(1.0, "m", "cm").unwrap(), 100.0);
}

#[test]
fn ten_meters_to_furlong_fails() {
    let err = convert(10.0, "m", "furlong").unwrap_err();
    assert_eq!(err.message(), "Unknown unit: furlong");
}

#[test]
fn source_unit_error_wins_over_destination() {
    let err = convert(1.0, "cubit", "furlong").unwrap_err();
    assert_eq!(err.message(), "Unknown unit: cubit");
}

#[test]
fn mile_to_feet_follows_the_table() {
    let value = convert(1.0, "mile", "ft").unwrap();
    assert_eq!(value, 1609.34 / 0.3048);
    assert!(value > 5279.0 && value < 5281.0);
}

#[test]
fn mass_and_temperature_are_not_implemented() {
    let mass = calculate(Unit::Mass, &"kg".to_string(), &"g".to_string());
    assert_eq!(mass, Err(ParseError::NotImplemented));
    assert_eq!(mass.unwrap_err().message(), "Not implemented");
    let temp = calculate(Unit::Temp, &"C".to_string(), &"F".to_string());
    assert_eq!(temp, Err(ParseError::NotImplemented));
}

#[test]
fn error_messages_render_each_variant() {
    assert_eq!(ParseError::UnknownCategory.message(), "Unknown unit");
    assert_eq!(
        ParseError::InvalidNumber("invalid float literal".to_string()).message(),
        "invalid float literal"
    );
    assert_eq!(
        ParseError::UnknownUnit("rod".to_string()).message(),
        "Unknown unit: rod"
    );
    assert_eq!(ParseError::NotImplemented.message(), "Not implemented");
    assert_eq!(ParseError::MissingArguments.message(), "Missing arguments");
}
