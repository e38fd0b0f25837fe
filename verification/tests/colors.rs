//! Tests of colour resolution: hex strings, the name table, and numeric
//! triples.
use slowpoke::color_names::{
    from_fraction_milli, lookup_color, parse_hex, resolve, ColorError, ColorNames, TurtleColor,
};

fn table() -> Vec<ColorNames> {
    vec![
        ColorNames("black", 0, 0, 0),
        ColorNames("white", 255, 255, 255),
        ColorNames("aquamarine", 127, 255, 212),
    ]
}

#[test]
fn hex_red_resolves() {
    assert_eq!(resolve(&table(), "#ff0000"), Ok(TurtleColor::Color(255, 0, 0)));
}

#[test]
fn named_black_resolves() {
    assert_eq!(resolve(&table(), "black"), Ok(TurtleColor::Color(0, 0, 0)));
    assert_eq!(lookup_color(&table(), "aquamarine"), TurtleColor::Color(127, 255, 212));
}

#[test]
fn unknown_name_degrades_to_current_color() {
    assert_eq!(resolve(&table(), "not-a-color"), Ok(TurtleColor::CurrentColor));
    assert_eq!(lookup_color(&table(), ""), TurtleColor::CurrentColor);
}

#[test]
fn out_of_range_triple_degrades_to_current_color() {
    // channel 1.5 is out of [0, 1]
    assert_eq!(from_fraction_milli(1_500, 0, 0), TurtleColor::CurrentColor);
    assert_eq!(from_fraction_milli(0, -1, 0), TurtleColor::CurrentColor);
    assert_eq!(from_fraction_milli(1_000, 0, 0), TurtleColor::Color(255, 0, 0));
    assert_eq!(from_fraction_milli(500, 0, 1_000), TurtleColor::Color(128, 0, 255));
}

#[test]
fn malformed_hex_is_a_hard_error() {
    assert_eq!(resolve(&table(), "#zz0000"), Err(ColorError::MalformedHex));
    assert_eq!(resolve(&table(), "#ff00"), Err(ColorError::MalformedHex));
    assert_eq!(parse_hex("#"), Err(ColorError::MalformedHex));
    assert!(!ColorError::MalformedHex.description().is_empty());
}

#[test]
fn hex_accepts_both_cases_and_ignores_extras() {
    assert_eq!(parse_hex("#FF00aa"), Ok(TurtleColor::Color(255, 0, 170)));
    // an eight-digit input reads only the first six digits
    assert_eq!(parse_hex("#ff000080"), Ok(TurtleColor::Color(255, 0, 0)));
}

#[test]
fn first_table_match_wins() {
    let shadowed = vec![
        ColorNames("grey", 10, 10, 10),
        ColorNames("grey", 200, 200, 200),
    ];
    assert_eq!(lookup_color(&shadowed, "grey"), TurtleColor::Color(10, 10, 10));
}

#[test]
fn u8_triple_is_always_resolved() {
    assert_eq!(TurtleColor::from((10u8, 20u8, 30u8)), TurtleColor::Color(10, 20, 30));
}

#[test]
fn default_color_is_black() {
    assert_eq!(TurtleColor::default(), TurtleColor::Color(0, 0, 0));
}
