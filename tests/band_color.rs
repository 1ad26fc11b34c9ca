use resistor_color::band_color::BandColor;
use resistor_color::ColorError;
use std::str::FromStr;

#[test]
fn band_color_test_band_color_from_str() {
    assert_eq!(BandColor::from_str("black").unwrap(), BandColor::Black);
    assert_eq!(BandColor::from_str("brown").unwrap(), BandColor::Brown);
    assert_eq!(BandColor::from_str("red").unwrap(), BandColor::Red);
    assert_eq!(BandColor::from_str("orange").unwrap(), BandColor::Orange);
    assert_eq!(BandColor::from_str("yellow").unwrap(), BandColor::Yellow);
    assert_eq!(BandColor::from_str("green").unwrap(), BandColor::Green);
    assert_eq!(BandColor::from_str("blue").unwrap(), BandColor::Blue);
    assert_eq!(BandColor::from_str("violet").unwrap(), BandColor::Violet);
    assert_eq!(BandColor::from_str("grey").unwrap(), BandColor::Grey);
    assert_eq!(BandColor::from_str("white").unwrap(), BandColor::White);
}

#[test]
fn band_color_test_invalid_band_color() {
    assert!(BandColor::from_str("asdf").is_err());
    assert!(BandColor::from_str("bluee").is_err());
    assert!(BandColor::from_str("redder").is_err());
}

#[test]
fn band_color_test_brand_color_from_str_all_case() {
    assert_eq!(BandColor::from_str("BLACK").unwrap(), BandColor::Black);
    assert_eq!(BandColor::from_str("BlacK").unwrap(), BandColor::Black);
    assert_eq!(BandColor::from_str("black").unwrap(), BandColor::Black);
    assert_eq!(BandColor::from_str("BlAcK").unwrap(), BandColor::Black);
}

#[test]
fn band_color_insuffcient() {
    assert!(BandColor::get_bands(vec!["brown", "brown"]).is_err());
    assert!(BandColor::get_bands(vec![]).is_err());
    assert!(BandColor::get_bands(vec!["black"]).is_err());
}

#[test]
fn get_bands_bad_color() {
    assert!(BandColor::get_bands(vec!["asdf", "asdf", "asdf"]).is_err());
}

#[test]
fn test_get_bands() {
    assert_eq!(
        BandColor::get_bands(vec!["brown", "brown", "red"]).unwrap(),
        vec![BandColor::Brown, BandColor::Brown, BandColor::Red,]
    )
}

#[test]
fn parse_ignores_surrounding_white_space_and_case() {
    assert_eq!(BandColor::parse("  Violet\t").unwrap(), BandColor::Violet);
    assert_eq!(BandColor::parse("\nGREY ").unwrap(), BandColor::Grey);
    assert_eq!(BandColor::parse(" white").unwrap(), BandColor::White);
}

#[test]
fn parse_twice_gives_same_color() {
    assert_eq!(BandColor::parse("Orange").unwrap(), BandColor::parse("Orange").unwrap());
}

#[test]
fn parse_unknown_reports_text_as_given() {
    assert_eq!(
        BandColor::parse(" bluee ").unwrap_err(),
        ColorError::UnknownColor(" bluee ".to_string())
    );
    assert_eq!(BandColor::parse("").unwrap_err(), ColorError::UnknownColor(String::new()));
    assert!(BandColor::parse("re d").is_err());
}

#[test]
fn from_normalized_needs_exact_name() {
    assert_eq!(BandColor::from_normalized("yellow"), Some(BandColor::Yellow));
    assert_eq!(BandColor::from_normalized("Yellow"), None);
    assert_eq!(BandColor::from_normalized(" yellow"), None);
    assert_eq!(BandColor::from_normalized("redder"), None);
}

#[test]
fn digit_values() {
    let all = [
        BandColor::Black,
        BandColor::Brown,
        BandColor::Red,
        BandColor::Orange,
        BandColor::Yellow,
        BandColor::Green,
        BandColor::Blue,
        BandColor::Violet,
        BandColor::Grey,
        BandColor::White,
    ];
    for (i, c) in all.iter().enumerate() {
        assert_eq!(c.value(), i as u32);
    }
}

#[test]
fn get_bands_too_few_reports_count() {
    assert_eq!(BandColor::get_bands(vec![]).unwrap_err(), ColorError::InsufficientBands(0));
    assert_eq!(BandColor::get_bands(vec!["red"]).unwrap_err(), ColorError::InsufficientBands(1));
    assert_eq!(
        BandColor::get_bands(vec!["asdf", "red"]).unwrap_err(),
        ColorError::InsufficientBands(2)
    );
}

#[test]
fn get_bands_reports_first_unknown_anywhere() {
    assert_eq!(
        BandColor::get_bands(vec!["bad", "red", "red"]).unwrap_err(),
        ColorError::UnknownColor("bad".to_string())
    );
    assert_eq!(
        BandColor::get_bands(vec!["red", "worse", "red"]).unwrap_err(),
        ColorError::UnknownColor("worse".to_string())
    );
    assert_eq!(
        BandColor::get_bands(vec!["red", "red", "red", "last", "nope"]).unwrap_err(),
        ColorError::UnknownColor("last".to_string())
    );
}

#[test]
fn get_bands_keeps_order_and_length() {
    assert_eq!(
        BandColor::get_bands(vec!["white", " Blue", "black", "GREEN", "red", "grey"]).unwrap(),
        vec![
            BandColor::White,
            BandColor::Blue,
            BandColor::Black,
            BandColor::Green,
            BandColor::Red,
            BandColor::Grey,
        ]
    );
}
