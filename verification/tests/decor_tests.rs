use cch24_core::decor::{cake_layers, layer_of_checksum, ChecksumError, Color, Ornament, Present, State};

#[test]
fn test_present_color_cycle() {
    assert_eq!(Present { color: Color::Red }.next_color(), Color::Blue);
    assert_eq!(Present { color: Color::Blue }.next_color(), Color::Purple);
    assert_eq!(Present { color: Color::Purple }.next_color(), Color::Red);
    assert_eq!(Color::Red.label(), "red");
    assert_eq!(Color::Blue.label(), "blue");
    assert_eq!(Color::Purple.label(), "purple");
}

#[test]
fn test_ornament_toggle_and_classes() {
    let lit = Ornament { state: State::On, n: "1".to_string() };
    let dark = Ornament { state: State::Off, n: "2".to_string() };
    assert_eq!(lit.classes(), "ornament on");
    assert_eq!(dark.classes(), "ornament");
    assert_eq!(lit.next_state(), State::Off);
    assert_eq!(dark.next_state(), State::On);
    assert_eq!(State::On.label(), "on");
    assert_eq!(State::Off.label(), "off");
}

#[test]
fn test_layer_of_checksum_valid() {
    let layer = layer_of_checksum("deadbeef1a").unwrap();
    assert_eq!(layer.color, "#deadbe");
    assert_eq!(layer.top, 0xef);
    assert_eq!(layer.left, 0x1a);
}

#[test]
fn test_layer_of_checksum_upper_case_decodes_lower_case_color() {
    let layer = layer_of_checksum("DEADBEEF1A").unwrap();
    assert_eq!(layer.color, "#deadbe");
    assert_eq!(layer.top, 239);
    assert_eq!(layer.left, 26);
}

#[test]
fn test_layer_of_checksum_invalid_hex() {
    assert_eq!(layer_of_checksum("xyz").unwrap_err(), ChecksumError::InvalidHex);
    // An odd number of digits is rejected too.
    assert_eq!(layer_of_checksum("abc").unwrap_err(), ChecksumError::InvalidHex);
}

#[test]
fn test_layer_of_checksum_too_short() {
    assert_eq!(layer_of_checksum("abcd1234").unwrap_err(), ChecksumError::TooShort);
}

#[test]
fn test_cake_layers_skips_missing_and_keeps_order() {
    let checksums = vec![
        None,
        Some("00112233445566".to_string()),
        None,
        Some("ffeeddccbb".to_string()),
    ];
    let layers = cake_layers(&checksums).unwrap();
    assert_eq!(layers.len(), 2);
    assert_eq!(layers[0].color, "#001122");
    assert_eq!(layers[0].top, 0x33);
    assert_eq!(layers[0].left, 0x44);
    assert_eq!(layers[1].color, "#ffeedd");
    assert_eq!(layers[1].top, 0xcc);
    assert_eq!(layers[1].left, 0xbb);
}

#[test]
fn test_cake_layers_first_error_wins() {
    let checksums = vec![
        Some("0011223344".to_string()),
        Some("nothex".to_string()),
        Some("ab".to_string()),
    ];
    assert_eq!(cake_layers(&checksums).unwrap_err(), ChecksumError::InvalidHex);
    let checksums = vec![Some("ab".to_string()), Some("nothex".to_string())];
    assert_eq!(cake_layers(&checksums).unwrap_err(), ChecksumError::TooShort);
}
