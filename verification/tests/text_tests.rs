use jonathan_converter::error::ConvertError;
use jonathan_converter::text::decode_text;

#[test]
fn round_trip_fixed_glyphs() {
    // bytes 11, 20 and 136 map to the code points ten below them,
    // byte 10 is the line break; the BOM always leads
    let bytes: Vec<u8> = vec![11, 20, 136, 10];
    let s = decode_text(&bytes).unwrap();
    assert_eq!(s, "\u{feff}\u{01}\n~\n");
}

#[test]
fn decode_is_deterministic() {
    let bytes: Vec<u8> = vec![72, 111, 10, 139];
    let a = decode_text(&bytes).unwrap();
    let b = decode_text(&bytes).unwrap();
    assert_eq!(a, b);
}

#[test]
fn boundary_byte_136_maps() {
    let bytes: Vec<u8> = vec![136];
    assert_eq!(decode_text(&bytes).unwrap(), "\u{feff}~");
}

#[test]
fn boundary_byte_137_always_fails() {
    let bytes: Vec<u8> = vec![137];
    assert_eq!(
        decode_text(&bytes),
        Err(ConvertError::IllegalCharacterError(137))
    );
    // and again, consistently
    assert_eq!(
        decode_text(&bytes),
        Err(ConvertError::IllegalCharacterError(137))
    );
}

#[test]
fn byte_255_fails_with_its_value() {
    let bytes: Vec<u8> = vec![65, 255, 66];
    assert_eq!(
        decode_text(&bytes),
        Err(ConvertError::IllegalCharacterError(255))
    );
}

#[test]
fn named_accented_bytes() {
    let bytes: Vec<u8> = vec![139, 142, 152, 158, 163, 164, 183, 235];
    assert_eq!(
        decode_text(&bytes).unwrap(),
        "\u{feff}\u{fc}\u{e4}\u{c4}\u{f6}\u{d6}\u{dc}\u{f4}\u{df}"
    );
}

#[test]
fn empty_input_gives_only_bom() {
    let bytes: Vec<u8> = Vec::new();
    assert_eq!(decode_text(&bytes).unwrap(), "\u{feff}");
}

#[test]
fn printable_ascii_range() {
    // 'A' is 65, stored as 75; space is 32, stored as 42
    let bytes: Vec<u8> = vec![75, 42, 76];
    assert_eq!(decode_text(&bytes).unwrap(), "\u{feff}A B");
}

#[test]
fn first_illegal_byte_is_reported() {
    let bytes: Vec<u8> = vec![65, 200, 255];
    assert_eq!(
        decode_text(&bytes),
        Err(ConvertError::IllegalCharacterError(200))
    );
}

#[test]
fn illegal_character_message_names_the_byte() {
    assert_eq!(
        ConvertError::IllegalCharacterError(255).message(),
        "illegal character 255"
    );
    assert_eq!(
        ConvertError::IllegalCharacterError(7).message(),
        "illegal character 7"
    );
    assert_eq!(
        ConvertError::IllegalCharacterError(42).message(),
        "illegal character 42"
    );
}
