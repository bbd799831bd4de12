use jonathan_converter::error::ConvertError;
use jonathan_converter::image::{convert_pcx_bytes, decode_pcx, encode_png, patch_header};

/// A hand-built 2x2, 256-colour paletted PCX file. The first four header
/// bytes are deliberately wrong: the library overwrites them.
fn tiny_pcx() -> Vec<u8> {
    let mut data = vec![0u8; 128];
    // bytes 0..4 stay 0: the header patch must fix them
    // x_start 0, y_start 0, x_end 1, y_end 1 (little endian)
    data[8] = 1;
    data[10] = 1;
    // dpi 300x300
    data[12] = 44;
    data[13] = 1;
    data[14] = 44;
    data[15] = 1;
    // one colour plane, two bytes per lane
    data[65] = 1;
    data[66] = 2;
    // palette type
    data[68] = 1;
    // run-length data: all four pixel bytes below 0xC0, hence literal
    data.extend_from_slice(&[0, 1, 2, 3]);
    // trailing 256-colour palette with its marker byte
    data.push(0x0C);
    let mut palette = vec![0u8; 768];
    palette[3] = 10;
    palette[4] = 20;
    palette[5] = 30;
    palette[6] = 40;
    palette[7] = 50;
    palette[8] = 60;
    palette[9] = 70;
    palette[10] = 80;
    palette[11] = 90;
    data.extend_from_slice(&palette);
    data
}

#[test]
fn patch_header_fixes_first_four_bytes_only() {
    let data: Vec<u8> = vec![9, 9, 9, 9, 42, 43];
    let patched = patch_header(&data);
    assert_eq!(patched, vec![0x0A, 0x05, 0x01, 0x08, 42, 43]);
}

#[test]
fn tiny_pcx_decodes_fully() {
    let img = decode_pcx(&tiny_pcx()).unwrap();
    assert_eq!(img.width, 2);
    assert_eq!(img.height, 2);
    assert_eq!(img.pixels, vec![0, 1, 2, 3]);
    assert_eq!(img.palette.len(), 768);
    assert_eq!(&img.palette[0..3], &[0, 0, 0]);
    assert_eq!(&img.palette[3..6], &[10, 20, 30]);
    assert_eq!(&img.palette[9..12], &[70, 80, 90]);
}

#[test]
fn tiny_pcx_encodes_to_indexed_png() {
    let img = decode_pcx(&tiny_pcx()).unwrap();
    let png_bytes = encode_png(&img).unwrap();
    let decoder = png::Decoder::new(std::io::Cursor::new(&png_bytes[..]));
    let mut reader = decoder.read_info().unwrap();
    let info = reader.info();
    assert_eq!(info.width, 2);
    assert_eq!(info.height, 2);
    assert_eq!(info.color_type, png::ColorType::Indexed);
    assert_eq!(info.bit_depth, png::BitDepth::Eight);
    let palette = info.palette.as_ref().unwrap();
    assert_eq!(&palette[0..3], &[0, 0, 0]);
    assert_eq!(&palette[3..6], &[10, 20, 30]);
    let mut buf = vec![0u8; reader.output_buffer_size().unwrap()];
    let out = reader.next_frame(&mut buf).unwrap();
    assert_eq!(&buf[..out.buffer_size()], &[0, 1, 2, 3]);
}

#[test]
fn leading_bytes_never_matter() {
    let a = tiny_pcx();
    let mut b = a.clone();
    b[0] = 0xFF;
    b[1] = 0x77;
    b[2] = 0x00;
    b[3] = 0x01;
    assert_eq!(convert_pcx_bytes(&a).unwrap(), convert_pcx_bytes(&b).unwrap());
}

#[test]
fn conversion_is_deterministic() {
    assert_eq!(
        convert_pcx_bytes(&tiny_pcx()).unwrap(),
        convert_pcx_bytes(&tiny_pcx()).unwrap()
    );
}

#[test]
fn truncated_pixel_data_is_a_decode_failure() {
    let mut data = tiny_pcx();
    // keep the header and the first row only: the second row read fails
    data.truncate(130);
    assert!(matches!(decode_pcx(&data), Err(ConvertError::DecodeError)));
}

#[test]
fn missing_palette_is_a_decode_failure() {
    let mut data = tiny_pcx();
    // keep the header and all pixel rows, but drop the trailing palette
    data.truncate(132);
    assert!(matches!(decode_pcx(&data), Err(ConvertError::DecodeError)));
}

#[test]
fn too_small_buffer_is_rejected() {
    assert!(matches!(
        decode_pcx(&vec![1, 2, 3]),
        Err(ConvertError::TooSmallError)
    ));
    assert!(matches!(
        convert_pcx_bytes(&Vec::new()),
        Err(ConvertError::TooSmallError)
    ));
}

#[test]
fn garbage_buffer_is_a_decode_failure() {
    // 128 zero bytes survive the header patch but describe no valid format
    let data = vec![0u8; 128];
    assert!(matches!(decode_pcx(&data), Err(ConvertError::DecodeError)));
}

#[test]
fn truecolor_header_is_not_paletted() {
    // three colour planes with the patched 8-bit depth mean direct RGB
    let mut data = vec![0u8; 128];
    data[8] = 1;
    data[10] = 1;
    data[65] = 3;
    data[66] = 2;
    assert!(matches!(
        decode_pcx(&data),
        Err(ConvertError::NotPalettedError)
    ));
}

#[test]
fn zero_sized_image_is_an_encode_failure() {
    let img = jonathan_converter::image::PaletteImage {
        width: 0,
        height: 0,
        pixels: Vec::new(),
        palette: vec![0u8; 768],
    };
    assert!(matches!(encode_png(&img), Err(ConvertError::EncodeError)));
}

#[test]
fn one_good_one_bad_buffer_converts_exactly_one() {
    let good = convert_pcx_bytes(&tiny_pcx());
    let bad = convert_pcx_bytes(&vec![0u8; 128]);
    assert!(good.is_ok());
    assert!(bad.is_err());
}
