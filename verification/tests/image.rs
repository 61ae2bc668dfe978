use picasso::image::{decode_rgba, rgba_size_matches, DecodeError, Image};

/// An uncompressed true-color TGA: an 18-byte header followed by BGR
/// pixel data, top-left origin.
fn tga_bytes(width: u8, bgr_pixels: &[u8]) -> Vec<u8> {
    let mut bytes = vec![
        0, // no image id
        0, // no palette
        2, // uncompressed true color
        0, 0, 0, 0, 0, // palette description (unused)
        0, 0, // x origin
        0, 0, // y origin
        width, 0, // width
        1, 0, // height
        24,   // bits per pixel
        0x20, // origin at top
    ];
    bytes.extend_from_slice(bgr_pixels);
    bytes
}

#[test]
fn decode_rgba_decodes_a_tiny_tga() {
    // Two pixels: red, then green, in BGR order.
    let bytes = tga_bytes(2, &[0, 0, 255, 0, 255, 0]);
    let decoded = decode_rgba(&bytes).unwrap();
    assert_eq!(decoded.width, 2);
    assert_eq!(decoded.height, 1);
    assert_eq!(decoded.pixels, vec![255, 0, 0, 255, 0, 255, 0, 255]);
}

#[test]
fn decode_rgba_rejects_garbage() {
    let r = decode_rgba(&[1, 2, 3]);
    assert_eq!(r.unwrap_err(), DecodeError::Unsupported);
}

/// A 54-byte BMP file header plus 40-byte DIB header, little endian.
fn bmp_header(width: u32, height: u32, bits: u16, compression: u32, palette_len: u32) -> Vec<u8> {
    let mut bytes = vec![0x42, 0x4d]; // "BM"
    bytes.extend_from_slice(&[0; 8]); // file size + reserved (unchecked)
    bytes.extend_from_slice(&54u32.to_le_bytes()); // pixel data offset
    bytes.extend_from_slice(&40u32.to_le_bytes()); // DIB header size
    bytes.extend_from_slice(&width.to_le_bytes());
    bytes.extend_from_slice(&height.to_le_bytes());
    bytes.extend_from_slice(&1u16.to_le_bytes()); // planes
    bytes.extend_from_slice(&bits.to_le_bytes());
    bytes.extend_from_slice(&compression.to_le_bytes());
    bytes.extend_from_slice(&[0; 12]); // image size + pixels per meter
    bytes.extend_from_slice(&palette_len.to_le_bytes());
    bytes.extend_from_slice(&[0; 4]); // important colors
    bytes
}

#[test]
fn decode_rgba_decodes_a_tiny_bmp() {
    // One 24-bit pixel, red, in BGR order, plus one byte of row padding.
    let mut bytes = bmp_header(1, 1, 24, 0, 0);
    bytes.extend_from_slice(&[0, 0, 255, 0]);
    let decoded = decode_rgba(&bytes).unwrap();
    assert_eq!(decoded.width, 1);
    assert_eq!(decoded.height, 1);
    assert_eq!(decoded.pixels, vec![255, 0, 0, 255]);
}

#[test]
fn decode_rgba_rejects_a_paletted_bmp_with_a_short_palette() {
    // An 8-bit BMP whose palette has only two entries: a pixel byte equal
    // to the palette length would drive the decoder's palette lookup out
    // of bounds, so the verified pre-check refuses the file.
    let mut bytes = bmp_header(1, 1, 8, 0, 2);
    bytes.extend_from_slice(&[0; 8]); // two palette entries
    bytes.extend_from_slice(&[2, 0, 0, 0]); // pixel row: index == palette length
    assert_eq!(decode_rgba(&bytes).unwrap_err(), DecodeError::Unsupported);
}

/// The PNG signature followed by an IHDR chunk with the given fields.
fn png_ihdr(width: u32, height: u32, depth: u8, color_type: u8) -> Vec<u8> {
    let mut bytes = vec![137, 80, 78, 71, 13, 10, 26, 10];
    bytes.extend_from_slice(&[0, 0, 0, 13]); // IHDR length
    bytes.extend_from_slice(b"IHDR");
    bytes.extend_from_slice(&width.to_be_bytes());
    bytes.extend_from_slice(&height.to_be_bytes());
    bytes.extend_from_slice(&[depth, color_type, 0, 0, 0]);
    bytes.extend_from_slice(&[0; 4]); // checksum (not inspected by the pre-check)
    bytes
}

#[test]
fn decode_rgba_rejects_an_indexed_png_without_a_palette() {
    // Image data for an indexed PNG with no palette at all: the decoder
    // would look up pixel indices in an empty palette, so the verified
    // pre-check refuses the file.
    let mut bytes = png_ihdr(1, 1, 8, 3);
    bytes.extend_from_slice(&[0, 0, 0, 0]); // empty IDAT chunk
    bytes.extend_from_slice(b"IDAT");
    bytes.extend_from_slice(&[0; 4]);
    assert_eq!(decode_rgba(&bytes).unwrap_err(), DecodeError::Unsupported);
}

#[test]
fn decode_rgba_rejects_oversized_png_dimensions() {
    let bytes = png_ihdr(100000, 1, 8, 2);
    assert_eq!(decode_rgba(&bytes).unwrap_err(), DecodeError::Unsupported);
}

#[test]
fn decode_rgba_reports_a_truncated_png_as_unsupported() {
    // A bare signature is handed to the decoder, which stops at the
    // missing header.
    let bytes = vec![137, 80, 78, 71, 13, 10, 26, 10];
    assert_eq!(decode_rgba(&bytes).unwrap_err(), DecodeError::Unsupported);
}

#[test]
fn decode_rgba_does_not_admit_jpeg_data() {
    let bytes = vec![0xff, 0xd8, 0xff, 0xe0, 0, 16];
    assert_eq!(decode_rgba(&bytes).unwrap_err(), DecodeError::Unsupported);
}

#[test]
fn image_wraps_its_texture_handle() {
    let img = Image::new(7);
    assert_eq!(img.texture_id, 7);
}

#[test]
fn rgba_size_matches_exact_product() {
    assert!(rgba_size_matches(2, 3, 24));
    assert!(rgba_size_matches(1, 1, 4));
    assert!(rgba_size_matches(0, 5, 0));
}

#[test]
fn rgba_size_rejects_wrong_lengths() {
    assert!(!rgba_size_matches(2, 3, 23));
    assert!(!rgba_size_matches(2, 3, 25));
    assert!(!rgba_size_matches(1, 1, 0));
}

#[test]
fn rgba_size_rejects_overflowing_dimensions() {
    assert!(!rgba_size_matches(usize::MAX, 2, 8));
    assert!(!rgba_size_matches(usize::MAX / 2, usize::MAX / 2, 16));
}
