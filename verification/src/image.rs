//! The image resource: a GPU texture handle plus the checked shape of the
//! decoded pixel data it was built from.
//!
//! Decoding bytes into pixels is done by an outside decoder behind a
//! trusted wrapper. Before the call, verified header checks
//! (`decode_safe`) keep the inputs away from the decoder paths that index
//! out of bounds - a paletted BMP whose palette does not cover every
//! possible pixel index, an indexed PNG without a full palette before its
//! image data, oversized dimensions, and the JPEG decoder as a whole -
//! and everything that can be checked about the result, that the pixel
//! buffer has exactly `width * height * 4` bytes of RGBA data, is checked
//! here in verified code.

use vstd::prelude::*;

verus! {

/// A handle to a GPU texture. Cheap to copy; the texture itself is owned
/// and released by the caller that created it.
#[derive(Clone, Copy, Debug, PartialEq, Eq, Structural)]
pub struct Image {
    pub texture_id: u32,
}

impl Image {
    /// Wrap an already-uploaded GPU texture handle.
    pub fn new(texture_id: u32) -> (r: Image)
        ensures
            r == (Image { texture_id }),
    {
        Image { texture_id }
    }
}

/// A decoded RGBA8 pixel buffer: `width * height` pixels of four bytes
/// each, in row-major order.
#[derive(Debug)]
pub struct DecodedImage {
    pub width: usize,
    pub height: usize,
    pub pixels: Vec<u8>,
}

impl DecodedImage {
    /// The shape every consumer relies on: four bytes per pixel.
    pub open spec fn well_sized(self) -> bool {
        self.pixels@.len() == self.width * self.height * 4
    }
}

/// Why a byte buffer could not be turned into a decoded image.
#[derive(Clone, Copy, Debug, PartialEq, Eq, Structural)]
pub enum DecodeError {
    /// The decoder did not recognize or could not parse the data, or the
    /// data lies outside the subset this library hands to the decoder
    /// (see `decode_safe`).
    Unsupported,
    /// The decoder returned a pixel buffer that does not match its own
    /// reported dimensions.
    BadShape,
}

/// True exactly when `len == w * h * 4`, with the product computed
/// without overflow.
pub fn rgba_size_matches(w: usize, h: usize, len: usize) -> (r: bool)
    ensures
        r == (len == w * h * 4),
{
    match w.checked_mul(h) {
        Some(px) => match px.checked_mul(4) {
            Some(bytes) => bytes == len,
            None => false,
        },
        None => false,
    }
}

/// The unsigned little-endian 32-bit value at `off`.
pub open spec fn le32(b: Seq<u8>, off: int) -> int {
    b[off] + 256 * b[off + 1] + 65536 * b[off + 2] + 16777216 * b[off + 3]
}

/// The unsigned big-endian 32-bit value at `off`.
pub open spec fn be32(b: Seq<u8>, off: int) -> int {
    b[off + 3] + 256 * b[off + 2] + 65536 * b[off + 1] + 16777216 * b[off]
}

/// The unsigned little-endian 16-bit value at `off`.
pub open spec fn le16(b: Seq<u8>, off: int) -> int {
    b[off] + 256 * b[off + 1]
}

/// The eight-byte PNG file signature, which routes the data to the PNG
/// decoder.
pub open spec fn is_png_sig(b: Seq<u8>) -> bool {
    b.len() >= 8 && b[0] == 0x89 && b[1] == 0x50 && b[2] == 0x4e && b[3] == 0x47 && b[4] == 0x0d
        && b[5] == 0x0a && b[6] == 0x1a && b[7] == 0x0a
}

/// The JPEG start-of-image marker, which routes the data to the JPEG
/// decoder.
pub open spec fn is_jpeg_sig(b: Seq<u8>) -> bool {
    b.len() >= 2 && b[0] == 0xff && b[1] == 0xd8
}

/// A BMP file-plus-DIB header shape the BMP decoder accepts for routing:
/// the "BM" magic and one of its known DIB header sizes.
pub open spec fn is_bmp_hdr(b: Seq<u8>) -> bool {
    b.len() >= 18 && b[0] == 0x42 && b[1] == 0x4d && {
        let dib = le32(b, 14);
        dib == 12 || dib == 40 || dib == 52 || dib == 56 || dib == 108 || dib == 124
    }
}

/// The fixed part of a PNG header: a 13-byte IHDR chunk right after the
/// signature. Files without it fail the decoder's own header check.
pub open spec fn png_ihdr_shape_ok(b: Seq<u8>) -> bool {
    b.len() >= 33 && b[8] == 0 && b[9] == 0 && b[10] == 0 && b[11] == 13 && b[12] == 0x49 && b[13]
        == 0x48 && b[14] == 0x44 && b[15] == 0x52
}

/// The four chunk-type bytes at `off` equal the given ones.
pub open spec fn chunk_type_is(b: Seq<u8>, off: int, c0: u8, c1: u8, c2: u8, c3: u8) -> bool {
    b[off] == c0 && b[off + 1] == c1 && b[off + 2] == c2 && b[off + 3] == c3
}

/// Walk the PNG chunk list from `off` as the decoder does (each chunk is
/// an 8-byte header, its data and a 4-byte checksum). True when either a
/// full 256-entry palette chunk comes before any image-data chunk, or the
/// stream ends first (the decoder then stops with a read error); false
/// when image data is reached without a full palette - the one situation
/// in which the decoder's palette lookup could index out of bounds.
pub open spec fn png_plte_walk(b: Seq<u8>, off: int) -> bool
    decreases b.len() - off,
{
    if off < 0 || off + 8 > b.len() {
        true
    } else {
        let clen = be32(b, off);
        if chunk_type_is(b, off + 4, 0x49, 0x44, 0x41, 0x54) {  // IDAT
            false
        } else if chunk_type_is(b, off + 4, 0x50, 0x4c, 0x54, 0x45) && clen == 768 {  // PLTE
            true
        } else if off + 12 + clen > b.len() {
            true
        } else {
            png_plte_walk(b, off + 12 + clen)
        }
    }
}

/// A PNG the decoder handles without faulting: its dimensions are
/// moderate, and an indexed image (color type 3) carries a full palette
/// before its image data. Files whose header the decoder itself rejects
/// are fine as they are.
pub open spec fn png_safe(b: Seq<u8>) -> bool {
    png_ihdr_shape_ok(b) ==> {
        &&& be32(b, 16) <= 10000
        &&& be32(b, 20) <= 10000
        &&& (b[25] == 3 ==> png_plte_walk(b, 33))
    }
}

/// A BMP the decoder handles without faulting. The oldest header version
/// always carries a full 256-entry palette. For the newer versions: the
/// dimensions are moderate, an 8-bit (paletted) image declares a full
/// 256-entry palette so that every pixel byte has an entry, and a 24-bit
/// image does not use the channel-mask mode, whose mask positions can
/// point one byte past a 3-byte pixel. Files too short for their declared
/// header are fine: the decoder stops with a read error.
pub open spec fn bmp_safe(b: Seq<u8>) -> bool {
    let dib = le32(b, 14);
    dib == 12 || b.len() < 14 + dib || {
        let w = le32(b, 18);
        let h = le32(b, 22);
        let bits = le16(b, 28);
        let compression = le32(b, 30);
        let palette_len = le32(b, 46);
        &&& 1 <= w <= 10000
        &&& (1 <= h <= 10000 || 0xffffffff - 9999 <= h <= 0xffffffff)
        &&& (bits == 8 ==> palette_len == 256)
        &&& (bits == 24 ==> compression != 3)
    }
}

/// The byte buffers this library hands to the outside decoder: everything
/// except PNGs and BMPs whose decoding could index out of bounds, and
/// JPEG data, whose decoder is not admitted at all. On everything else
/// the decoder returns normally, with a result or an error.
pub open spec fn decode_safe(b: Seq<u8>) -> bool {
    if is_png_sig(b) {
        png_safe(b)
    } else if is_jpeg_sig(b) {
        false
    } else if is_bmp_hdr(b) {
        bmp_safe(b)
    } else {
        true
    }
}

/// Whether the outside decoder, fed these bytes, produces an image (as
/// opposed to reporting an error). A function of the bytes alone.
pub uninterp spec fn rgba_decode_ok(bytes: Seq<u8>) -> bool;

/// The width of the image the outside decoder produces from these bytes.
pub uninterp spec fn rgba_decode_w(bytes: Seq<u8>) -> nat;

/// The height of the image the outside decoder produces from these bytes.
pub uninterp spec fn rgba_decode_h(bytes: Seq<u8>) -> nat;

/// The RGBA8 pixel bytes the outside decoder produces from these bytes.
pub uninterp spec fn rgba_decode_pix(bytes: Seq<u8>) -> Seq<u8>;

/// The decoder's reported pixel buffer matches its reported dimensions.
pub open spec fn rgba_decode_shape_ok(bytes: Seq<u8>) -> bool {
    rgba_decode_pix(bytes).len() == rgba_decode_w(bytes) * rgba_decode_h(bytes) * 4
}

/// Declared so the outside decoder's error type can appear in a trusted
/// signature.
#[verifier::external_type_specification]
#[verifier::external_body]
pub struct ExImagefmtError(imagefmt::Error);

/// Relies on imagefmt::read_from with ColFmt::RGBA: it decodes an
/// in-memory image (PNG, TGA or BMP) into an RGBA8 pixel buffer with its
/// dimensions, or reports why it could not; the result depends on the
/// bytes alone, named here by `rgba_decode_ok` and its companions. The
/// `decode_safe` precondition keeps the inputs away from the decoder
/// paths that index out of bounds (short-palette images, oversized
/// dimensions, the JPEG decoder); on the admitted inputs the call returns
/// normally.
#[verifier::external_body]
fn decode_rgba_raw(bytes: &[u8]) -> (r: Result<DecodedImage, imagefmt::Error>)
    requires
        decode_safe(bytes@),
    ensures
        r is Ok == rgba_decode_ok(bytes@),
        r matches Ok(d) ==> d.width == rgba_decode_w(bytes@) && d.height == rgba_decode_h(bytes@)
            && d.pixels@ == rgba_decode_pix(bytes@),
{
    let mut cursor = std::io::Cursor::new(bytes);
    match imagefmt::read_from(&mut cursor, imagefmt::ColFmt::RGBA) {
        Ok(img) => Ok(DecodedImage { width: img.w, height: img.h, pixels: img.buf }),
        Err(e) => Err(e),
    }
}

/// Decode an in-memory image into RGBA8 pixels. Bytes outside the subset
/// this library hands to the decoder (`decode_safe`) are rejected as
/// `Unsupported` without consulting it. Within that subset: the result is
/// the decoded image exactly when the decoder produces one whose pixel
/// buffer matches its dimensions; a decoder failure is `Unsupported`; a
/// decoder result with a mismatched buffer is `BadShape`.
pub fn decode_rgba(bytes: &[u8]) -> (r: Result<DecodedImage, DecodeError>)
    ensures
        r matches Ok(d) ==> d.well_sized(),
        !decode_safe(bytes@) ==> r == Err::<DecodedImage, DecodeError>(DecodeError::Unsupported),
        decode_safe(bytes@) && !rgba_decode_ok(bytes@) ==> r == Err::<DecodedImage, DecodeError>(
            DecodeError::Unsupported,
        ),
        decode_safe(bytes@) && rgba_decode_ok(bytes@) && !rgba_decode_shape_ok(bytes@) ==> r
            == Err::<DecodedImage, DecodeError>(DecodeError::BadShape),
        decode_safe(bytes@) && rgba_decode_ok(bytes@) && rgba_decode_shape_ok(bytes@) ==> (
        r matches Ok(d) && d.width == rgba_decode_w(bytes@) && d.height == rgba_decode_h(bytes@)
            && d.pixels@ == rgba_decode_pix(bytes@)),
{
    if !decode_precheck(bytes) {
        return Err(DecodeError::Unsupported);
    }
    match decode_rgba_raw(bytes) {
        Ok(d) => {
            if rgba_size_matches(d.width, d.height, d.pixels.len()) {
                Ok(d)
            } else {
                Err(DecodeError::BadShape)
            }
        },
        Err(_) => Err(DecodeError::Unsupported),
    }
}

/// The little-endian 32-bit value at `off`, read from the slice.
fn read_le32(b: &[u8], off: usize) -> (r: u32)
    requires
        off + 4 <= b@.len(),
    ensures
        r == le32(b@, off as int),
{
    let n = b.len();
    (b[off] as u32) + 256 * (b[off + 1] as u32) + 65536 * (b[off + 2] as u32) + 16777216 * (b[off
        + 3] as u32)
}

/// The big-endian 32-bit value at `off`, read from the slice.
fn read_be32(b: &[u8], off: usize) -> (r: u32)
    requires
        off + 4 <= b@.len(),
    ensures
        r == be32(b@, off as int),
{
    let n = b.len();
    (b[off + 3] as u32) + 256 * (b[off + 2] as u32) + 65536 * (b[off + 1] as u32) + 16777216 * (
    b[off] as u32)
}

/// The little-endian 16-bit value at `off`, read from the slice.
fn read_le16(b: &[u8], off: usize) -> (r: u16)
    requires
        off + 2 <= b@.len(),
    ensures
        r == le16(b@, off as int),
{
    let n = b.len();
    (b[off] as u16) + 256 * (b[off + 1] as u16)
}

/// Walk the PNG chunk list, deciding `png_plte_walk(b, 33)`.
fn png_walk_check(b: &[u8]) -> (r: bool)
    requires
        b@.len() >= 33,
    ensures
        r == png_plte_walk(b@, 33),
{
    let n = b.len();
    let mut off: usize = 33;
    loop
        invariant
            33 <= off,
            n == b@.len(),
            png_plte_walk(b@, 33) == png_plte_walk(b@, off as int),
        decreases b@.len() - off,
    {
        if off > n || n - off < 8 {
            return true;
        }
        let clen = read_be32(b, off);
        if b[off + 4] == 0x49 && b[off + 5] == 0x44 && b[off + 6] == 0x41 && b[off + 7] == 0x54 {
            return false;
        }
        if b[off + 4] == 0x50 && b[off + 5] == 0x4c && b[off + 6] == 0x54 && b[off + 7] == 0x45
            && clen == 768 {
            return true;
        }
        let next = match off.checked_add(12) {
            Some(o) => match o.checked_add(clen as usize) {
                Some(end) => end,
                None => return true,
            },
            None => return true,
        };
        if next > n {
            return true;
        }
        off = next;
    }
}

/// Decide `decode_safe` for a byte buffer: the verified gate in front of
/// the outside decoder.
fn decode_precheck(b: &[u8]) -> (r: bool)
    ensures
        r == decode_safe(b@),
{
    let n = b.len();
    if n >= 8 && b[0] == 0x89 && b[1] == 0x50 && b[2] == 0x4e && b[3] == 0x47 && b[4] == 0x0d
        && b[5] == 0x0a && b[6] == 0x1a && b[7] == 0x0a {
        // PNG
        if !(n >= 33 && b[8] == 0 && b[9] == 0 && b[10] == 0 && b[11] == 13 && b[12] == 0x49
            && b[13] == 0x48 && b[14] == 0x44 && b[15] == 0x52) {
            return true;
        }
        if read_be32(b, 16) > 10000 || read_be32(b, 20) > 10000 {
            return false;
        }
        if b[25] == 3 {
            return png_walk_check(b);
        }
        true
    } else if n >= 2 && b[0] == 0xff && b[1] == 0xd8 {
        // JPEG
        false
    } else if n >= 18 && b[0] == 0x42 && b[1] == 0x4d && {
        let dib = read_le32(b, 14);
        dib == 12 || dib == 40 || dib == 52 || dib == 56 || dib == 108 || dib == 124
    } {
        // BMP
        let dib = read_le32(b, 14);
        if dib == 12 {
            return true;
        }
        if (n as u64) < 14 + (dib as u64) {
            return true;
        }
        let w = read_le32(b, 18);
        let h = read_le32(b, 22);
        let bits = read_le16(b, 28);
        let compression = read_le32(b, 30);
        let palette_len = read_le32(b, 46);
        (1 <= w && w <= 10000) && ((1 <= h && h <= 10000) || (0xffffffff - 9999 <= h)) && (bits
            != 8 || palette_len == 256) && (bits != 24 || compression != 3)
    } else {
        true
    }
}

} // verus!
