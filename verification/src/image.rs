//! Paletted image decoding and indexed image encoding.
//!
//! A candidate image buffer first has its four leading header bytes
//! overwritten with fixed values, forcing the stream to be read as a
//! version-5, run-length-encoded, 8-bit paletted image whatever its original
//! header said — a deliberate normalization for this legacy asset set, not
//! general format handling. The patched stream is then decoded row by row
//! through the `pcx` crate into a [`PaletteImage`], which the `png` crate
//! serializes as an 8-bit indexed image with its 256-colour palette.
//!
//! The `pcx` reader runs over an in-memory cursor, so everything it parses
//! is a function of the bytes it was built from. Those results are given
//! names here — whether the bytes parse, the header fields, each decoded
//! row, the trailing palette — and the decoder's contract states its result
//! through them: it succeeds exactly on a fully decodable 256-colour
//! paletted stream, and what it returns is pinned to those names.

use vstd::prelude::*;

use crate::error::ConvertError;

verus! {

/// A fully decoded 256-colour paletted image. Decoding either fills every
/// field or fails; no partial image exists.
pub struct PaletteImage {
    /// Width in pixels.
    pub width: u32,
    /// Height in pixels.
    pub height: u32,
    /// Row-major palette indices, one byte per pixel.
    pub pixels: Vec<u8>,
    /// Exactly 256 RGB triples.
    pub palette: Vec<u8>,
}

impl PaletteImage {
    /// Well-formedness: dimensions fit the source format's 16-bit fields,
    /// one palette index per pixel, and a full 256-entry RGB palette.
    pub open spec fn wf(self) -> bool {
        &&& self.width <= 0xFFFF
        &&& self.height <= 0xFFFF
        &&& self.pixels@.len() == self.width * self.height
        &&& self.palette@.len() == 768
    }
}

/// The fixed header bytes forced onto every candidate image: magic, version
/// five, run-length encoding, eight bits per pixel.
pub open spec fn patched(data: Seq<u8>) -> Seq<u8> {
    data.update(0, 0x0au8).update(1, 0x05u8).update(2, 0x01u8).update(3, 0x08u8)
}

/// The original first four bytes never matter: two buffers that agree from
/// byte four on patch to the same bytes, so everything downstream — parse,
/// decode, conversion — treats them alike.
pub proof fn lemma_patch_ignores_leading_bytes(a: Seq<u8>, b: Seq<u8>)
    requires
        a.len() == b.len(),
        a.len() >= 4,
        forall|i: int| 4 <= i < a.len() ==> a[i] == b[i],
    ensures
        patched(a) == patched(b),
{
    assert(patched(a) =~= patched(b));
}

/// Copies the buffer with its first four bytes overwritten by the fixed
/// header values.
pub fn patch_header(data: &Vec<u8>) -> (r: Vec<u8>)
    requires
        data@.len() >= 4,
    ensures
        r@ == patched(data@),
{
    let n = data.len();
    let mut r: Vec<u8> = Vec::new();
    r.push(0x0au8);
    r.push(0x05u8);
    r.push(0x01u8);
    r.push(0x08u8);
    proof {
        assert(r@ =~= patched(data@).take(4));
    }
    let mut i: usize = 4;
    while i < n
        invariant
            n == data@.len(),
            4 <= i <= n,
            r@ == patched(data@).take(i as int),
        decreases n - i,
    {
        r.push(data[i]);
        i = i + 1;
        proof {
            assert(r@ =~= patched(data@).take(i as int));
        }
    }
    proof {
        assert(patched(data@).take(n as int) =~= patched(data@));
    }
    r
}

/// Holds the `pcx` crate's reader, which carries the parsed header and the
/// row decompression state, over an owned byte cursor. The reader's generic
/// stream parameter keeps this a field of an opaque struct rather than a
/// declared outside type; the three spec functions below name what it
/// holds, and the wrappers' contracts speak through them.
#[verifier::external_body]
pub struct PcxReader {
    inner: pcx::Reader<std::io::Cursor<Vec<u8>>>,
}

/// The bytes the reader was built from. No call changes them.
pub uninterp spec fn reader_bytes(r: PcxReader) -> Seq<u8>;

/// How many rows the reader has handed out so far.
pub uninterp spec fn reader_rows_read(r: PcxReader) -> int;

/// Whether the reader has seen only successful row reads. A fresh reader is
/// in this state and every successful read keeps it; after a failed read
/// nothing more is promised of the reader, since the stream may have been
/// left partway through a row.
pub uninterp spec fn reader_ok(r: PcxReader) -> bool;

/// Whether the bytes parse as a PCX header at all.
pub uninterp spec fn pcx_parses(d: Seq<u8>) -> bool;

/// The palette size the parsed header announces, or `None` for direct RGB.
pub uninterp spec fn pcx_palette_len_of(d: Seq<u8>) -> Option<u16>;

/// The image width the parsed header announces.
pub uninterp spec fn pcx_width_of(d: Seq<u8>) -> u16;

/// The image height the parsed header announces.
pub uninterp spec fn pcx_height_of(d: Seq<u8>) -> u16;

/// Whether row `y` of the stream decodes, after rows `0..y` have.
pub uninterp spec fn pcx_row_ok(d: Seq<u8>, y: int) -> bool;

/// The decoded palette indices of row `y` of the stream.
pub uninterp spec fn pcx_row_of(d: Seq<u8>, y: int) -> Seq<u8>;

/// Whether the trailing 256-colour palette reads, from the position after
/// `rows` decoded rows.
pub uninterp spec fn pcx_palette_ok(d: Seq<u8>, rows: int) -> bool;

/// The 768 palette bytes read from the position after `rows` decoded rows.
pub uninterp spec fn pcx_palette_of(d: Seq<u8>, rows: int) -> Seq<u8>;

/// Declares the standard library's I/O error type, in which the `pcx`
/// crate reports every decode failure.
#[verifier::external_type_specification]
#[verifier::external_body]
pub struct ExIoError(std::io::Error);

/// Declares the `png` crate's encoding error type.
#[verifier::external_type_specification]
#[verifier::external_body]
pub struct ExPngEncodingError(png::EncodingError);

/// Relies on `pcx::Reader::new`: parses a PCX header from the bytes and
/// returns a reader positioned at the first pixel row, or an error for a
/// stream that is no PCX image. The reader runs over an in-memory cursor,
/// so success and every later result are functions of the bytes alone; the
/// header loader rejects zero dimensions, so a parsed stream is at least
/// one pixel wide and high.
#[verifier::external_body]
fn pcx_reader_new(data: Vec<u8>) -> (res: Result<PcxReader, std::io::Error>)
    ensures
        res matches Ok(rd) ==> pcx_parses(data@) && reader_bytes(rd) == data@ && reader_rows_read(
            rd,
        ) == 0 && reader_ok(rd) && 1 <= pcx_width_of(data@) && 1 <= pcx_height_of(data@),
        res is Err ==> !pcx_parses(data@),
{
    Ok(PcxReader { inner: pcx::Reader::new(std::io::Cursor::new(data))? })
}

/// Relies on `pcx::Reader::is_paletted`: whether the parsed header
/// describes a paletted image rather than direct RGB. In the source this is
/// exactly whether `palette_length` announces a palette.
#[verifier::external_body]
fn pcx_is_paletted(r: &PcxReader) -> (b: bool)
    ensures
        b == (pcx_palette_len_of(reader_bytes(*r)) is Some),
{
    r.inner.is_paletted()
}

/// Relies on `pcx::Reader::palette_length`: the palette size the parsed
/// header announces, or `None` for a direct RGB image.
#[verifier::external_body]
fn pcx_palette_length(r: &PcxReader) -> (res: Option<u16>)
    ensures
        res == pcx_palette_len_of(reader_bytes(*r)),
{
    r.inner.palette_length()
}

/// Relies on `pcx::Reader::width`: the image width from the parsed header.
#[verifier::external_body]
fn pcx_width(r: &PcxReader) -> (w: u16)
    ensures
        w == pcx_width_of(reader_bytes(*r)),
{
    r.inner.width()
}

/// Relies on `pcx::Reader::height`: the image height from the parsed header.
#[verifier::external_body]
fn pcx_height(r: &PcxReader) -> (h: u16)
    ensures
        h == pcx_height_of(reader_bytes(*r)),
{
    r.inner.height()
}

/// Relies on `pcx::Reader::next_row_paletted`: decodes the next pixel row
/// into a buffer sized to the image's own width, top to bottom, left to
/// right. For a reader that has seen only successful reads, the outcome and
/// the row are the named functions of the bytes and the row number; the
/// buffer keeps its length, so a returned row is exactly one image width
/// long.
#[verifier::external_body]
fn pcx_next_row(r: &mut PcxReader) -> (res: Result<Vec<u8>, std::io::Error>)
    ensures
        reader_bytes(*final(r)) == reader_bytes(*old(r)),
        res matches Ok(row) ==> (reader_ok(*old(r)) ==> reader_ok(*final(r)) && reader_rows_read(
            *final(r),
        )
            == reader_rows_read(*old(r)) + 1 && pcx_row_ok(
            reader_bytes(*old(r)),
            reader_rows_read(*old(r)),
        ) && row@ == pcx_row_of(reader_bytes(*old(r)), reader_rows_read(*old(r))) && row@.len()
            == pcx_width_of(reader_bytes(*old(r)))),
        reader_ok(*old(r)) && res is Err ==> !pcx_row_ok(
            reader_bytes(*old(r)),
            reader_rows_read(*old(r)),
        ),
{
    let mut buffer = vec![0u8; r.inner.width() as usize];
    r.inner.next_row_paletted(&mut buffer)?;
    Ok(buffer)
}

/// Relies on `pcx::Reader::read_palette`: reads the 256-colour palette
/// stored at the end of the stream into a 768-byte buffer, consuming the
/// reader. The buffer keeps its length whatever was read into it; for a
/// reader that has seen only successful reads, the outcome and the palette
/// bytes are the named functions of the bytes and the rows already read.
#[verifier::external_body]
fn pcx_read_palette(r: PcxReader) -> (res: Result<Vec<u8>, std::io::Error>)
    ensures
        res matches Ok(p) ==> p@.len() == 768,
        res matches Ok(p) ==> (reader_ok(r) ==> pcx_palette_ok(
            reader_bytes(r),
            reader_rows_read(r),
        ) && p@ == pcx_palette_of(reader_bytes(r), reader_rows_read(r))),
        reader_ok(r) && res is Err ==> !pcx_palette_ok(reader_bytes(r), reader_rows_read(r)),
{
    let mut buffer = vec![0u8; 768];
    r.inner.read_palette(&mut buffer)?;
    Ok(buffer)
}

/// A fully decodable 256-colour paletted stream: it parses, announces a
/// 256-entry palette, and every row and the trailing palette read.
pub open spec fn pcx_ok(d: Seq<u8>) -> bool {
    &&& pcx_parses(d)
    &&& pcx_palette_len_of(d) == Some(256u16)
    &&& forall|y: int| 0 <= y < pcx_height_of(d) ==> pcx_row_ok(d, y)
    &&& pcx_palette_ok(d, pcx_height_of(d) as int)
}

/// The first `n` decoded rows of the stream, concatenated in order.
pub open spec fn pcx_rows_concat(d: Seq<u8>, n: int) -> Seq<u8>
    decreases n,
{
    if n <= 0 {
        Seq::empty()
    } else {
        pcx_rows_concat(d, n - 1) + pcx_row_of(d, n - 1)
    }
}

/// The bytes of the indexed image container produced for these dimensions,
/// this palette and these pixels: a pure function of its arguments, far too
/// long to spell out.
pub uninterp spec fn png_bytes_of(
    width: u32,
    height: u32,
    palette: Seq<u8>,
    pixels: Seq<u8>,
) -> Seq<u8>;

/// Relies on `png::Encoder::new`, `set_color`, `set_depth`, `set_palette`,
/// `png::Encoder::write_header`, `png::Writer::write_image_data` and
/// `png::Writer::finish`: together they serialize one complete 8-bit
/// indexed image with the given palette as its colour table and the given
/// bytes as its pixel data, deterministically from the arguments alone.
/// Writing into a byte vector, the only failures are a zero dimension, an
/// invalid colour/depth pairing, a missing palette or a pixel buffer whose
/// size does not match the dimensions, so a 768-byte palette with a
/// matching buffer and nonzero dimensions is owed success.
#[verifier::external_body]
fn png_write_indexed(width: u32, height: u32, palette: &Vec<u8>, pixels: &Vec<u8>) -> (res: Result<
    Vec<u8>,
    png::EncodingError,
>)
    requires
        width <= 0xFFFF,
        height <= 0xFFFF,
    ensures
        res matches Ok(out) ==> out@ == png_bytes_of(width, height, palette@, pixels@),
        width > 0 && height > 0 && palette@.len() == 768 && pixels@.len() == width * height
            ==> res is Ok,
        width == 0 || height == 0 ==> res is Err,
{
    let mut out: Vec<u8> = Vec::new();
    let mut encoder = png::Encoder::new(&mut out, width, height);
    encoder.set_color(png::ColorType::Indexed);
    encoder.set_depth(png::BitDepth::Eight);
    encoder.set_palette(palette.clone());
    let mut writer = encoder.write_header()?;
    writer.write_image_data(pixels.as_slice())?;
    writer.finish()?;
    Ok(out)
}

/// Decodes one candidate image buffer into a fully populated palette image.
///
/// A buffer under four bytes is rejected outright. Otherwise the patched
/// bytes decide everything: decoding succeeds exactly when they are a fully
/// decodable 256-colour paletted stream, and then the image carries the
/// parsed dimensions, the decoded rows in order and the trailing palette.
/// A stream that parses without a 256-entry palette is exactly the
/// not-paletted failure; every other failure is a decode failure.
pub fn decode_pcx(data: &Vec<u8>) -> (r: Result<PaletteImage, ConvertError>)
    ensures
        data@.len() < 4 <==> r matches Err(ConvertError::TooSmallError),
        data@.len() >= 4 ==> (r is Ok <==> pcx_ok(patched(data@))),
        data@.len() >= 4 ==> ((r == Err::<PaletteImage, ConvertError>(
            ConvertError::NotPalettedError,
        )) <==> (pcx_parses(patched(data@)) && pcx_palette_len_of(patched(data@)) != Some(
            256u16,
        ))),
        r matches Ok(img) ==> img.wf() && 1 <= img.width && 1 <= img.height && img.width
            == pcx_width_of(patched(data@)) as u32 && img.height == pcx_height_of(
            patched(data@),
        ) as u32 && img.pixels@ == pcx_rows_concat(
            patched(data@),
            pcx_height_of(patched(data@)) as int,
        ) && img.palette@ == pcx_palette_of(
            patched(data@),
            pcx_height_of(patched(data@)) as int,
        ),
        r matches Err(e) ==> (e == ConvertError::TooSmallError || e == ConvertError::DecodeError
            || e == ConvertError::NotPalettedError),
{
    if data.len() < 4 {
        return Err(ConvertError::TooSmallError);
    }
    let patched_data = patch_header(data);
    let ghost d = patched_data@;
    let mut reader = match pcx_reader_new(patched_data) {
        Ok(rd) => rd,
        Err(_) => {
            return Err(ConvertError::DecodeError);
        },
    };
    if !pcx_is_paletted(&reader) {
        return Err(ConvertError::NotPalettedError);
    }
    let full_palette = match pcx_palette_length(&reader) {
        Some(n) => n == 256,
        None => false,
    };
    if !full_palette {
        return Err(ConvertError::NotPalettedError);
    }
    let w16 = pcx_width(&reader);
    let h16 = pcx_height(&reader);
    let w = w16 as usize;
    let h = h16 as usize;
    let mut pixels: Vec<u8> = Vec::new();
    let mut y: usize = 0;
    while y < h
        invariant
            data@.len() >= 4,
            d == patched(data@),
            reader_ok(reader),
            reader_bytes(reader) == d,
            reader_rows_read(reader) == y as int,
            pcx_parses(d),
            pcx_palette_len_of(d) == Some(256u16),
            w == w16 as usize,
            h == h16 as usize,
            w16 == pcx_width_of(d),
            h16 == pcx_height_of(d),
            1 <= w16,
            1 <= h16,
            y <= h,
            forall|yy: int| 0 <= yy < y ==> pcx_row_ok(d, yy),
            pixels@ == pcx_rows_concat(d, y as int),
            pixels@.len() == y * w,
        decreases h - y,
    {
        let mut row = match pcx_next_row(&mut reader) {
            Ok(v) => v,
            Err(_) => {
                return Err(ConvertError::DecodeError);
            },
        };
        pixels.append(&mut row);
        y = y + 1;
        proof {
            assert(pixels@ =~= pcx_rows_concat(d, y as int));
            assert(y * w == (y - 1) * w + w) by (nonlinear_arith);
        }
    }
    let palette = match pcx_read_palette(reader) {
        Ok(p) => p,
        Err(_) => {
            return Err(ConvertError::DecodeError);
        },
    };
    let img = PaletteImage { width: w16 as u32, height: h16 as u32, pixels, palette };
    proof {
        assert(img.pixels@.len() == h * w);
        assert(h * w == img.height * img.width);
        assert(img.width * img.height == img.height * img.width) by (nonlinear_arith);
    }
    Ok(img)
}

/// Serializes a palette image as one indexed image container, bit depth
/// eight, with the palette as its colour table and the pixel indices as its
/// image data. Succeeds exactly when the image has a nonzero width and
/// height, and then the output is the named encoding of exactly this image.
pub fn encode_png(img: &PaletteImage) -> (r: Result<Vec<u8>, ConvertError>)
    requires
        img.wf(),
    ensures
        r is Ok <==> img.width > 0 && img.height > 0,
        r matches Ok(out) ==> out@ == png_bytes_of(img.width, img.height, img.palette@, img.pixels@),
        r matches Err(e) ==> e == ConvertError::EncodeError,
{
    match png_write_indexed(img.width, img.height, &img.palette, &img.pixels) {
        Ok(out) => Ok(out),
        Err(_) => Err(ConvertError::EncodeError),
    }
}

/// Converts one candidate image buffer to the bytes of its indexed image
/// container: decode, then encode. Succeeds exactly when the patched bytes
/// are a fully decodable 256-colour paletted stream, and then the output is
/// the named encoding of the parsed dimensions, the trailing palette and
/// the decoded rows in order.
pub fn convert_pcx_bytes(data: &Vec<u8>) -> (r: Result<Vec<u8>, ConvertError>)
    ensures
        data@.len() < 4 <==> r matches Err(ConvertError::TooSmallError),
        data@.len() >= 4 ==> (r is Ok <==> pcx_ok(patched(data@))),
        data@.len() >= 4 ==> ((r == Err::<Vec<u8>, ConvertError>(ConvertError::NotPalettedError))
            <==> (pcx_parses(patched(data@)) && pcx_palette_len_of(patched(data@)) != Some(
            256u16,
        ))),
        r matches Ok(out) ==> out@ == png_bytes_of(
            pcx_width_of(patched(data@)) as u32,
            pcx_height_of(patched(data@)) as u32,
            pcx_palette_of(patched(data@), pcx_height_of(patched(data@)) as int),
            pcx_rows_concat(patched(data@), pcx_height_of(patched(data@)) as int),
        ),
        r matches Err(e) ==> (e == ConvertError::TooSmallError || e == ConvertError::DecodeError
            || e == ConvertError::NotPalettedError),
{
    let img = match decode_pcx(data) {
        Ok(img) => img,
        Err(e) => {
            return Err(e);
        },
    };
    match encode_png(&img) {
        Ok(out) => Ok(out),
        Err(e) => Err(e),
    }
}

} // verus!
