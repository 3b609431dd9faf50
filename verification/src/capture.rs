use vstd::prelude::*;
use crate::text::{decimal_text, push_decimal};

verus! {

/// DXGI format number of 8-bit BGRA pixels.
pub const DXGI_FORMAT_B8G8R8A8_UNORM: u32 = 87;

/// DXGI format number of 8-bit RGBA pixels.
pub const DXGI_FORMAT_R8G8B8A8_UNORM: u32 = 28;

#[verifier::external_type_specification]
#[verifier::external_body]
pub struct ExPngEncodingError(png::EncodingError);

#[verifier::external_type_specification]
#[verifier::external_body]
pub struct ExIoError(std::io::Error);

/// Why the capture worker could not be started.
#[derive(Debug)]
pub enum CaptureInitError {
    Worker(std::io::Error),
}

/// Why a capture request produced no PNG.
#[derive(Debug)]
pub enum CaptureError {
    Timeout,
    WorkerStopped,
    D3d(String),
    UnsupportedFormat(u32),
    Png(png::EncodingError),
}

impl CaptureError {
    /// The text that describes the error.
    pub fn message(&self) -> (text: String)
        ensures
            *self matches CaptureError::Timeout ==> text@
                == "no Spout frame arrived before the capture timeout"@,
            *self matches CaptureError::WorkerStopped ==> text@
                == "the Spout capture worker stopped"@,
            *self matches CaptureError::D3d(error) ==> text@ == "Direct3D Spout receive failed: "@
                + error@,
            *self matches CaptureError::UnsupportedFormat(format) ==> text@
                == "unsupported Spout DXGI format "@ + decimal_text(format as nat),
            *self matches CaptureError::Png(error) ==> exists|shown: String|
                vstd::string::to_string_from_display_ensures::<png::EncodingError>(&error, shown)
                    && text@ == "PNG encoding failed: "@ + shown@,
    {
        match self {
            CaptureError::Timeout => String::from_str("no Spout frame arrived before the capture timeout"),
            CaptureError::WorkerStopped => String::from_str("the Spout capture worker stopped"),
            CaptureError::D3d(error) => String::from_str("Direct3D Spout receive failed: ").concat(
                error.as_str(),
            ),
            CaptureError::UnsupportedFormat(format) => {
                let mut text = String::from_str("unsupported Spout DXGI format ");
                push_decimal(&mut text, *format);
                text
            },
            CaptureError::Png(error) => {
                let prefix = "PNG encoding failed: ";
                let shown = error.to_string();
                String::from_str(prefix).concat(shown.as_str())
            },
        }
    }
}

/// The message of the error for a staging buffer whose rows do not fit its length.
pub open spec fn invalid_row_pitch_message() -> Seq<char> {
    "Spout staging texture has an invalid row pitch"@
}

/// The staging buffer holds `height` rows of equal pitch, each long enough for
/// `width` four-byte pixels.
pub open spec fn row_pitch_is_valid(width: u32, height: u32, len: nat) -> bool {
    let pitch = len / (height as nat);
    &&& pitch >= width * 4
    &&& len == pitch * height
}

/// The two pixel formats that the capture converts.
pub open spec fn is_supported_format(format: u32) -> bool {
    format == DXGI_FORMAT_R8G8B8A8_UNORM || format == DXGI_FORMAT_B8G8R8A8_UNORM
}

/// The column of the staging row that output column `c` of an RGBA row is taken from:
/// BGRA input has its red and blue bytes exchanged, RGBA input is copied as it is.
pub open spec fn source_column(format: u32, c: int) -> int {
    if format == DXGI_FORMAT_B8G8R8A8_UNORM && c % 4 == 0 {
        c + 2
    } else if format == DXGI_FORMAT_B8G8R8A8_UNORM && c % 4 == 2 {
        c - 2
    } else {
        c
    }
}

/// Byte `i` of the tightly packed RGBA image made from a staging buffer.
pub open spec fn rgba_byte(width: u32, height: u32, format: u32, pixels: Seq<u8>, i: int) -> u8 {
    let row_len = width * 4;
    let pitch = pixels.len() / (height as nat);
    pixels[(i / row_len) * pitch + source_column(format, i % row_len)]
}

/// The tightly packed RGBA image: `height` rows of `width * 4` bytes, the padding at the
/// end of each staging row dropped.
pub open spec fn rgba_layout(width: u32, height: u32, format: u32, pixels: Seq<u8>) -> Seq<u8> {
    Seq::new((width * 4 * height) as nat, |i: int| rgba_byte(width, height, format, pixels, i))
}

proof fn lemma_row_fits(y: int, height: int, pitch: int, len: int)
    by (nonlinear_arith)
    requires
        0 <= y < height,
        pitch >= 0,
        len == pitch * height,
    ensures
        y * pitch + pitch <= len,
        0 <= y * pitch,
{
}

proof fn lemma_packed_index(y: int, row_len: int, c: int)
    requires
        0 <= c < row_len,
        0 <= y,
    ensures
        (y * row_len + c) / row_len == y,
        (y * row_len + c) % row_len == c,
{
    vstd::arithmetic::div_mod::lemma_fundamental_div_mod_converse_div(y * row_len + c, row_len, y, c);
    vstd::arithmetic::div_mod::lemma_fundamental_div_mod_converse_mod(y * row_len + c, row_len, y, c);
}

proof fn lemma_rows_fit(y: int, height: int, row_len: int, pitch: int)
    by (nonlinear_arith)
    requires
        0 <= y <= height,
        0 <= row_len <= pitch,
    ensures
        y * row_len <= height * pitch,
        y * row_len <= height * row_len,
        (y + 1) * row_len == y * row_len + row_len,
{
}

/// Packs the rows of a mapped staging texture into a tightly packed RGBA buffer,
/// exchanging red and blue for BGRA input.
pub fn rgba_pixels(width: u32, height: u32, format: u32, pixels: &[u8]) -> (res: Result<
    Vec<u8>,
    CaptureError,
>)
    requires
        height > 0,
        width > 0 || pixels@.len() > 0,
    ensures
        !row_pitch_is_valid(width, height, pixels@.len()) ==> (res matches Err(
            CaptureError::D3d(message),
        ) && message@ == invalid_row_pitch_message()),
        row_pitch_is_valid(width, height, pixels@.len()) && !is_supported_format(format) ==> res
            == Err::<Vec<u8>, CaptureError>(CaptureError::UnsupportedFormat(format)),
        row_pitch_is_valid(width, height, pixels@.len()) && is_supported_format(format) ==> (res
            matches Ok(rgba) && rgba@ == rgba_layout(width, height, format, pixels@)),
{
    let len = pixels.len();
    let rows = height as usize;
    let pitch = len / rows;
    proof {
        vstd::arithmetic::div_mod::lemma_fundamental_div_mod(len as int, rows as int);
        assert(pitch * rows <= len) by (nonlinear_arith)
            requires
                len == rows * pitch + len % rows,
                len % rows >= 0,
        ;
    }
    let packed_row_len: u64 = width as u64 * 4;
    if (pitch as u64) < packed_row_len || len != pitch * rows {
        return Err(CaptureError::D3d(String::from_str("Spout staging texture has an invalid row pitch")));
    }
    if format != DXGI_FORMAT_R8G8B8A8_UNORM && format != DXGI_FORMAT_B8G8R8A8_UNORM {
        return Err(CaptureError::UnsupportedFormat(format));
    }
    let swap = format == DXGI_FORMAT_B8G8R8A8_UNORM;
    let row_len = packed_row_len as usize;
    let columns = width as usize;
    let ghost expected = rgba_layout(width, height, format, pixels@);
    let mut rgba: Vec<u8> = Vec::new();
    let mut y: usize = 0;
    while y < rows
        invariant
            0 <= y <= rows,
            rows == height,
            rows > 0,
            len == pixels@.len(),
            pitch == pixels@.len() / (height as nat),
            len == pitch * rows,
            row_len == width * 4,
            row_len <= pitch,
            columns == width,
            swap == (format == DXGI_FORMAT_B8G8R8A8_UNORM),
            expected == rgba_layout(width, height, format, pixels@),
            rgba@.len() == y * row_len,
            forall|j: int| 0 <= j < rgba@.len() ==> rgba@[j] == expected[j],
        decreases rows - y,
    {
        proof {
            lemma_row_fits(y as int, rows as int, pitch as int, len as int);
            lemma_rows_fit(y as int, rows as int, row_len as int, pitch as int);
            lemma_rows_fit((y + 1) as int, rows as int, row_len as int, pitch as int);
        }
        let base = y * pitch;
        let mut x: usize = 0;
        while x < columns
            invariant
                0 <= y < rows,
                0 <= x <= columns,
                rows == height,
                len == pixels@.len(),
                pitch == pixels@.len() / (height as nat),
                row_len == width * 4,
                row_len <= pitch,
                columns == width,
                base == y * pitch,
                base + pitch <= len,
                swap == (format == DXGI_FORMAT_B8G8R8A8_UNORM),
                expected == rgba_layout(width, height, format, pixels@),
                (y + 1) * row_len == y * row_len + row_len,
                y * row_len + row_len <= rows * pitch,
                y * row_len + row_len <= expected.len(),
                rgba@.len() == y * row_len + 4 * x,
                forall|j: int| 0 <= j < rgba@.len() ==> rgba@[j] == expected[j],
            decreases columns - x,
        {
            let p = base + 4 * x;
            let ghost start = rgba@.len() as int;
            if swap {
                rgba.push(pixels[p + 2]);
                rgba.push(pixels[p + 1]);
                rgba.push(pixels[p]);
                rgba.push(pixels[p + 3]);
            } else {
                rgba.push(pixels[p]);
                rgba.push(pixels[p + 1]);
                rgba.push(pixels[p + 2]);
                rgba.push(pixels[p + 3]);
            }
            proof {
                assert forall|k: int| 0 <= k < 4 implies #[trigger] rgba@[start + k] == expected[start + k] by {
                    lemma_packed_index(y as int, row_len as int, 4 * x + k);
                    assert(start + k == y * row_len + (4 * x + k));
                    assert((4 * x + k) % 4 == k);
                    lemma_rows_fit((y + 1) as int, rows as int, row_len as int, pitch as int);
                    assert(start + k < row_len * height) by (nonlinear_arith)
                        requires
                            start + k < y * row_len + row_len,
                            y + 1 <= height,
                            row_len >= 0,
                    ;
                }
                assert forall|j: int| 0 <= j < rgba@.len() implies rgba@[j] == expected[j] by {
                    if j >= start {
                        assert(rgba@[start + (j - start)] == expected[start + (j - start)]);
                    }
                }
            }
            x = x + 1;
        }
        y = y + 1;
    }
    proof {
        assert(rgba@.len() == expected.len()) by (nonlinear_arith)
            requires
                rgba@.len() == y * row_len,
                y == rows,
                rows == height,
                row_len == width * 4,
                expected.len() == width * 4 * height,
        ;
        assert(rgba@ =~= expected);
    }
    Ok(rgba)
}

/// The bytes of the PNG file that the `png` crate writes for an 8-bit RGBA image of the
/// given size with its `Fast` compression setting.
pub uninterp spec fn png_rgba8_fast(width: u32, height: u32, rgba: Seq<u8>) -> Seq<u8>;

/// Encodes tightly packed 8-bit RGBA rows as a PNG file in memory with `png::Encoder`
/// (colour type RGBA, bit depth eight, `Compression::Fast`), then drops the writer, which
/// appends the closing chunk. Trusted: the encoder refuses a zero width (`write_header`)
/// and, for a buffer of exactly `width * 4 * height` bytes written to a `Vec`, fails in no
/// other way; the bytes it writes are named, not stated.
#[verifier::external_body]
fn write_rgba_png(width: u32, height: u32, rgba: &[u8]) -> (res: Result<Vec<u8>, png::EncodingError>)
    requires
        height > 0,
        rgba@.len() == width * 4 * height,
    ensures
        res is Ok <==> width > 0,
        res matches Ok(bytes) ==> bytes@ == png_rgba8_fast(width, height, rgba@),
{
    let mut output = Vec::new();
    let mut encoder = png::Encoder::new(std::io::Cursor::new(&mut output), width, height);
    encoder.set_color(png::ColorType::Rgba);
    encoder.set_depth(png::BitDepth::Eight);
    encoder.set_compression(png::Compression::Fast);
    let mut writer = encoder.write_header()?;
    writer.write_image_data(rgba)?;
    drop(writer);
    Ok(output)
}

/// What encoding a mapped staging texture gives: the row-pitch error when its rows do not
/// fit its length, the format error for a format other than RGBA or BGRA, the encoder's
/// error for a zero width, and otherwise the PNG of its tightly packed RGBA image.
pub open spec fn is_png_of(
    width: u32,
    height: u32,
    format: u32,
    pixels: Seq<u8>,
    res: Result<Vec<u8>, CaptureError>,
) -> bool {
    &&& !row_pitch_is_valid(width, height, pixels.len()) ==> (res matches Err(
        CaptureError::D3d(message),
    ) && message@ == invalid_row_pitch_message())
    &&& row_pitch_is_valid(width, height, pixels.len()) && !is_supported_format(format) ==> res
        == Err::<Vec<u8>, CaptureError>(CaptureError::UnsupportedFormat(format))
    &&& row_pitch_is_valid(width, height, pixels.len()) && is_supported_format(format) && width
        == 0 ==> (res matches Err(CaptureError::Png(_)))
    &&& row_pitch_is_valid(width, height, pixels.len()) && is_supported_format(format) && width
        > 0 ==> (res matches Ok(png) && png@ == png_rgba8_fast(
        width,
        height,
        rgba_layout(width, height, format, pixels),
    ))
}

/// Encodes a mapped staging texture as an RGBA PNG.
pub fn encode_png(width: u32, height: u32, format: u32, pixels: &[u8]) -> (res: Result<
    Vec<u8>,
    CaptureError,
>)
    requires
        height > 0,
        width > 0 || pixels@.len() > 0,
    ensures
        is_png_of(width, height, format, pixels@, res),
{
    let rgba = match rgba_pixels(width, height, format, pixels) {
        Ok(rgba) => rgba,
        Err(error) => return Err(error),
    };
    match write_rgba_png(width, height, rgba.as_slice()) {
        Ok(png) => Ok(png),
        Err(error) => Err(CaptureError::Png(error)),
    }
}
/// A staging buffer without row padding in RGBA order is encoded byte for byte as it is.
pub proof fn law_packed_rgba_is_unchanged(width: u32, height: u32, pixels: Seq<u8>)
    requires
        height > 0,
        width > 0,
        pixels.len() == width * 4 * height,
    ensures
        row_pitch_is_valid(width, height, pixels.len()),
        rgba_layout(width, height, DXGI_FORMAT_R8G8B8A8_UNORM, pixels) == pixels,
{
    let row_len = width * 4;
    let h = height as int;
    assert(pixels.len() == row_len * h) by (nonlinear_arith)
        requires
            pixels.len() == width * 4 * height,
            row_len == width * 4,
            h == height,
    ;
    vstd::arithmetic::div_mod::lemma_fundamental_div_mod_converse_div(pixels.len() as int, h, row_len, 0);
    assert(pixels.len() as int / h == row_len);
    let layout = rgba_layout(width, height, DXGI_FORMAT_R8G8B8A8_UNORM, pixels);
    assert forall|i: int| 0 <= i < pixels.len() implies #[trigger] layout[i] == pixels[i] by {
        vstd::arithmetic::div_mod::lemma_fundamental_div_mod(i, row_len);
        assert((i / row_len) * row_len + i % row_len == i) by (nonlinear_arith)
            requires
                i == row_len * (i / row_len) + i % row_len,
        ;
    }
    assert(layout =~= pixels);
}

} // verus!
