//! From a captured buffer to an image: the channel order of each layout, the
//! rows of a buffer without their padding, and the encoded still image.

use crate::buffer_pool::{BufferSpec, PixelFormat};
use crate::types::{CapturerError, ErrorView};
use vstd::prelude::*;

verus! {

/// The error of the `image` crate, which the engine only passes on.
#[verifier::external_type_specification]
#[verifier::external_body]
pub struct ExImageError(image::ImageError);

/// The PNG file that the `image` crate writes for an image of the given
/// width and height whose pixels are the given bytes, four to the pixel in
/// the order red, green, blue, alpha, row after row; nothing where the crate
/// refuses to encode the image.
pub uninterp spec fn png_encoding(width: u32, height: u32, rgba: Seq<u8>) -> Option<Seq<u8>>;

/// Encodes an image as PNG, in memory. Calls `image::ImageBuffer::from_raw`,
/// which accepts a buffer of at least four bytes to the pixel, and
/// `image::ImageBuffer::write_to` with `image::ImageOutputFormat::Png`, which
/// encodes exactly the pixels of the image. The contract claims that what
/// is written depends on the width, the height and the bytes alone, and
/// names it; it claims nothing of the bytes themselves.
#[verifier::external_body]
fn png_encode(width: u32, height: u32, rgba: Vec<u8>) -> (r: Result<Vec<u8>, image::ImageError>)
    requires
        rgba@.len() == 4 * width * height,
    ensures
        match r {
            Ok(bytes) => png_encoding(width, height, rgba@) == Some(bytes@),
            Err(_) => png_encoding(width, height, rgba@) is None,
        },
{
    let pixels: image::ImageBuffer<image::Rgba<u8>, Vec<u8>> = image::ImageBuffer::from_raw(
        width,
        height,
        rgba,
    ).expect("four bytes to the pixel");
    let mut file = std::io::Cursor::new(Vec::new());
    pixels.write_to(&mut file, image::ImageOutputFormat::Png)?;
    Ok(file.into_inner())
}

/// The place, within the four bytes of a pixel in a buffer, of the byte that
/// becomes the given channel of the image.
pub open spec fn channel_source(format: PixelFormat, channel: int) -> int {
    match format {
        PixelFormat::Argb8888 => (channel + 1) % 4,
        _ => channel,
    }
}

/// The four bytes of the image for the pixel in row `y`, column `x` of a
/// buffer.
pub open spec fn pixel_bytes(contents: Seq<u8>, spec: BufferSpec, y: int, x: int) -> Seq<u8> {
    Seq::new(
        4,
        |channel: int| contents[y * spec.stride + 4 * x + channel_source(spec.format, channel)],
    )
}

/// The bytes of the image for the first `count` pixels of row `y`.
pub open spec fn row_pixels(contents: Seq<u8>, spec: BufferSpec, y: int, count: int) -> Seq<u8>
    decreases count,
{
    if count <= 0 {
        Seq::empty()
    } else {
        row_pixels(contents, spec, y, count - 1) + pixel_bytes(contents, spec, y, count - 1)
    }
}

/// The bytes of the image for the first `count` rows of a buffer.
pub open spec fn image_rows(contents: Seq<u8>, spec: BufferSpec, count: int) -> Seq<u8>
    decreases count,
{
    if count <= 0 {
        Seq::empty()
    } else {
        image_rows(contents, spec, count - 1) + row_pixels(
            contents,
            spec,
            count - 1,
            spec.width as int,
        )
    }
}

/// Whether a buffer has the size that its shape says, with rows long enough
/// for their pixels.
pub open spec fn well_shaped(contents: Seq<u8>, spec: BufferSpec) -> bool {
    contents.len() == spec.byte_len() && spec.stride >= 4 * spec.width
}

/// The pixels of a captured buffer in the order red, green, blue, alpha,
/// without the padding of its rows. Fails for a layout that the engine does
/// not convert, and for a buffer that has not the size of its shape.
pub open spec fn spec_to_rgba(contents: Seq<u8>, spec: BufferSpec) -> Result<Seq<u8>, ErrorView> {
    if !spec.format.spec_supported() {
        Err(ErrorView::UnsupportedPixelFormat)
    } else if !well_shaped(contents, spec) {
        Err(ErrorView::CopyFailed)
    } else {
        Ok(image_rows(contents, spec, spec.height as int))
    }
}

/// The still image for a captured buffer: its converted pixels, encoded.
pub open spec fn spec_encode_frame(contents: Seq<u8>, spec: BufferSpec) -> Result<
    Seq<u8>,
    ErrorView,
> {
    match spec_to_rgba(contents, spec) {
        Err(e) => Err(e),
        Ok(rgba) => match png_encoding(spec.width, spec.height, rgba) {
            Some(bytes) => Ok(bytes),
            None => Err(ErrorView::IoWriteFailed),
        },
    }
}

/// Whether an executable result is the one that a specification gives.
pub open spec fn agrees(r: Result<Vec<u8>, CapturerError>, expected: Result<Seq<u8>, ErrorView>)
    -> bool {
    match expected {
        Ok(bytes) => r is Ok && r->Ok_0@ == bytes,
        Err(e) => r is Err && r->Err_0@ == e,
    }
}

/// The bytes for part of a row number four to the pixel.
pub proof fn lemma_row_len(contents: Seq<u8>, spec: BufferSpec, y: int, count: int)
    requires
        0 <= count,
    ensures
        row_pixels(contents, spec, y, count).len() == 4 * count,
    decreases count,
{
    if count > 0 {
        lemma_row_len(contents, spec, y, count - 1);
    }
}

/// The bytes for a number of rows are four to the pixel, the width times the
/// number of rows.
pub proof fn lemma_image_len(contents: Seq<u8>, spec: BufferSpec, count: int)
    requires
        0 <= count,
    ensures
        image_rows(contents, spec, count).len() == 4 * spec.width * count,
    decreases count,
{
    let width = spec.width as int;
    if count > 0 {
        lemma_image_len(contents, spec, count - 1);
        lemma_row_len(contents, spec, count - 1, width);
        assert(4 * width * (count - 1) + 4 * width == 4 * width * count) by (nonlinear_arith);
    } else {
        assert(4 * width * count == 0) by (nonlinear_arith)
            requires
                count == 0,
        ;
    }
}

/// Each byte of a converted row comes from its pixel's place in the buffer:
/// channel `c` of pixel `x` is the byte at `4 * x + c` of the row.
pub proof fn lemma_row_index(
    contents: Seq<u8>,
    spec: BufferSpec,
    y: int,
    count: int,
    x: int,
    channel: int,
)
    requires
        0 <= x < count,
        0 <= channel < 4,
    ensures
        row_pixels(contents, spec, y, count).len() == 4 * count,
        row_pixels(contents, spec, y, count)[4 * x + channel] == contents[y * spec.stride + 4 * x
            + channel_source(spec.format, channel)],
    decreases count,
{
    lemma_row_len(contents, spec, y, count);
    lemma_row_len(contents, spec, y, count - 1);
    if x < count - 1 {
        lemma_row_index(contents, spec, y, count - 1, x, channel);
    }
}

/// Each byte of a converted image comes from its pixel's place in the buffer:
/// channel `c` of the pixel in row `y`, column `x` stands at
/// `4 * (y * width + x) + c`.
pub proof fn lemma_image_index(
    contents: Seq<u8>,
    spec: BufferSpec,
    count: int,
    y: int,
    x: int,
    channel: int,
)
    requires
        0 <= y < count,
        0 <= x < spec.width,
        0 <= channel < 4,
    ensures
        0 <= 4 * (y * spec.width + x) + channel < image_rows(contents, spec, count).len(),
        image_rows(contents, spec, count)[4 * (y * spec.width + x) + channel] == contents[y
            * spec.stride + 4 * x + channel_source(spec.format, channel)],
    decreases count,
{
    let width = spec.width as int;
    lemma_image_len(contents, spec, count);
    lemma_image_len(contents, spec, count - 1);
    lemma_row_len(contents, spec, count - 1, width);
    assert(4 * width * (count - 1) + 4 * width == 4 * width * count) by (nonlinear_arith);
    assert(4 * (y * width + x) + channel == 4 * width * y + 4 * x + channel) by (nonlinear_arith);
    assert(0 <= 4 * width * y) by (nonlinear_arith)
        requires
            0 <= y,
            0 <= width,
    ;
    if y < count - 1 {
        assert(4 * width * y + 4 * width <= 4 * width * (count - 1)) by (nonlinear_arith)
            requires
                y + 1 <= count - 1,
                0 <= width,
        ;
        lemma_image_index(contents, spec, count - 1, y, x, channel);
    } else {
        lemma_row_index(contents, spec, y, width, x, channel);
    }
}

/// Converts a captured buffer to the byte order of an image.
pub fn to_rgba(contents: &[u8], spec: &BufferSpec) -> (r: Result<Vec<u8>, CapturerError>)
    ensures
        agrees(r, spec_to_rgba(contents@, *spec)),
        r is Ok ==> r->Ok_0@.len() == 4 * spec.width * spec.height,
{
    if !spec.format.supported() {
        return Err(CapturerError::UnsupportedPixelFormat);
    }
    let stride: u64 = spec.stride as u64;
    let height: u64 = spec.height as u64;
    assert(stride * height <= 0xffff_ffff * 0xffff_ffff) by (nonlinear_arith)
        requires
            stride <= 0xffff_ffff,
            height <= 0xffff_ffff,
    ;
    if contents.len() as u64 != stride * height || stride < 4 * (spec.width as u64) {
        return Err(CapturerError::CopyFailed);
    }
    let argb: bool = match spec.format {
        PixelFormat::Argb8888 => true,
        _ => false,
    };
    let mut out: Vec<u8> = Vec::new();
    let mut y: u32 = 0;
    let mut row_start: usize = 0;
    while y < spec.height
        invariant
            y <= spec.height,
            contents@.len() <= usize::MAX,
            well_shaped(contents@, *spec),
            spec.format.spec_supported(),
            argb == (spec.format == PixelFormat::Argb8888),
            row_start == y * spec.stride,
            row_start <= contents@.len(),
            out@ == image_rows(contents@, *spec, y as int),
        decreases spec.height - y,
    {
        assert((y + 1) * spec.stride <= spec.stride * spec.height) by (nonlinear_arith)
            requires
                y + 1 <= spec.height,
        ;
        assert((y + 1) * spec.stride == y * spec.stride + spec.stride) by (nonlinear_arith);
        let mut x: u32 = 0;
        while x < spec.width
            invariant
                x <= spec.width,
                y < spec.height,
                contents@.len() <= usize::MAX,
                well_shaped(contents@, *spec),
                spec.format.spec_supported(),
                argb == (spec.format == PixelFormat::Argb8888),
                row_start == y * spec.stride,
                row_start + spec.stride <= contents@.len(),
                out@ == image_rows(contents@, *spec, y as int) + row_pixels(
                    contents@,
                    *spec,
                    y as int,
                    x as int,
                ),
            decreases spec.width - x,
        {
            let at: usize = row_start + 4 * (x as usize);
            let ghost before = out@;
            if argb {
                out.push(contents[at + 1]);
                out.push(contents[at + 2]);
                out.push(contents[at + 3]);
                out.push(contents[at]);
            } else {
                out.push(contents[at]);
                out.push(contents[at + 1]);
                out.push(contents[at + 2]);
                out.push(contents[at + 3]);
            }
            assert(out@ =~= before + pixel_bytes(contents@, *spec, y as int, x as int));
            x += 1;
            assert(out@ =~= image_rows(contents@, *spec, y as int) + row_pixels(
                contents@,
                *spec,
                y as int,
                x as int,
            ));
        }
        row_start = row_start + spec.stride as usize;
        y += 1;
    }
    proof {
        lemma_image_len(contents@, *spec, spec.height as int);
    }
    Ok(out)
}

/// Turns the outcome of the encoder into the engine's own: the file as it
/// is, and any refusal as a failure to write.
pub fn finish_encoding(encoded: Result<Vec<u8>, image::ImageError>) -> (r: Result<
    Vec<u8>,
    CapturerError,
>)
    ensures
        match encoded {
            Ok(bytes) => r == Ok::<Vec<u8>, CapturerError>(bytes),
            Err(_) => r is Err && r->Err_0@ == ErrorView::IoWriteFailed,
        },
{
    match encoded {
        Ok(bytes) => Ok(bytes),
        Err(_) => Err(CapturerError::IoWriteFailed),
    }
}

/// Makes the still image of a captured buffer: converts its pixels and
/// encodes them as PNG.
pub fn encode_frame(contents: &[u8], spec: &BufferSpec) -> (r: Result<Vec<u8>, CapturerError>)
    ensures
        agrees(r, spec_encode_frame(contents@, *spec)),
{
    let rgba = match to_rgba(contents, spec) {
        Ok(rgba) => rgba,
        Err(e) => {
            return Err(e);
        },
    };
    finish_encoding(png_encode(spec.width, spec.height, rgba))
}

} // verus!
