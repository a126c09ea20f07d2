use vstd::prelude::*;

use crate::cli::SupportedImageFormat;
use crate::errors::AppError;

verus! {

/// What the Thumbnail Pipeline is asked for: a bounding-box edge length
/// and an output encoding.
pub struct ImageProcessingOptions {
    pub size: u32,
    pub format: SupportedImageFormat,
}

/// An encoded thumbnail, ready for upload: raw bytes plus the encoding
/// they were produced with.
pub struct ProcessedImage {
    pub data: Vec<u8>,
    pub format: SupportedImageFormat,
}

/// What the decoder reads out of a byte stream: `None` when the bytes are
/// not a decodable image, otherwise the image's width and height. Both
/// wrappers that apply this name decode the same way: the built-in
/// magic-byte table picks the decoder (no process-global hook is ever
/// consulted) and no allocation cap cuts the set of decodable images, so
/// the outcome is a function of the bytes alone.
pub uninterp spec fn decoded_dims(data: Seq<u8>) -> Option<(u32, u32)>;

/// What resizing the image decoded from a byte stream to nw×nh and
/// re-encoding it in the given format produces: `None` when decoding or
/// encoding fails. A function of the arguments alone.
pub uninterp spec fn encoded_thumb_of(data: Seq<u8>, nw: nat, nh: nat, f: SupportedImageFormat) -> Option<Seq<u8>>;

/// The container format the magic bytes of a stream declare, as the
/// decoder's format guesser reads them; `None` for a format outside this
/// crate's enumeration.
pub uninterp spec fn guessed_format(data: Seq<u8>) -> Option<SupportedImageFormat>;

/// Relies on image::guess_format (the static magic-byte table only, no
/// hooks) and image::ImageReader::decode with an explicit format (so the
/// decoding-hook table is never read) and no allocation cap: whether
/// bytes decode, and to which dimensions, is a function of the bytes
/// alone.
#[verifier::external_body]
fn decode_dims(data: &Vec<u8>) -> (r: Option<(u32, u32)>)
    ensures
        r == decoded_dims(data@),
{
    let fmt = image::guess_format(data.as_slice()).ok()?;
    let mut reader = image::ImageReader::with_format(std::io::Cursor::new(data.as_slice()), fmt);
    reader.no_limits();
    let img = reader.decode().ok()?;
    Some((img.width(), img.height()))
}

/// Relies on image::guess_format and image::ImageReader::decode (as in
/// the dimension wrapper: explicit format, no hooks, no allocation cap),
/// image::DynamicImage::resize_exact and image::DynamicImage::write_to:
/// the re-encoded thumbnail is a function of the bytes, the dimensions
/// and the format alone; the encoder writes the requested container
/// format, whose magic bytes identify it, and — since decoding is not
/// capped — the image keeps the requested dimensions through the round
/// trip, whatever its size.
#[verifier::external_body]
fn resize_encode(
    data: &Vec<u8>,
    nw: u32,
    nh: u32,
    format: SupportedImageFormat,
) -> (r: Option<Vec<u8>>)
    requires
        1 <= nw,
        1 <= nh,
    ensures
        match r {
            Some(bytes) => {
                &&& encoded_thumb_of(data@, nw as nat, nh as nat, format) == Some(bytes@)
                &&& decoded_dims(bytes@) == Some((nw, nh))
                &&& guessed_format(bytes@) == Some(format)
            },
            None => encoded_thumb_of(data@, nw as nat, nh as nat, format) is None,
        },
{
    let fmt_in = image::guess_format(data.as_slice()).ok()?;
    let mut reader = image::ImageReader::with_format(std::io::Cursor::new(data.as_slice()), fmt_in);
    reader.no_limits();
    let img = reader.decode().ok()?;
    let fmt_out = match format {
        SupportedImageFormat::Png => image::ImageFormat::Png,
        SupportedImageFormat::Webp => image::ImageFormat::WebP,
    };
    let resized = img.resize_exact(nw, nh, image::imageops::FilterType::Triangle);
    let mut buf = std::io::Cursor::new(Vec::new());
    resized.write_to(&mut buf, fmt_out).ok()?;
    Some(buf.into_inner())
}

/// One side scaled by t/big, rounded to the nearest pixel, and kept from
/// collapsing to zero.
pub open spec fn spec_scaled_side(side: nat, t: nat, big: nat) -> nat
    recommends
        1 <= big,
{
    let s = (side * t + big / 2) / big;
    if s == 0 {
        1
    } else {
        s
    }
}

/// The bounding-box fit: dimensions untouched when the image already fits
/// in the t×t box, otherwise scaled down so the larger side becomes t and
/// the smaller one keeps the aspect ratio to the nearest pixel.
pub open spec fn spec_thumbnail_dims(w: nat, h: nat, t: nat) -> (nat, nat)
    recommends
        1 <= w,
        1 <= h,
        1 <= t,
{
    if w <= t && h <= t {
        (w, h)
    } else if h <= w {
        (t, spec_scaled_side(h, t, w))
    } else {
        (spec_scaled_side(w, t, h), t)
    }
}

/// What the whole pipeline produces for given bytes, edge and format:
/// the bounding-box dimensions applied to the decoded image and the
/// result re-encoded — `None` exactly when the pipeline must fail.
pub open spec fn spec_thumb_bytes(bytes: Seq<u8>, edge: u32, f: SupportedImageFormat) -> Option<
    Seq<u8>,
> {
    match decoded_dims(bytes) {
        Some(d) => if d.0 == 0 || d.1 == 0 {
            None
        } else {
            let dims = spec_thumbnail_dims(d.0 as nat, d.1 as nat, edge as nat);
            encoded_thumb_of(bytes, dims.0, dims.1, f)
        },
        None => None,
    }
}

/// The fixed message of each pipeline failure, so that the whole result
/// of the pipeline — error text included — is a function of its inputs.
pub open spec fn spec_thumb_error_msg(bytes: Seq<u8>, edge: u32, f: SupportedImageFormat) -> Seq<
    char,
> {
    match decoded_dims(bytes) {
        None => "the input bytes are not a decodable image"@,
        Some(d) => if d.0 == 0 || d.1 == 0 {
            "image has no pixels"@
        } else {
            "re-encoding the thumbnail failed"@
        },
    }
}

fn scaled_side(side: u32, t: u32, big: u32) -> (r: u32)
    requires
        1 <= big,
        1 <= t,
        side <= big,
    ensures
        r as nat == spec_scaled_side(side as nat, t as nat, big as nat),
{
    proof {
        assert((side as int) * (t as int) + (big as int) / 2 < 0x1_0000_0000_0000_0000int)
            by (nonlinear_arith)
            requires
                0 <= side as int <= 0xffff_ffffint,
                0 <= t as int <= 0xffff_ffffint,
                0 <= big as int <= 0xffff_ffffint,
        ;
    }
    let num: u64 = (side as u64) * (t as u64) + (big as u64) / 2;
    let s: u64 = num / (big as u64);
    proof {
        lemma_scaled_side_le(side as nat, t as nat, big as nat);
    }
    if s == 0 {
        1
    } else {
        s as u32
    }
}

/// The scaled smaller side never exceeds the target edge.
proof fn lemma_scaled_side_le(side: nat, t: nat, big: nat)
    requires
        1 <= big,
        1 <= t,
        side <= big,
    ensures
        spec_scaled_side(side, t, big) <= t,
{
    let num = side * t + big / 2;
    let s = num / big;
    vstd::arithmetic::div_mod::lemma_remainder(num as int, big as int);
    assert(0 <= num - s * big < big);
    assert(num <= big * t + big / 2) by (nonlinear_arith)
        requires
            side <= big,
            0 <= t,
            num == side * t + big / 2,
    ;
    assert(s <= t) by (nonlinear_arith)
        requires
            1 <= big,
            0 <= s,
            0 <= t,
            0 <= num - s * big < big,
            num <= big * t + big / 2,
    ;
}

/// For source dimensions w×h and target edge t: the thumbnail fits the
/// t×t box, neither side collapses to zero, the larger side is t — or the
/// source's own larger side when that is already within the box — and the
/// sides keep the source's aspect ratio to within one pixel of rounding.
pub proof fn lemma_thumbnail_dims_properties(w: nat, h: nat, t: nat)
    requires
        1 <= w,
        1 <= h,
        1 <= t,
    ensures
        ({
            let (nw, nh) = spec_thumbnail_dims(w, h, t);
            &&& 1 <= nw <= t
            &&& 1 <= nh <= t
            &&& vstd::math::max(nw as int, nh as int) == vstd::math::min(
                t as int,
                vstd::math::max(w as int, h as int),
            )
            &&& nh * w <= h * nw + vstd::math::max(w as int, h as int)
            &&& h * nw <= nh * w + vstd::math::max(w as int, h as int)
        }),
{
    if w <= t && h <= t {
    } else if h <= w {
        lemma_scaled_side_le(h, t, w);
        let num = h * t + w / 2;
        let s = num / w;
        let nh = spec_scaled_side(h, t, w);
        vstd::arithmetic::div_mod::lemma_remainder(num as int, w as int);
        assert(0 <= num - s * w < w);
        assert(nh * w <= h * t + w && h * t <= nh * w + w) by (nonlinear_arith)
            requires
                nh == if s == 0 { 1nat } else { s },
                0 <= num - s * w < w,
                num == h * t + w / 2,
                1 <= w,
                1 <= h,
                1 <= t,
        ;
    } else {
        lemma_scaled_side_le(w, t, h);
        let num = w * t + h / 2;
        let s = num / h;
        let nw = spec_scaled_side(w, t, h);
        vstd::arithmetic::div_mod::lemma_remainder(num as int, h as int);
        assert(0 <= num - s * h < h);
        assert(t * w <= h * nw + h && h * nw <= t * w + h) by (nonlinear_arith)
            requires
                nw == if s == 0 { 1nat } else { s },
                0 <= num - s * h < h,
                num == w * t + h / 2,
                1 <= w,
                1 <= h,
                1 <= t,
        ;
    }
}

/// The dimensions the thumbnail of a w×h image bounded by a t×t box gets.
pub fn compute_thumbnail_dimensions(w: u32, h: u32, t: u32) -> (r: (u32, u32))
    requires
        1 <= w,
        1 <= h,
        1 <= t,
    ensures
        (r.0 as nat, r.1 as nat) == spec_thumbnail_dims(w as nat, h as nat, t as nat),
{
    if w <= t && h <= t {
        (w, h)
    } else if h <= w {
        (t, scaled_side(h, t, w))
    } else {
        (scaled_side(w, t, h), t)
    }
}

/// Decodes the given bytes, scales the image to fit the size×size box
/// preserving aspect ratio (no cropping, no upscaling), and re-encodes it
/// in the requested format. Deterministic — the whole result, failure
/// message included, is fixed by the bytes and the options — and with no
/// partial output: it returns Ok exactly when the pipeline result exists,
/// carrying those bytes, whose magic bytes declare the requested encoding
/// and whose dimensions are the computed fit; a decode or encode failure
/// surfaces as an error with the branch's fixed message.
pub fn create_thumbnail(data: &Vec<u8>, options: &ImageProcessingOptions) -> (r: Result<
    ProcessedImage,
    AppError,
>)
    requires
        1 <= options.size,
    ensures
        match spec_thumb_bytes(data@, options.size, options.format) {
            Some(b) => r matches Ok(p) && p.data@ == b && p.format == options.format,
            None => r matches Err(e) && e matches AppError::Image(m) && m@ == spec_thumb_error_msg(
                data@,
                options.size,
                options.format,
            ),
        },
        decoded_dims(data@) matches Some(d) ==> (r matches Ok(p) ==> ({
            let dims = spec_thumbnail_dims(d.0 as nat, d.1 as nat, options.size as nat);
            &&& decoded_dims(p.data@) == Some((dims.0 as u32, dims.1 as u32))
            &&& guessed_format(p.data@) == Some(options.format)
        })),
{
    match decode_dims(data) {
        None => Err(AppError::Image(String::from_str("the input bytes are not a decodable image"))),
        Some(d) => {
            if d.0 == 0 || d.1 == 0 {
                Err(AppError::Image(String::from_str("image has no pixels")))
            } else {
                proof {
                    lemma_thumbnail_dims_properties(
                        d.0 as nat,
                        d.1 as nat,
                        options.size as nat,
                    );
                }
                let dims = compute_thumbnail_dimensions(d.0, d.1, options.size);
                proof {
                    let sdims = spec_thumbnail_dims(d.0 as nat, d.1 as nat, options.size as nat);
                    assert(dims.0 as nat == sdims.0 && dims.1 as nat == sdims.1);
                    assert(dims.0 == sdims.0 as u32 && dims.1 == sdims.1 as u32);
                }
                match resize_encode(data, dims.0, dims.1, options.format) {
                    Some(bytes) => Ok(ProcessedImage { data: bytes, format: options.format }),
                    None => Err(
                        AppError::Image(String::from_str("re-encoding the thumbnail failed")),
                    ),
                }
            }
        },
    }
}

} // verus!
