//! Frame processing: centre crop to the aspect ratio of the viewer's screen,
//! then an exact resize; JPEG in, JPEG out.

use image::GenericImageView;
use vstd::prelude::*;
use vstd::string::*;

verus! {

#[verifier::external_type_specification]
#[verifier::external_body]
pub struct ExDynamicImage(image::DynamicImage);

#[verifier::external_type_specification]
#[verifier::external_body]
pub struct ExImageError(image::ImageError);

/// Largest width or height of a screen that frames are cropped for. Larger
/// crops serve no screen and would let a request make the server allocate
/// huge buffers.
pub const MAX_DIMENSION: u32 = 4096;

/// Quality of the JPEG that the server hands out.
pub const JPEG_QUALITY: u8 = 85;

/// Rectangle of the source frame that is kept.
#[derive(Debug, Clone, Copy, PartialEq, Eq)]
pub struct CropWindow {
    pub x: u32,
    pub y: u32,
    pub width: u32,
    pub height: u32,
}

/// `v`, but at least 1.
pub open spec fn at_least_one(v: int) -> int {
    if v >= 1 {
        v
    } else {
        1
    }
}

/// Width of the window that keeps the full source height at the target
/// ratio.
pub open spec fn full_height_width(src_h: nat, target_w: nat, target_h: nat) -> int {
    (src_h * target_w) as int / target_h as int
}

/// Height of the window that keeps the full source width at the target
/// ratio.
pub open spec fn full_width_height(src_w: nat, target_w: nat, target_h: nat) -> int {
    (src_w * target_h) as int / target_w as int
}

/// The centred window of the target's aspect ratio: it keeps the full
/// height of the source where that fits in the source's width, and else the
/// full width; the other side is the ratio applied to it, rounded down and
/// at least 1; the window is centred, the odd pixel going right or down.
pub open spec fn spec_crop_window(src_w: nat, src_h: nat, target_w: nat, target_h: nat) -> CropWindow {
    let fhw = full_height_width(src_h, target_w, target_h);
    let (w, h) = if fhw <= src_w {
        (at_least_one(fhw), src_h as int)
    } else {
        (src_w as int, at_least_one(full_width_height(src_w, target_w, target_h)))
    };
    CropWindow {
        x: ((src_w - w) / 2) as u32,
        y: ((src_h - h) / 2) as u32,
        width: w as u32,
        height: h as u32,
    }
}

/// The window lies inside the source and is not empty.
pub open spec fn window_inside(r: CropWindow, src_w: nat, src_h: nat) -> bool {
    &&& 1 <= r.width <= src_w
    &&& 1 <= r.height <= src_h
    &&& r.x + r.width <= src_w
    &&& r.y + r.height <= src_h
}

/// The window is centred: the margins on either side differ by at most one
/// pixel.
pub open spec fn window_centred(r: CropWindow, src_w: nat, src_h: nat) -> bool {
    &&& r.x == (src_w - r.width) / 2
    &&& r.y == (src_h - r.height) / 2
}

/// Centre crop window of a `src_w`×`src_h` frame for a `target_w`×`target_h`
/// screen. The window spans the full height or the full width of the
/// source, lies inside it, and is centred. All arithmetic is done in `u64`,
/// where it neither loses precision nor overflows.
pub fn crop_window(src_w: u32, src_h: u32, target_w: u32, target_h: u32) -> (r: CropWindow)
    requires
        src_w >= 1,
        src_h >= 1,
        target_w >= 1,
        target_h >= 1,
    ensures
        r == spec_crop_window(src_w as nat, src_h as nat, target_w as nat, target_h as nat),
        window_inside(r, src_w as nat, src_h as nat),
        window_centred(r, src_w as nat, src_h as nat),
        r.width == src_w || r.height == src_h,
{
    let sw = src_w as u64;
    let sh = src_h as u64;
    let tw = target_w as u64;
    let th = target_h as u64;
    assert(sh * tw <= u32::MAX as int * u32::MAX as int) by (nonlinear_arith)
        requires
            sh <= u32::MAX,
            tw <= u32::MAX,
    ;
    let full_height_w: u64 = sh * tw / th;
    let crop_w: u32;
    let crop_h: u32;
    if full_height_w <= sw {
        crop_w = if full_height_w >= 1 {
            full_height_w as u32
        } else {
            1
        };
        crop_h = src_h;
    } else {
        assert(sw * th <= u32::MAX as int * u32::MAX as int) by (nonlinear_arith)
            requires
                sw <= u32::MAX,
                th <= u32::MAX,
        ;
        let full_width_h: u64 = sw * th / tw;
        // sh·tw / th > sw gives sh·tw ≥ (sw + 1)·th > sw·th, hence sw·th / tw < sh.
        assert(full_width_h < sh) by (nonlinear_arith)
            requires
                full_height_w == (sh * tw) / (th as int),
                full_width_h == (sw * th) / (tw as int),
                full_height_w > sw,
                th >= 1,
                tw >= 1,
        {
            assert(sh * tw >= th * (sw + 1));
            assert(sw * th < sh * tw);
        }
        crop_w = src_w;
        crop_h = if full_width_h >= 1 {
            full_width_h as u32
        } else {
            1
        };
    }
    let x = (src_w - crop_w) / 2;
    let y = (src_h - crop_h) / 2;
    CropWindow { x, y, width: crop_w, height: crop_h }
}

/// `n` is `a / b` rounded down, stated by multiplication: `n·b <= a <
/// (n + 1)·b`.
pub open spec fn is_floor_quotient(n: int, a: int, b: int) -> bool {
    n * b <= a < (n + 1) * b
}

/// One side of the crop window, for the other side of length `other` and the
/// ratio `num / den`: the ratio applied to `other`, rounded down, but at
/// least 1.
pub open spec fn ratio_side(side: int, other: int, num: int, den: int) -> bool {
    if other * num < den {
        side == 1
    } else {
        is_floor_quotient(side, other * num, den)
    }
}

/// The crop window keeps the screen's aspect ratio: it spans the full height
/// of the frame exactly when the screen's ratio applied to that height,
/// rounded down, fits in the frame's width (`src_h·target_w < (src_w + 1)·
/// target_h`), and then its width is that ratio applied to the height
/// (rounded down, at least 1); otherwise it spans the full width and its
/// height is the inverse ratio applied to the width. It lies inside the
/// frame and is centred. This holds whatever the sizes, a target larger
/// than the frame included.
pub proof fn lemma_crop_window_keeps_aspect_ratio(src_w: u32, src_h: u32, target_w: u32, target_h: u32)
    requires
        src_w >= 1,
        src_h >= 1,
        target_w >= 1,
        target_h >= 1,
    ensures
        window_inside(
            spec_crop_window(src_w as nat, src_h as nat, target_w as nat, target_h as nat),
            src_w as nat,
            src_h as nat,
        ),
        spec_crop_window(src_w as nat, src_h as nat, target_w as nat, target_h as nat).x == (src_w
            - spec_crop_window(src_w as nat, src_h as nat, target_w as nat, target_h as nat).width)
            / 2,
        spec_crop_window(src_w as nat, src_h as nat, target_w as nat, target_h as nat).y == (src_h
            - spec_crop_window(src_w as nat, src_h as nat, target_w as nat, target_h as nat).height)
            / 2,
        src_h * target_w < (src_w + 1) * target_h ==> spec_crop_window(
            src_w as nat,
            src_h as nat,
            target_w as nat,
            target_h as nat,
        ).height == src_h && ratio_side(
            spec_crop_window(src_w as nat, src_h as nat, target_w as nat, target_h as nat).width
                as int,
            src_h as int,
            target_w as int,
            target_h as int,
        ),
        src_h * target_w >= (src_w + 1) * target_h ==> spec_crop_window(
            src_w as nat,
            src_h as nat,
            target_w as nat,
            target_h as nat,
        ).width == src_w && ratio_side(
            spec_crop_window(src_w as nat, src_h as nat, target_w as nat, target_h as nat).height
                as int,
            src_w as int,
            target_h as int,
            target_w as int,
        ),
{
    let sw = src_w as int;
    let sh = src_h as int;
    let tw = target_w as int;
    let th = target_h as int;
    let fhw = (sh * tw) / th;
    let fwh = (sw * th) / tw;
    assert(is_floor_quotient(fhw, sh * tw, th)) by (nonlinear_arith)
        requires
            fhw == (sh * tw) / th,
            th >= 1,
    ;
    assert(is_floor_quotient(fwh, sw * th, tw)) by (nonlinear_arith)
        requires
            fwh == (sw * th) / tw,
            tw >= 1,
    ;
    assert(sh * tw >= 0 && sw * th >= 0) by (nonlinear_arith)
        requires
            sh >= 0,
            tw >= 0,
            sw >= 0,
            th >= 0,
    ;
    // fhw <= sw exactly when sh·tw < (sw + 1)·th.
    assert((fhw <= sw) <==> (sh * tw < (sw + 1) * th)) by (nonlinear_arith)
        requires
            fhw * th <= sh * tw < (fhw + 1) * th,
            th >= 1,
    ;
    assert(fhw >= 0);
    assert(fwh >= 0);
    assert(fhw == 0 <==> sh * tw < th) by (nonlinear_arith)
        requires
            fhw * th <= sh * tw < (fhw + 1) * th,
            fhw >= 0,
            th >= 1,
    ;
    assert(fwh == 0 <==> sw * th < tw) by (nonlinear_arith)
        requires
            fwh * tw <= sw * th < (fwh + 1) * tw,
            fwh >= 0,
            tw >= 1,
    ;
    if fhw > sw {
        assert(fwh < sh) by (nonlinear_arith)
            requires
                fhw * th <= sh * tw,
                fhw > sw,
                fwh * tw <= sw * th,
                th >= 1,
                tw >= 1,
        {
            assert(sh * tw >= (sw + 1) * th);
            assert(sw * th < sh * tw);
        }
    }
}

/// Why a frame could not be cropped.
#[derive(Debug)]
pub enum CropError {
    /// The image library failed; the text is its error message.
    Image(String),
    /// A target dimension is zero.
    ZeroDimension,
}

impl CropError {
    /// The human-readable message of the error.
    pub fn message(&self) -> (m: String)
        ensures
            m@ == match self {
                CropError::Image(e) => "не удалось обработать изображение: "@ + e@,
                CropError::ZeroDimension => "размеры должны быть больше нуля"@,
            },
    {
        match self {
            CropError::Image(e) => String::from_str("не удалось обработать изображение: ").concat(
                e.as_str(),
            ),
            CropError::ZeroDimension => String::from_str("размеры должны быть больше нуля"),
        }
    }
}

/// How a picture came about: decoded from JPEG bytes, then cropped to a
/// rectangle, then resampled to a size. The image library does each step
/// the same way every time, so the pixels are a function of this history.
pub enum PictureModel {
    Decoded(Seq<u8>),
    Cropped { source: Box<PictureModel>, x: u32, y: u32, width: u32, height: u32 },
    Resized { source: Box<PictureModel>, width: u32, height: u32 },
}

/// An image of the image library together with its width and height, as
/// the library reports them (`GenericImageView::dimensions`), and how it came
/// about. Only the wrappers below make one, each from the library's own
/// image.
struct Picture {
    image: image::DynamicImage,
    width: u32,
    height: u32,
    model: Ghost<PictureModel>,
}

/// How the image library decodes these bytes as JPEG (with its default
/// limits): `None` where decoding fails, else the width and height of the
/// decoded image. What decoding accepts takes the JPEG standard to state.
pub uninterp spec fn jpeg_decoded_size(bytes: Seq<u8>) -> Option<(u32, u32)>;

/// Largest width or height of a JPEG image (the frame header holds 16-bit
/// sizes).
pub const MAX_JPEG_SIDE: u32 = 65535;

/// Decodes JPEG bytes (`ImageReader::with_format(.., ImageFormat::Jpeg)`,
/// `ImageReader::decode`), and reads the image's size. Success and size are
/// functions of the bytes; the JPEG decoder holds sides as 16-bit numbers.
#[verifier::external_body]
fn decode_jpeg(bytes: &[u8]) -> (r: Result<Picture, image::ImageError>)
    ensures
        r is Ok <==> jpeg_decoded_size(bytes@) is Some,
        r matches Ok(p) ==> jpeg_decoded_size(bytes@) == Some((p.width, p.height)),
        r matches Ok(p) ==> p.width <= MAX_JPEG_SIDE && p.height <= MAX_JPEG_SIDE,
        r matches Ok(p) ==> p.model@ == PictureModel::Decoded(bytes@),
{
    match image::ImageReader::with_format(std::io::Cursor::new(bytes), image::ImageFormat::Jpeg).decode() {
        Ok(image) => {
            let (width, height) = image.dimensions();
            Ok(Picture { image, width, height, model: Ghost(PictureModel::Decoded(bytes@)) })
        },
        Err(e) => Err(e),
    }
}

/// Width of the part of a side of length `side` that a crop from `start`
/// of length `len` keeps: the rectangle is clamped to the image, as
/// `imageops::crop_imm` does.
pub open spec fn clamped_len(side: u32, start: u32, len: u32) -> u32 {
    let s = if start <= side {
        start
    } else {
        side
    };
    if len <= side - s {
        len
    } else {
        (side - s) as u32
    }
}

/// The part of an image inside the given rectangle
/// (`DynamicImage::crop_imm`), whose size is the rectangle clamped to the
/// image.
#[verifier::external_body]
fn crop_picture(p: &Picture, x: u32, y: u32, width: u32, height: u32) -> (r: Picture)
    ensures
        r.width == clamped_len(p.width, x, width),
        r.height == clamped_len(p.height, y, height),
        r.model@ == (PictureModel::Cropped { source: Box::new(p.model@), x, y, width, height }),
{
    let image = p.image.crop_imm(x, y, width, height);
    let (w, h) = image.dimensions();
    Picture {
        image,
        width: w,
        height: h,
        model: Ghost(PictureModel::Cropped { source: Box::new(p.model@), x, y, width, height }),
    }
}

/// Whether the image library can resample a picture at most `MAX_JPEG_SIDE`
/// wide to `width`×`height` without its buffer sizes overflowing: it builds
/// a 16-byte-per-pixel buffer as wide as the source and as high as the
/// target, then one of the target's size, and a `Vec` of more than
/// `isize::MAX` bytes panics.
pub open spec fn resize_fits(width: u32, height: u32) -> bool {
    &&& 16 * (MAX_JPEG_SIDE as int) * (height as int) <= isize::MAX
    &&& 16 * (width as int) * (height as int) <= isize::MAX
}

/// Whether [`resize_fits`] holds: whether resampling to this size stays
/// within the image library's buffer limits.
pub fn can_resize(width: u32, height: u32) -> (b: bool)
    ensures
        b == resize_fits(width, height),
{
    let limit = isize::MAX as u128;
    let w = width as u128;
    let h = height as u128;
    assert(16 * w * h <= 16 * (u32::MAX as int) * (u32::MAX as int)) by (nonlinear_arith)
        requires
            w <= u32::MAX,
            h <= u32::MAX,
    ;
    assert(16 * (MAX_JPEG_SIDE as int) * h <= 16 * (u32::MAX as int) * (u32::MAX as int))
        by (nonlinear_arith)
        requires
            h <= u32::MAX,
    ;
    16 * (MAX_JPEG_SIDE as u128) * h <= limit && 16 * w * h <= limit
}

/// The image resampled to exactly `width`×`height` with the triangle
/// filter (`DynamicImage::resize_exact`: "nwidth and nheight are the new
/// image's dimensions").
#[verifier::external_body]
fn resize_picture(p: &Picture, width: u32, height: u32) -> (r: Picture)
    requires
        p.width <= MAX_JPEG_SIDE,
        resize_fits(width, height),
    ensures
        r.width == width,
        r.height == height,
        r.model@ == (PictureModel::Resized { source: Box::new(p.model@), width, height }),
{
    let image = p.image.resize_exact(width, height, image::imageops::FilterType::Triangle);
    let (w, h) = image.dimensions();
    Picture {
        image,
        width: w,
        height: h,
        model: Ghost(PictureModel::Resized { source: Box::new(p.model@), width, height }),
    }
}

/// Images of at most this many pixels, once encoded, decode again within the
/// image library's default allocation limit (512 MiB; 3 bytes per pixel).
pub const DECODABLE_PIXELS: u32 = 16777216;

/// The JPEG bytes that the image library's encoder writes, at the given
/// quality, for the picture that came about so. The JPEG encoding takes the
/// standard to state.
pub uninterp spec fn jpeg_encoding(picture: PictureModel, quality: u8) -> Seq<u8>;

/// Encodes an image as JPEG of the given quality (`JpegEncoder::new_with_quality`
/// and `JpegEncoder::encode_image`) into a new buffer. Encoding fails exactly
/// for sizes outside `1..=65535` (writing to a `Vec` does not fail); the
/// frame header carries the size, so the bytes decode to an image of that
/// size where the decoder's allocation limit allows.
#[verifier::external_body]
fn encode_jpeg(p: &Picture, quality: u8) -> (r: Result<Vec<u8>, image::ImageError>)
    ensures
        r is Ok <==> (1 <= p.width <= MAX_JPEG_SIDE && 1 <= p.height <= MAX_JPEG_SIDE),
        r matches Ok(b) ==> b@ == jpeg_encoding(p.model@, quality),
        r is Ok && (p.width as int) * (p.height as int) <= DECODABLE_PIXELS ==> jpeg_decoded_size(
            r->Ok_0@,
        ) == Some((p.width, p.height)),
{
    let mut buf = Vec::new();
    match image::codecs::jpeg::JpegEncoder::new_with_quality(&mut buf, quality).encode_image(&p.image) {
        Ok(()) => Ok(buf),
        Err(e) => Err(e),
    }
}

/// The picture that [`crop_to_fit`] encodes: the decoded frame, cropped to
/// [`crop_window`] for the target (a frame without pixels is not cropped),
/// resampled to the target size.
pub open spec fn fitted_picture(jpeg: Seq<u8>, target_w: u32, target_h: u32) -> PictureModel {
    let (w, h) = jpeg_decoded_size(jpeg)->0;
    let decoded = PictureModel::Decoded(jpeg);
    if w == 0 || h == 0 {
        PictureModel::Resized { source: Box::new(decoded), width: target_w, height: target_h }
    } else {
        let win = spec_crop_window(w as nat, h as nat, target_w as nat, target_h as nat);
        PictureModel::Resized {
            source: Box::new(
                PictureModel::Cropped {
                    source: Box::new(decoded),
                    x: win.x,
                    y: win.y,
                    width: win.width,
                    height: win.height,
                },
            ),
            width: target_w,
            height: target_h,
        }
    }
}

/// The bytes that [`crop_to_fit`] gives for a frame and a target: the JPEG,
/// at quality [`JPEG_QUALITY`], of [`fitted_picture`].
pub open spec fn fitted_jpeg(jpeg: Seq<u8>, target_w: u32, target_h: u32) -> Seq<u8> {
    jpeg_encoding(fitted_picture(jpeg, target_w, target_h), JPEG_QUALITY)
}

/// The library's error for a failure of the image library: its text is the
/// image error's message (`Display`).
fn image_failure(e: image::ImageError) -> (r: CropError)
    ensures
        r matches CropError::Image(t) && to_string_from_display_ensures::<image::ImageError>(&e, t),
{
    CropError::Image(e.to_string())
}

/// Centre-crops a JPEG frame to the aspect ratio of a `target_w`×`target_h`
/// screen ([`crop_window`]), resizes it to exactly that size, and encodes it
/// as JPEG of quality [`JPEG_QUALITY`]. A frame that decodes is always
/// served, at the target size, as long as that size fits in a JPEG.
pub fn crop_to_fit(jpeg: &[u8], target_w: u32, target_h: u32) -> (r: Result<Vec<u8>, CropError>)
    requires
        resize_fits(target_w, target_h),
    ensures
        (r matches Err(CropError::ZeroDimension)) <==> (target_w == 0 || target_h == 0),
        target_w >= 1 && target_h >= 1 ==> (r is Ok <==> (jpeg_decoded_size(jpeg@) is Some
            && target_w <= MAX_JPEG_SIDE && target_h <= MAX_JPEG_SIDE)),
        target_w >= 1 && target_h >= 1 && r is Err ==> r matches Err(CropError::Image(_)),
        r matches Ok(out) ==> out@ == fitted_jpeg(jpeg@, target_w, target_h),
        r is Ok && (target_w as int) * (target_h as int) <= DECODABLE_PIXELS ==> jpeg_decoded_size(
            r->Ok_0@,
        ) == Some((target_w, target_h)),
{
    if target_w == 0 || target_h == 0 {
        return Err(CropError::ZeroDimension);
    }
    let frame = match decode_jpeg(jpeg) {
        Ok(p) => p,
        Err(e) => return Err(image_failure(e)),
    };
    let resized = if frame.width == 0 || frame.height == 0 {
        // The JPEG decoder rejects images without pixels; should one come
        // back all the same, there is nothing to crop, and resampling it
        // gives a blank image of the target size.
        resize_picture(&frame, target_w, target_h)
    } else {
        let window = crop_window(frame.width, frame.height, target_w, target_h);
        let cropped = crop_picture(&frame, window.x, window.y, window.width, window.height);
        assert(cropped.width == window.width && cropped.height == window.height);
        resize_picture(&cropped, target_w, target_h)
    };
    match encode_jpeg(&resized, JPEG_QUALITY) {
        Ok(bytes) => Ok(bytes),
        Err(e) => Err(image_failure(e)),
    }
}

} // verus!
