//! Artifacts: where one goes, and what it holds.
//!
//! [`plan_capture`] decides where the artifact of a capture goes and
//! [`render_artifact`] turns the raw capture into the artifact's bytes; the
//! session of [`crate::pipeline`] runs them in order.
use vstd::prelude::*;
use crate::error::{CodecStep, Policy, ReportError};
use crate::naming::{
    all_taken, artifact_file_name, artifact_name, date_dir_name, date_dir_text, first_free_slot,
    is_first_free, stem_name, stem_text, LocalStamp,
};
use crate::paths::{
    joined_path, join_path, output_root, policy_outcome, validate_temp_path, PathProbe,
    OUTPUT_DIR_NAME,
};

verus! {

/// The widest artifact, in pixels.
pub const MAX_WIDTH: u32 = 1920;

/// The JPEG quality of artifacts.
pub const JPEG_QUALITY: u8 = 80;

#[verifier::external_type_specification]
#[verifier::external_body]
pub struct ExDynamicImage(image::DynamicImage);

#[verifier::external_type_specification]
#[verifier::external_body]
pub struct ExImageError(image::ImageError);

/// The width and height of the image that image::load_from_memory decodes
/// from `bytes`, or nothing where it cannot decode them.
pub uninterp spec fn decoded_size(bytes: Seq<u8>) -> Option<(u32, u32)>;

/// Whether a JPEG can hold an image of `size`: each side from 1 to 65535.
pub open spec fn jpeg_encodable(size: (u32, u32)) -> bool {
    1 <= size.0 <= 65535 && 1 <= size.1 <= 65535
}

/// Whether `b` opens with the JPEG start-of-image marker.
pub open spec fn starts_as_jpeg(b: Seq<u8>) -> bool {
    b.len() >= 2 && b[0] == 0xFFu8 && b[1] == 0xD8u8
}

/// Whether the raw capture `bytes` decodes, and the artifact made from it
/// has a size that a JPEG can hold.
pub open spec fn renders(bytes: Seq<u8>) -> bool {
    &&& decoded_size(bytes) is Some
    &&& jpeg_encodable(
        target_size(decoded_size(bytes)->Some_0.0, decoded_size(bytes)->Some_0.1),
    )
}

/// Relies on image::load_from_memory, which guesses the format from the
/// bytes alone and decodes them; the dimensions are read back with
/// DynamicImage::width and DynamicImage::height.
#[verifier::external_body]
fn decode_bytes(bytes: &[u8]) -> (r: Result<(image::DynamicImage, u32, u32), image::ImageError>)
    ensures
        r is Ok <==> decoded_size(bytes@) is Some,
        r is Ok ==> (r->Ok_0.1, r->Ok_0.2) == decoded_size(bytes@)->Some_0,
{
    let img = image::load_from_memory(bytes)?;
    let (w, h) = (img.width(), img.height());
    Ok((img, w, h))
}

/// Relies on the Display impl of image::ImageError, through ToString, for the
/// failure's description.
#[verifier::external_body]
fn describe(e: &image::ImageError) -> (r: String) {
    e.to_string()
}

/// `a / b` rounded to the nearest integer, halves upwards.
pub open spec fn round_div(a: int, b: int) -> int {
    (2 * a + b) / (2 * b)
}

/// The dimensions of the artifact made from an image of `width` × `height`:
/// wider images are scaled down to the widest artifact, keeping the aspect
/// ratio; others keep their size.
pub open spec fn target_size(width: u32, height: u32) -> (u32, u32) {
    if width <= MAX_WIDTH {
        (width, height)
    } else {
        (MAX_WIDTH, round_div(height * MAX_WIDTH, width as int) as u32)
    }
}

/// The dimensions of the artifact made from an image of `width` × `height`.
pub fn target_dimensions(width: u32, height: u32) -> (r: (u32, u32))
    ensures
        r == target_size(width, height),
        r.1 <= height,
{
    if width <= MAX_WIDTH {
        (width, height)
    } else {
        let w = width as u64;
        let h = height as u64;
        assert(2 * h * 1920 + w <= 2 * 4294967295 * 1920 + 4294967295) by (nonlinear_arith)
            requires
                h <= 4294967295,
                w <= 4294967295,
        ;
        let num: u64 = 2 * h * (MAX_WIDTH as u64) + w;
        let den: u64 = 2 * w;
        let q: u64 = num / den;
        assert(q <= h) by (nonlinear_arith)
            requires
                q == num / den,
                num == 2 * h * 1920 + w,
                den == 2 * w,
                w > 1920,
        {
            assert(num < den * (h + 1));
        }
        (MAX_WIDTH, q as u32)
    }
}

/// A decoded image and its dimensions.
pub struct Picture {
    pixels: image::DynamicImage,
    width: u32,
    height: u32,
}

impl View for Picture {
    type V = (u32, u32);

    closed spec fn view(&self) -> (u32, u32) {
        (self.width, self.height)
    }
}

/// Relies on DynamicImage::resize_exact with the Lanczos3 filter, whose result
/// is an image of exactly the requested width and height, read back with
/// DynamicImage::width and DynamicImage::height. Only downscaling is asked
/// for, so the filter's working buffers (four 32-bit floats per pixel) hold
/// no more pixels than the source.
#[verifier::external_body]
fn resize_lanczos(p: &Picture, width: u32, height: u32) -> (r: Picture)
    requires
        0 < width <= p@.0,
        height <= p@.1,
    ensures
        r@ == (width, height),
{
    let out = p.pixels.resize_exact(width, height, image::imageops::FilterType::Lanczos3);
    let (w, h) = (out.width(), out.height());
    Picture { pixels: out, width: w, height: h }
}

/// Relies on JpegEncoder::new_with_quality and DynamicImage::write_with_encoder:
/// the image encoded as JPEG at `quality`, in memory. Every colour type is
/// first converted to one the encoder takes; encoding then fails only on a
/// side of 0 or above 65535, before anything is written, and otherwise
/// begins with the start-of-image marker. Writing into a `Vec` cannot fail.
#[verifier::external_body]
fn encode_jpeg(p: &Picture, quality: u8) -> (r: Result<Vec<u8>, image::ImageError>)
    ensures
        r is Ok <==> jpeg_encodable(p@),
        r is Ok ==> starts_as_jpeg(r->Ok_0@),
{
    let mut buf: Vec<u8> = Vec::new();
    let encoder = image::codecs::jpeg::JpegEncoder::new_with_quality(&mut buf, quality);
    p.pixels.write_with_encoder(encoder)?;
    Ok(buf)
}

impl Picture {
    /// The width, in pixels.
    pub fn width(&self) -> (r: u32)
        ensures
            r == self@.0,
    {
        self.width
    }

    /// The height, in pixels.
    pub fn height(&self) -> (r: u32)
        ensures
            r == self@.1,
    {
        self.height
    }
}

/// Decodes a raw capture; the format is guessed from its bytes.
pub fn decode_picture(bytes: &[u8]) -> (r: Result<Picture, ReportError>)
    ensures
        r is Ok <==> decoded_size(bytes@) is Some,
        r is Ok ==> r->Ok_0@ == decoded_size(bytes@)->Some_0,
        r is Err ==> r->Err_0 matches ReportError::Codec(CodecStep::Decode, _),
{
    match decode_bytes(bytes) {
        Ok((pixels, width, height)) => Ok(Picture { pixels, width, height }),
        Err(e) => Err(ReportError::Codec(CodecStep::Decode, describe(&e))),
    }
}

/// Scales a picture wider than the widest artifact down to that width with a
/// Lanczos filter, keeping its aspect ratio; other pictures pass unchanged.
pub fn fit_to_width(p: Picture) -> (r: Picture)
    ensures
        r@ == target_size(p@.0, p@.1),
{
    if p.width <= MAX_WIDTH {
        p
    } else {
        let (w, h) = target_dimensions(p.width, p.height);
        resize_lanczos(&p, w, h)
    }
}

/// Encodes a picture as a JPEG artifact.
pub fn encode_artifact(p: &Picture) -> (r: Result<Vec<u8>, ReportError>)
    ensures
        r is Ok <==> jpeg_encodable(p@),
        r is Ok ==> starts_as_jpeg(r->Ok_0@),
        r is Err ==> r->Err_0 matches ReportError::Codec(CodecStep::Encode, _),
{
    match encode_jpeg(p, JPEG_QUALITY) {
        Ok(bytes) => Ok(bytes),
        Err(e) => Err(ReportError::Codec(CodecStep::Encode, describe(&e))),
    }
}

/// The bytes of an artifact, with the dimensions of the capture it was made
/// from and its own.
pub struct RenderedArtifact {
    pub jpeg: Vec<u8>,
    pub source_width: u32,
    pub source_height: u32,
    pub width: u32,
    pub height: u32,
}

/// Turns the bytes of a raw capture into the bytes of its artifact: decoded,
/// scaled down to the widest artifact where wider, and encoded as JPEG. It
/// succeeds exactly when the capture decodes and the artifact's size fits a
/// JPEG.
pub fn render_artifact(bytes: &[u8]) -> (r: Result<RenderedArtifact, ReportError>)
    ensures
        r is Ok <==> renders(bytes@),
        decoded_size(bytes@) is None ==> r matches Err(ReportError::Codec(CodecStep::Decode, _)),
        decoded_size(bytes@) is Some && !renders(bytes@) ==> r matches Err(
            ReportError::Codec(CodecStep::Encode, _),
        ),
        match r {
            Ok(a) => {
                &&& decoded_size(bytes@) == Some((a.source_width, a.source_height))
                &&& (a.width, a.height) == target_size(a.source_width, a.source_height)
                &&& starts_as_jpeg(a.jpeg@)
            },
            Err(e) => e matches ReportError::Codec(_, _),
        },
{
    let picture = decode_picture(bytes)?;
    let source_width = picture.width();
    let source_height = picture.height();
    let fitted = fit_to_width(picture);
    let jpeg = encode_artifact(&fitted)?;
    Ok(RenderedArtifact {
        jpeg,
        source_width,
        source_height,
        width: fitted.width(),
        height: fitted.height(),
    })
}

/// Where the artifact of one capture goes.
pub struct CapturePlan {
    source: String,
    output_dir: String,
    date_dir: String,
    stem: String,
}

impl CapturePlan {
    /// The canonical path of the raw capture.
    pub closed spec fn source_spec(&self) -> Seq<char> {
        self.source@
    }

    /// The root of the output tree.
    pub closed spec fn output_dir_spec(&self) -> Seq<char> {
        self.output_dir@
    }

    /// The directory of the capture's day.
    pub closed spec fn date_dir_spec(&self) -> Seq<char> {
        self.date_dir@
    }

    /// The stem of the capture's second.
    pub closed spec fn stem_spec(&self) -> Seq<char> {
        self.stem@
    }

    /// The canonical path of the raw capture, which is removed once the
    /// artifact is written.
    pub fn source(&self) -> (r: &str)
        ensures
            r@ == self.source_spec(),
    {
        self.source.as_str()
    }

    /// The root of the output tree, to be created first.
    pub fn output_dir(&self) -> (r: &str)
        ensures
            r@ == self.output_dir_spec(),
    {
        self.output_dir.as_str()
    }

    /// The directory of the capture's day, to be created next.
    pub fn date_dir(&self) -> (r: &str)
        ensures
            r@ == self.date_dir_spec(),
    {
        self.date_dir.as_str()
    }

    /// The path of the artifact, given the names of the entries that the
    /// day's directory already holds: the lowest free disambiguator.
    pub fn artifact_path(&self, existing: &Vec<String>) -> (r: Result<String, ReportError>)
        ensures
            match r {
                Ok(p) => exists|n: nat|
                    is_first_free(self.stem_spec(), existing@, n) && p@ == joined_path(
                        self.date_dir_spec(),
                        #[trigger] artifact_name(self.stem_spec(), n),
                    ),
                Err(e) => e == ReportError::SequenceExhausted && all_taken(
                    self.stem_spec(),
                    existing@,
                ),
            },
    {
        let n = first_free_slot(self.stem.as_str(), existing)?;
        let name = artifact_file_name(self.stem.as_str(), n);
        let p = join_path(self.date_dir.as_str(), name.as_str());
        assert(is_first_free(self.stem_spec(), existing@, n as nat));
        Ok(p)
    }
}

/// Decides where the capture at the probed `source` goes, at local time `now`.
/// The source must pass the temp-and-cache allow-list `roots`; `pictures` is
/// the user's pictures directory, where it is known. Nothing may be written
/// before this succeeds.
pub fn plan_capture(
    source: PathProbe,
    roots: &Vec<String>,
    pictures: Option<String>,
    now: &LocalStamp,
) -> (r: Result<CapturePlan, ReportError>)
    ensures
        match policy_outcome(Policy::TempAndCache, source, roots@) {
            Err(e) => r == Err::<CapturePlan, ReportError>(e),
            Ok(src) => match pictures {
                None => r == Err::<CapturePlan, ReportError>(ReportError::PicturesDirUnknown),
                Some(p) => r is Ok && ({
                    let plan = r->Ok_0;
                    &&& plan.source_spec() == src@
                    &&& plan.output_dir_spec() == joined_path(p@, OUTPUT_DIR_NAME@)
                    &&& plan.date_dir_spec() == joined_path(
                        joined_path(p@, OUTPUT_DIR_NAME@),
                        date_dir_text(*now),
                    )
                    &&& plan.stem_spec() == stem_text(*now)
                }),
            },
        },
{
    let src = validate_temp_path(source, roots)?;
    let pictures = match pictures {
        Some(p) => p,
        None => {
            return Err(ReportError::PicturesDirUnknown);
        },
    };
    let output_dir = output_root(pictures.as_str());
    let day = date_dir_name(now);
    let date_dir = join_path(output_dir.as_str(), day.as_str());
    let stem = stem_name(now);
    Ok(CapturePlan { source: src, output_dir, date_dir, stem })
}

} // verus!
