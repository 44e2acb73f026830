//! Thumbnails: decoding an upload, scaling it down and encoding it as WebP.
//!
//! The pixels are the `image` crate's business. This module orders the
//! three steps and says which cause a failure is reported under.

use vstd::prelude::*;
use vstd::string::StringExecFns;

verus! {

/// A decoded image of the `image` crate.
#[verifier::external_type_specification]
#[verifier::external_body]
pub struct ExDynamicImage(image::DynamicImage);

/// The error type of the `image` crate.
#[verifier::external_type_specification]
#[verifier::external_body]
pub struct ExImageError(image::ImageError);

/// Largest width and height of a thumbnail, in pixels.
pub const THUMBNAIL_MAX: u32 = 250;

/// What went wrong inside the image library.
#[derive(Debug, Clone, Copy, PartialEq, Eq, Structural)]
pub enum ImageFault {
    /// The data does not conform to its format.
    Decoding,
    /// The image cannot be written in the chosen format.
    Encoding,
    /// An argument was out of range.
    Parameter,
    /// A resource limit was reached.
    Limits,
    /// The format or operation is not supported.
    Unsupported,
    /// Reading or writing failed.
    Io,
}

/// Why a save failed.
#[derive(Debug, Clone, Copy, PartialEq, Eq, Structural)]
pub enum MediaCause {
    /// The bytes are not a well-formed image.
    Decode,
    /// The image's format is not supported.
    UnsupportedFormat,
    /// A directory or file could not be written.
    Io,
    /// The thumbnail could not be encoded.
    Encode,
}

/// The step of thumbnailing at which a fault arose.
#[derive(Debug, Clone, Copy, PartialEq, Eq, Structural)]
pub enum Step {
    Decode,
    Encode,
}

/// The failure of a save: its cause code and a description.
#[derive(Debug)]
pub struct MediaError {
    pub cause: MediaCause,
    pub detail: String,
}

/// The cause that a fault of the image library is reported under:
/// unsupported formats and I/O failures as such, anything else by the step
/// at which it arose.
pub open spec fn cause_of(fault: ImageFault, step: Step) -> MediaCause {
    match fault {
        ImageFault::Unsupported => MediaCause::UnsupportedFormat,
        ImageFault::Io => MediaCause::Io,
        _ => match step {
            Step::Decode => MediaCause::Decode,
            Step::Encode => MediaCause::Encode,
        },
    }
}

/// What `image::load_from_memory` makes of bytes, as far as this library
/// reads it: the width and height of the decoded image, or the kind of the
/// error.
pub uninterp spec fn decoded_size(data: Seq<u8>) -> Result<(u32, u32), ImageFault>;

/// The size that `DynamicImage::thumbnail` gives the copy of an image of
/// `width` by `height` pixels that is to fit within `max_width` by
/// `max_height`: the largest that fits and keeps the aspect ratio, as the
/// `image` crate rounds it.
pub uninterp spec fn fit_size(width: u32, height: u32, max_width: u32, max_height: u32) -> (u32, u32);

/// What `DynamicImage::write_to` with `ImageFormat::WebP` writes for the
/// copy that `DynamicImage::thumbnail` scales, to fit `max_width` by
/// `max_height`, from the image that `data` decodes to: the bytes, or the
/// kind of the error.
pub uninterp spec fn webp_outcome(data: Seq<u8>, max_width: u32, max_height: u32) -> Result<Seq<u8>, ImageFault>;

/// A decoded image: its size, the bytes it was decoded from, and its pixels
/// as the `image` crate holds them. Only [`decode_image`] makes one.
struct Picture {
    width: u32,
    height: u32,
    source: Ghost<Seq<u8>>,
    pixels: image::DynamicImage,
}

/// A scaled copy of a decoded image: the bounds it was fitted into, its
/// size, the bytes the image was decoded from, and its pixels as the
/// `image` crate holds them. Only [`scale_to_fit`] makes one.
struct Scaled {
    max_width: u32,
    max_height: u32,
    width: u32,
    height: u32,
    source: Ghost<Seq<u8>>,
    pixels: image::DynamicImage,
}

/// What the image library reported: the kind of its error and the error's
/// text.
#[derive(Debug)]
pub struct Failure {
    pub fault: ImageFault,
    pub detail: String,
}

/// A derived thumbnail: the size of the image it was made from, its own
/// size and its WebP encoding.
#[derive(Debug)]
pub struct Thumbnail {
    pub source_width: u32,
    pub source_height: u32,
    pub width: u32,
    pub height: u32,
    pub bytes: Vec<u8>,
}

/// The mathematical value of a [`Thumbnail`].
pub struct ThumbnailView {
    pub source_width: u32,
    pub source_height: u32,
    pub width: u32,
    pub height: u32,
    pub bytes: Seq<u8>,
}

impl View for Thumbnail {
    type V = ThumbnailView;

    open spec fn view(&self) -> ThumbnailView {
        ThumbnailView {
            source_width: self.source_width,
            source_height: self.source_height,
            width: self.width,
            height: self.height,
            bytes: self.bytes@,
        }
    }
}

/// `image::load_from_memory`: guesses the format from the bytes themselves
/// and decodes the image. The size is read off with `width` and `height`;
/// an error is told by its variant and described by its `Display` text.
#[verifier::external_body]
fn decode_image(data: &[u8]) -> (r: Result<Picture, Failure>)
    ensures
        match r {
            Ok(picture) => decoded_size(data@) == Ok::<(u32, u32), ImageFault>(
                (picture.width, picture.height),
            ) && picture.source@ == data@,
            Err(failure) => decoded_size(data@) == Err::<(u32, u32), ImageFault>(failure.fault),
        },
{
    let e = match image::load_from_memory(data) {
        Ok(p) => return Ok(Picture { width: p.width(), height: p.height(), source: Ghost(data@), pixels: p }),
        Err(e) => e,
    };
    let fault = match &e {
        image::ImageError::Decoding(_) => ImageFault::Decoding,
        image::ImageError::Encoding(_) => ImageFault::Encoding,
        image::ImageError::Parameter(_) => ImageFault::Parameter,
        image::ImageError::Limits(_) => ImageFault::Limits,
        image::ImageError::Unsupported(_) => ImageFault::Unsupported,
        image::ImageError::IoError(_) => ImageFault::Io,
    };
    Err(Failure { fault, detail: e.to_string() })
}

/// `DynamicImage::thumbnail`: a copy of the image scaled to fit within the
/// given width and height, keeping the aspect ratio. The copy's size, read
/// off with `width` and `height`, is the one that the crate computes from
/// the image's size and the bounds alone.
#[verifier::external_body]
fn scale_to_fit(picture: &Picture, width: u32, height: u32) -> (small: Scaled)
    requires
        width > 0,
        height > 0,
    ensures
        (small.width, small.height) == fit_size(picture.width, picture.height, width, height),
        small.max_width == width,
        small.max_height == height,
        small.source@ == picture.source@,
{
    let pixels = picture.pixels.thumbnail(width, height);
    Scaled {
        max_width: width,
        max_height: height,
        width: pixels.width(),
        height: pixels.height(),
        source: Ghost(picture.source@),
        pixels,
    }
}

/// `DynamicImage::write_to` with `ImageFormat::WebP`, into memory: the
/// bytes written, or the error, told by its variant and described by its
/// `Display` text.
#[verifier::external_body]
fn encode_webp(small: &Scaled) -> (r: Result<Vec<u8>, Failure>)
    ensures
        match r {
            Ok(bytes) => webp_outcome(small.source@, small.max_width, small.max_height) == Ok::<
                Seq<u8>,
                ImageFault,
            >(bytes@),
            Err(failure) => webp_outcome(small.source@, small.max_width, small.max_height) == Err::<
                Seq<u8>,
                ImageFault,
            >(failure.fault),
        },
{
    let mut out = std::io::Cursor::new(Vec::new());
    let e = match small.pixels.write_to(&mut out, image::ImageFormat::WebP) {
        Ok(()) => return Ok(out.into_inner()),
        Err(e) => e,
    };
    let fault = match &e {
        image::ImageError::Decoding(_) => ImageFault::Decoding,
        image::ImageError::Encoding(_) => ImageFault::Encoding,
        image::ImageError::Parameter(_) => ImageFault::Parameter,
        image::ImageError::Limits(_) => ImageFault::Limits,
        image::ImageError::Unsupported(_) => ImageFault::Unsupported,
        image::ImageError::IoError(_) => ImageFault::Io,
    };
    Err(Failure { fault, detail: e.to_string() })
}

/// Tells the cause that a fault is reported under.
pub fn classify(fault: ImageFault, step: Step) -> (cause: MediaCause)
    ensures
        cause == cause_of(fault, step),
{
    match fault {
        ImageFault::Unsupported => MediaCause::UnsupportedFormat,
        ImageFault::Io => MediaCause::Io,
        _ => match step {
            Step::Decode => MediaCause::Decode,
            Step::Encode => MediaCause::Encode,
        },
    }
}

/// Whether bytes open as a WebP file does: a RIFF container of type WEBP.
pub open spec fn is_webp(bytes: Seq<u8>) -> bool {
    &&& bytes.len() >= 12
    &&& bytes[0] == 0x52 && bytes[1] == 0x49 && bytes[2] == 0x46 && bytes[3] == 0x46
    &&& bytes[8] == 0x57 && bytes[9] == 0x45 && bytes[10] == 0x42 && bytes[11] == 0x50
}

/// Tells whether bytes open as a WebP file does.
pub fn opens_as_webp(bytes: &[u8]) -> (webp: bool)
    ensures
        webp == is_webp(bytes@),
{
    bytes.len() >= 12 && bytes[0] == 0x52 && bytes[1] == 0x49 && bytes[2] == 0x46 && bytes[3]
        == 0x46 && bytes[8] == 0x57 && bytes[9] == 0x45 && bytes[10] == 0x42 && bytes[11] == 0x50
}

/// A failure with the given cause and description.
fn failure(cause: MediaCause, detail: &str) -> (e: MediaError)
    ensures
        e.cause == cause,
        e.detail@ == detail@,
{
    MediaError { cause, detail: String::from_str(detail) }
}

/// What is wrong with the sizes of an image and its scaled copy, if
/// anything: an image without pixels counts as not decoded, a copy beyond
/// the bounds as not encodable.
pub open spec fn size_fault(
    source_width: u32,
    source_height: u32,
    width: u32,
    height: u32,
) -> Option<MediaCause> {
    if source_width == 0 || source_height == 0 {
        Some(MediaCause::Decode)
    } else if width > THUMBNAIL_MAX || height > THUMBNAIL_MAX {
        Some(MediaCause::Encode)
    } else {
        None
    }
}

/// Checks the sizes of an image and of the copy that was scaled from it.
pub fn check_size(source_width: u32, source_height: u32, width: u32, height: u32) -> (r: Result<
    (),
    MediaError,
>)
    ensures
        match size_fault(source_width, source_height, width, height) {
            Some(cause) => r is Err && r->Err_0.cause == cause,
            None => r is Ok,
        },
{
    if source_width == 0 || source_height == 0 {
        Err(failure(MediaCause::Decode, "the image has no pixels"))
    } else if width > THUMBNAIL_MAX || height > THUMBNAIL_MAX {
        Err(failure(MediaCause::Encode, "the thumbnail exceeds its bounds"))
    } else {
        Ok(())
    }
}

/// Checks that what the encoder wrote opens as a WebP file does; anything
/// else is an encoding failure.
pub fn check_encoding(bytes: &[u8]) -> (r: Result<(), MediaError>)
    ensures
        r is Ok <==> is_webp(bytes@),
        r matches Err(e) ==> e.cause == MediaCause::Encode,
{
    if opens_as_webp(bytes) {
        Ok(())
    } else {
        Err(failure(MediaCause::Encode, "the encoder did not write WebP"))
    }
}

/// The failure that a fault of the image library at the given step is
/// reported as.
pub fn report(failure: Failure, step: Step) -> (e: MediaError)
    ensures
        e.cause == cause_of(failure.fault, step),
        e.detail@ == failure.detail@,
{
    MediaError { cause: classify(failure.fault, step), detail: failure.detail }
}

/// The thumbnail of an upload, or the cause for which it has none.
///
/// * Bytes that do not decode have none, for the cause that the decoder's
///   fault is reported under.
/// * The decoded image is fitted into 250 by 250 pixels, keeping the aspect
///   ratio. An image without pixels, or a copy beyond the bounds, has none.
/// * The copy is encoded as WebP. Where the encoder fails there is none,
///   for the cause that its fault is reported under; nor where what it
///   wrote does not open as a WebP file does.
pub open spec fn derived(data: Seq<u8>) -> Result<ThumbnailView, MediaCause> {
    match decoded_size(data) {
        Err(fault) => Err(cause_of(fault, Step::Decode)),
        Ok((width, height)) => {
            let fitted = fit_size(width, height, THUMBNAIL_MAX, THUMBNAIL_MAX);
            match size_fault(width, height, fitted.0, fitted.1) {
                Some(cause) => Err(cause),
                None => match webp_outcome(data, THUMBNAIL_MAX, THUMBNAIL_MAX) {
                    Err(fault) => Err(cause_of(fault, Step::Encode)),
                    Ok(bytes) => if is_webp(bytes) {
                        Ok(
                            ThumbnailView {
                                source_width: width,
                                source_height: height,
                                width: fitted.0,
                                height: fitted.1,
                                bytes: bytes,
                            },
                        )
                    } else {
                        Err(MediaCause::Encode)
                    },
                },
            }
        },
    }
}

/// Derives the thumbnail of an upload: decodes it by its sniffed format,
/// scales it to fit 250 by 250 pixels, keeping the aspect ratio, and
/// encodes it as WebP. The result is [`derived`]: the thumbnail where there
/// is one, and otherwise a failure with the cause that is given there.
pub fn derive_thumbnail(data: &[u8]) -> (r: Result<Thumbnail, MediaError>)
    ensures
        match derived(data@) {
            Ok(thumbnail) => r is Ok && r->Ok_0@ == thumbnail,
            Err(cause) => r is Err && r->Err_0.cause == cause,
        },
{
    let picture = match decode_image(data) {
        Ok(picture) => picture,
        Err(failure) => {
            return Err(report(failure, Step::Decode));
        },
    };
    let small = scale_to_fit(&picture, THUMBNAIL_MAX, THUMBNAIL_MAX);
    match check_size(picture.width, picture.height, small.width, small.height) {
        Ok(_) => {},
        Err(e) => {
            return Err(e);
        },
    }
    let bytes = match encode_webp(&small) {
        Ok(bytes) => bytes,
        Err(failure) => {
            return Err(report(failure, Step::Encode));
        },
    };
    match check_encoding(bytes.as_slice()) {
        Ok(_) => {},
        Err(e) => {
            return Err(e);
        },
    }
    Ok(
        Thumbnail {
            source_width: picture.width,
            source_height: picture.height,
            width: small.width,
            height: small.height,
            bytes,
        },
    )
}

} // verus!
