//! Decoded bitmaps and image decoding.
//!
//! A [`DecodedImage`] is an immutable rgba8 bitmap: four bytes per pixel,
//! rows top to bottom. Decoding the encoded bytes of an image file is done by
//! the decoding dependency behind a single trusted call; everything around it
//! — the format detection by file signature, the well-formedness of the
//! bitmap, the collapse of every decode failure into one [`LoadError`] — is
//! verified.
//!
//! The library names the format itself, from the file's signature bytes, and
//! hands the decoding dependency that fixed format: with the format pinned,
//! decoding runs a built-in codec and consults none of the dependency's
//! process-global, runtime-registerable format or decoder hooks, so the same
//! bytes always decode to the same bitmap.

use vstd::prelude::*;

verus! {

/// A load failed: the path was unreadable, the format unsupported, or the
/// data corrupt. Non-fatal: the previously shown image, if any, is retained.
#[derive(Clone, Copy, Debug, PartialEq, Eq, Structural)]
pub struct LoadError;

/// An immutable decoded bitmap: dimensions and an rgba8 pixel buffer of
/// exactly four bytes per pixel.
#[derive(Debug)]
pub struct DecodedImage {
    width: u32,
    height: u32,
    pixels: Vec<u8>,
}

/// The encoded formats the library recognizes and decodes, each identified by
/// its file signature.
#[derive(Clone, Copy, Debug, PartialEq, Eq, Structural)]
pub enum ImageKind {
    Png,
    Jpeg,
}

/// The eight-byte PNG file signature.
pub open spec fn is_png_signature(bytes: Seq<u8>) -> bool {
    &&& bytes.len() >= 8
    &&& bytes[0] == 0x89u8
    &&& bytes[1] == 0x50u8
    &&& bytes[2] == 0x4eu8
    &&& bytes[3] == 0x47u8
    &&& bytes[4] == 0x0du8
    &&& bytes[5] == 0x0au8
    &&& bytes[6] == 0x1au8
    &&& bytes[7] == 0x0au8
}

/// The JPEG start-of-image marker followed by another marker byte.
pub open spec fn is_jpeg_signature(bytes: Seq<u8>) -> bool {
    &&& bytes.len() >= 3
    &&& bytes[0] == 0xffu8
    &&& bytes[1] == 0xd8u8
    &&& bytes[2] == 0xffu8
}

/// The format the bytes announce by their signature, if a recognized one.
pub open spec fn spec_detect_format(bytes: Seq<u8>) -> Option<ImageKind> {
    if is_png_signature(bytes) {
        Some(ImageKind::Png)
    } else if is_jpeg_signature(bytes) {
        Some(ImageKind::Jpeg)
    } else {
        None
    }
}

/// What decoding a byte sequence of a recognized format yields, when it
/// decodes at all: width, height and the rgba8 pixel buffer. With the format
/// pinned from the signature, decoding is a pure function of the bytes; this
/// name stands for its result without restating the codecs.
pub uninterp spec fn decoded_rgba(bytes: Seq<u8>) -> Option<(u32, u32, Seq<u8>)>;

#[verifier::external_type_specification]
#[verifier::external_body]
pub struct ExImageError(image::error::ImageError);

/// Relies on `image::load_from_memory_with_format`: handed a built-in format,
/// it runs that format's bundled codec directly — no process-global format or
/// decoder hook is consulted — so the result is a pure function of the bytes
/// (the format itself is a function of the bytes, by the `requires`). Also
/// relies on `DynamicImage::to_rgba8` / `ImageBuffer::into_raw` for the rgba8
/// layout: exactly four bytes per pixel, `width * height * 4` in all.
#[verifier::external_body]
fn decode_rgba(bytes: &Vec<u8>, format: ImageKind) -> (r: Result<
    (u32, u32, Vec<u8>),
    image::error::ImageError,
>)
    requires
        spec_detect_format(bytes@) == Some(format),
    ensures
        r is Ok <==> decoded_rgba(bytes@) is Some,
        r matches Ok(t) ==> decoded_rgba(bytes@) == Some((t.0, t.1, t.2@)),
        r matches Ok(t) ==> t.2@.len() == 4 * t.0 * t.1,
{
    let format = match format {
        ImageKind::Png => image::ImageFormat::Png,
        ImageKind::Jpeg => image::ImageFormat::Jpeg,
    };
    match image::load_from_memory_with_format(bytes.as_slice(), format) {
        Ok(img) => {
            let rgba = img.to_rgba8();
            let (w, h) = rgba.dimensions();
            Ok((w, h, rgba.into_raw()))
        },
        Err(e) => Err(e),
    }
}

/// Recognize the encoded format from the file's signature bytes.
pub fn detect_format(bytes: &Vec<u8>) -> (r: Option<ImageKind>)
    ensures
        r == spec_detect_format(bytes@),
{
    if bytes.len() >= 8 && bytes[0] == 0x89 && bytes[1] == 0x50 && bytes[2] == 0x4e
        && bytes[3] == 0x47 && bytes[4] == 0x0d && bytes[5] == 0x0a && bytes[6] == 0x1a
        && bytes[7] == 0x0a {
        Some(ImageKind::Png)
    } else if bytes.len() >= 3 && bytes[0] == 0xff && bytes[1] == 0xd8 && bytes[2] == 0xff {
        Some(ImageKind::Jpeg)
    } else {
        None
    }
}

impl View for DecodedImage {
    type V = (u32, u32, Seq<u8>);

    /// The bitmap as a mathematical value: width, height, rgba8 bytes.
    closed spec fn view(&self) -> (u32, u32, Seq<u8>) {
        (self.width, self.height, self.pixels@)
    }
}

impl DecodedImage {
    /// The bitmap's width in pixels.
    pub open spec fn spec_width(&self) -> u32 {
        self@.0
    }

    /// The bitmap's height in pixels.
    pub open spec fn spec_height(&self) -> u32 {
        self@.1
    }

    /// The rgba8 pixel buffer.
    pub open spec fn spec_pixels(&self) -> Seq<u8> {
        self@.2
    }

    /// A decoded bitmap holds exactly four bytes per pixel.
    pub open spec fn valid(&self) -> bool {
        self.spec_pixels().len() == 4 * self.spec_width() * self.spec_height()
    }

    /// The bitmap's width in pixels.
    pub fn width(&self) -> (w: u32)
        ensures
            w == self.spec_width(),
    {
        self.width
    }

    /// The bitmap's height in pixels.
    pub fn height(&self) -> (h: u32)
        ensures
            h == self.spec_height(),
    {
        self.height
    }

    /// The rgba8 pixel buffer, four bytes per pixel.
    pub fn pixels(&self) -> (p: &Vec<u8>)
        ensures
            p@ == self.spec_pixels(),
    {
        &self.pixels
    }

    /// Build a bitmap from raw rgba8 parts. Returns `None` exactly when the
    /// buffer does not hold four bytes per pixel.
    pub fn from_rgba8(width: u32, height: u32, pixels: Vec<u8>) -> (r: Option<DecodedImage>)
        ensures
            r is Some <==> pixels@.len() == 4 * width * height,
            r matches Some(img) ==> {
                &&& img.spec_width() == width
                &&& img.spec_height() == height
                &&& img.spec_pixels() == pixels@
                &&& img.valid()
            },
    {
        proof {
            assert(4 * (width as int) * (height as int) < 0x100000000000000000000000000000000int)
                by (nonlinear_arith)
                requires
                    width <= 0xffff_ffffu32,
                    height <= 0xffff_ffffu32,
            ;
        }
        let need: u128 = 4u128 * (width as u128) * (height as u128);
        if (pixels.len() as u128) == need {
            proof {
                assert(pixels@.len() == 4 * width * height);
            }
            Some(DecodedImage { width, height, pixels })
        } else {
            None
        }
    }
}

impl Clone for DecodedImage {
    /// An exact copy: same dimensions, same pixels.
    fn clone(&self) -> (r: Self)
        ensures
            r@ == self@,
    {
        DecodedImage { width: self.width, height: self.height, pixels: copy_bytes(&self.pixels) }
    }
}

/// A verified byte-for-byte copy of a buffer.
fn copy_bytes(src: &Vec<u8>) -> (r: Vec<u8>)
    ensures
        r@ == src@,
{
    let mut out: Vec<u8> = Vec::new();
    let mut k: usize = 0;
    while k < src.len()
        invariant
            0 <= k <= src@.len(),
            out@ == src@.subrange(0, k as int),
        decreases src@.len() - k,
    {
        out.push(src[k]);
        proof {
            assert(out@ =~= src@.subrange(0, k + 1 as int));
        }
        k = k + 1;
    }
    proof {
        assert(out@ =~= src@);
    }
    out
}

/// An optional bitmap as a mathematical value, for stating that two optional
/// bitmaps hold the same picture.
pub open spec fn opt_image_view(i: Option<DecodedImage>) -> Option<(u32, u32, Seq<u8>)> {
    match i {
        Some(img) => Some(img@),
        None => None,
    }
}

/// Decode the encoded bytes of an image file into an rgba8 bitmap.
///
/// The format is recognized from the file's signature (PNG or JPEG) and
/// pinned, so the decoding dependency runs its bundled codec for exactly that
/// format. Returns `Ok` exactly when the signature is recognized and the
/// bytes decode, and then carries precisely what they decode to; every
/// failure — unrecognized signature, corrupt data — collapses into the one
/// [`LoadError`].
pub fn decode(bytes: &Vec<u8>) -> (r: Result<DecodedImage, LoadError>)
    ensures
        r is Ok <==> (spec_detect_format(bytes@) is Some && decoded_rgba(bytes@) is Some),
        r matches Ok(img) ==> {
            &&& decoded_rgba(bytes@) == Some((img.spec_width(), img.spec_height(), img.spec_pixels()))
            &&& img.valid()
        },
        r is Err ==> r == Err::<DecodedImage, LoadError>(LoadError),
{
    match detect_format(bytes) {
        Some(format) => match decode_rgba(bytes, format) {
            Ok((w, h, pixels)) => Ok(DecodedImage { width: w, height: h, pixels }),
            Err(_) => Err(LoadError),
        },
        None => Err(LoadError),
    }
}

} // verus!
