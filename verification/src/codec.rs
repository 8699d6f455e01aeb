//! Decoding and encoding, done in memory by the `image` crate.
//!
//! What the codec makes of given bytes is not restated here. The library
//! hands the bytes in, carries the decoded picture to the encoder, and
//! reports either failure with the codec's own words. Whether given bytes
//! decode, what the encoder makes of a picture, and the words of a failure
//! each depend on nothing but what is handed in, and each has a name.
//!
//! The decoded picture has none: the JPEG decoder picks its arithmetic by
//! the processor it finds, so the pixels it yields are not claimed to be the
//! same everywhere.

use vstd::prelude::*;
use crate::format::FormatType;

verus! {

/// A decoded picture. The library carries it from the decoder to the encoder
/// and never looks inside.
#[verifier::external_type_specification]
#[verifier::external_body]
pub struct ExDynamicImage(image::DynamicImage);

/// The codec's account of a failure.
#[verifier::external_type_specification]
#[verifier::external_body]
pub struct ExImageError(image::ImageError);

/// Whether `image::load_from_memory_with_format` makes a picture of `data`
/// when told to read it as `format`.
pub uninterp spec fn decodable(data: Seq<u8>, format: FormatType) -> bool;

/// Calls `image::load_from_memory_with_format`, which decodes `data` as a
/// picture of the given format and of no other. The contract claims only
/// that success is the one named [`decodable`]: the same bytes, read as the
/// same format, decode every time or never. Nothing is claimed of the
/// picture or of the failure.
#[verifier::external_body]
pub(crate) fn decode(data: &[u8], format: FormatType) -> (r: Result<
    image::DynamicImage,
    image::ImageError,
>)
    ensures
        r is Ok <==> decodable(data@, format),
{
    let format = match format {
        FormatType::PNG => image::ImageFormat::Png,
        FormatType::JPEG => image::ImageFormat::Jpeg,
    };
    image::load_from_memory_with_format(data, format)
}

/// What `DynamicImage::write_to` makes of `picture` when told to encode it
/// as `format`: the bytes it writes, or else its failure in the words named
/// [`failure_text`].
pub uninterp spec fn encoded(picture: image::DynamicImage, format: FormatType) -> Result<
    Seq<u8>,
    Seq<char>,
>;

/// The words that the `Display` of `image::ImageError` puts a failure into.
pub uninterp spec fn failure_text(e: image::ImageError) -> Seq<char>;

/// Calls `DynamicImage::write_to` with a buffer in memory, which encodes the
/// picture in the given format, and returns the buffer. The contract claims
/// only that the result is the one named [`encoded`]: the bytes written on
/// success, the failure's words otherwise.
#[verifier::external_body]
pub(crate) fn encode(picture: &image::DynamicImage, format: FormatType) -> (r: Result<
    Vec<u8>,
    image::ImageError,
>)
    ensures
        match r {
            Ok(bytes) => encoded(*picture, format) == Ok::<Seq<u8>, Seq<char>>(bytes@),
            Err(e) => encoded(*picture, format) == Err::<Seq<u8>, Seq<char>>(failure_text(e)),
        },
{
    let format = match format {
        FormatType::PNG => image::ImageFormat::Png,
        FormatType::JPEG => image::ImageFormat::Jpeg,
    };
    let mut bytes = Vec::new();
    picture.write_to(std::io::Cursor::new(&mut bytes), format)?;
    Ok(bytes)
}

/// Calls the `Display` of `image::ImageError`, which puts the failure into
/// words. The contract claims only that the text is the one named
/// [`failure_text`].
#[verifier::external_body]
pub(crate) fn describe(e: &image::ImageError) -> (text: String)
    ensures
        text@ == failure_text(*e),
{
    e.to_string()
}

} // verus!
