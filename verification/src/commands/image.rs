use vstd::prelude::*;
use base64::Engine;

verus! {

pub const GEN_IMAGE_FILENAME: &'static str = "gen_image.png";

/// The bytes that standard base64 (RFC 4648 alphabet, with padding)
/// decodes `text` into, or `None` when `text` is not valid standard
/// base64.
pub uninterp spec fn base64_standard_decode(text: Seq<char>) -> Option<Seq<u8>>;

pub open spec fn bytes_view(bytes: Option<Vec<u8>>) -> Option<Seq<u8>> {
    match bytes {
        Some(b) => Some(b@),
        None => None,
    }
}

/// Calls `Engine::decode` of the `base64` crate with its `STANDARD`
/// engine on the bytes of `text`, taken on trust: the bytes it returns,
/// or `None` for its decode error, are the named decoding of `text`, a
/// function of the text alone. Nothing is stated of which texts decode.
#[verifier::external_body]
fn decode_base64_standard(text: &String) -> (r: Option<Vec<u8>>)
    ensures
        bytes_view(r) == base64_standard_decode(text@),
{
    base64::engine::general_purpose::STANDARD.decode(text).ok()
}

/// What the image command answers.
#[derive(Debug, PartialEq, Eq)]
pub enum ImageReply {
    /// Reply with the image attached under this file name.
    Attach { data: Vec<u8>, filename: String },
    /// The image was not valid base64: only a note in the log.
    DecodeFailed,
    /// The generator returned no image: only a note in the log.
    NoImage,
}

/// The reply for a generated image once its base64 text is decoded.
pub open spec fn reply_matches_decoded(r: ImageReply, decoded: Option<Seq<u8>>) -> bool {
    match decoded {
        Some(bytes) => r matches ImageReply::Attach { data, filename } && data@ == bytes
            && filename@ == GEN_IMAGE_FILENAME@,
        None => r is DecodeFailed,
    }
}

/// The reply for the decoded image: the image as `gen_image.png`, or a
/// failed decoding.
pub fn reply_for_decoded(decoded: Option<Vec<u8>>) -> (r: ImageReply)
    ensures
        reply_matches_decoded(r, bytes_view(decoded)),
{
    match decoded {
        Some(data) => ImageReply::Attach { data, filename: String::from_str(GEN_IMAGE_FILENAME) },
        None => ImageReply::DecodeFailed,
    }
}

/// The reply for what the image generator returned: nothing, or the
/// image decoded from base64.
pub fn image_reply(image_b64: &Option<String>) -> (r: ImageReply)
    ensures
        match *image_b64 {
            Some(text) => reply_matches_decoded(r, base64_standard_decode(text@)),
            None => r is NoImage,
        },
{
    match image_b64 {
        Some(text) => reply_for_decoded(decode_base64_standard(text)),
        None => ImageReply::NoImage,
    }
}

} // verus!
