//! The upload client's logic: re-encode a local image as PNG, build the
//! upload request (endpoint, Authorization value, the one `image` field
//! holding the base64 payload), and turn the server's answer into the URL
//! to place on the clipboard. Reading the file, sending the request and
//! touching the clipboard stay with the caller.

use vstd::prelude::*;

use crate::b64::b64_encode;
use crate::b64::b64_encode_bytes;
use crate::config::ClientConfig;

verus! {

use vstd::string::*;

/// How the client pipeline can fail; each failure aborts the run and
/// leaves the clipboard untouched. Reading the file, sending the request
/// and touching the clipboard are the caller's steps, named here so that
/// every failure of the pipeline has one name.
#[derive(Clone, Copy, Debug, PartialEq, Eq, Structural)]
pub enum ClientError {
    FileRead,
    ImageDecode,
    ImageEncode,
    Network,
    ServerStatus(u16),
    ResponseParse,
    InvalidResponseFormat,
    Clipboard,
}

#[verifier::external_type_specification]
#[verifier::external_body]
pub struct ExDynamicImage(image::DynamicImage);

/// Whether bytes decode as an image in some supported format.
pub uninterp spec fn image_decodes(data: Seq<u8>) -> bool;

/// What a decoded image holds: its pixel data and layout, abstractly.
pub uninterp spec fn image_content(img: image::DynamicImage) -> Seq<u8>;

/// The content of the image decoded from bytes that decode.
pub uninterp spec fn decoded_content_of(data: Seq<u8>) -> Seq<u8>;

/// Whether PNG-encoding an image with the given content succeeds.
pub uninterp spec fn png_encode_ok(content: Seq<u8>) -> bool;

/// The PNG bytes of an image with the given content.
pub uninterp spec fn png_of(content: Seq<u8>) -> Seq<u8>;

/// Relies on image's `load_from_memory`: decodes bytes in any supported
/// format into an in-memory image, failing exactly on unrecognized or
/// corrupt input; the image is a function of the bytes alone.
#[verifier::external_body]
fn decode_image(data: &[u8]) -> (r: Option<image::DynamicImage>)
    ensures
        r is Some <==> image_decodes(data@),
        r matches Some(img) ==> image_content(img) == decoded_content_of(data@),
{
    image::load_from_memory(data).ok()
}

/// Relies on image's `DynamicImage::write_to` with the PNG format:
/// encodes the image as PNG bytes into a growable buffer; the result is
/// a function of the image's content alone.
#[verifier::external_body]
fn encode_png(img: &image::DynamicImage) -> (r: Option<Vec<u8>>)
    ensures
        r is Some <==> png_encode_ok(image_content(*img)),
        r matches Some(v) ==> v@ == png_of(image_content(*img)),
{
    let mut buf = std::io::Cursor::new(Vec::new());
    match img.write_to(&mut buf, image::ImageFormat::Png) {
        Ok(()) => Some(buf.into_inner()),
        Err(_) => None,
    }
}

/// Normalize arbitrary input bytes to PNG: decode them as an image and
/// re-encode that image. Success and result are a function of the input
/// bytes alone, and each failure is told apart.
pub fn recode_to_png(data: &Vec<u8>) -> (r: Result<Vec<u8>, ClientError>)
    ensures
        r is Ok <==> image_decodes(data@) && png_encode_ok(decoded_content_of(data@)),
        r is Ok ==> r.unwrap()@ == png_of(decoded_content_of(data@)),
        r == Err::<Vec<u8>, ClientError>(ClientError::ImageDecode) <==> !image_decodes(data@),
        image_decodes(data@) ==> (r == Err::<Vec<u8>, ClientError>(ClientError::ImageEncode)
            <==> !png_encode_ok(decoded_content_of(data@))),
{
    match decode_image(data.as_slice()) {
        None => Err(ClientError::ImageDecode),
        Some(img) => match encode_png(&img) {
            None => Err(ClientError::ImageEncode),
            Some(png) => Ok(png),
        },
    }
}

/// Everything the sender needs: where to post, the Authorization value,
/// and the one form field.
pub struct UploadRequest {
    pub endpoint: String,
    pub api_key: String,
    pub field_name: String,
    pub body: Vec<u8>,
}

/// Build the upload request for a PNG buffer: post to `<server_url>/upload`
/// with the configured key, carrying the base64 payload in a field named
/// `image`.
pub fn build_upload_request(config: &ClientConfig, png: &Vec<u8>) -> (r: UploadRequest)
    ensures
        r.endpoint@ == config.server_url@ + "/upload"@,
        r.api_key@ == config.api_key@,
        r.field_name@ == "image"@,
        r.body@ == b64_encode(png@),
{
    UploadRequest {
        endpoint: config.server_url.clone().concat("/upload"),
        api_key: config.api_key.clone(),
        field_name: String::from_str("image"),
        body: b64_encode_bytes(png.as_slice()),
    }
}

/// A 2xx answer is success.
pub open spec fn is_success_status(status: u16) -> bool {
    200 <= status < 300
}

#[verifier::external_type_specification]
#[verifier::external_body]
pub struct ExJsonValue(serde_json::Value);

/// The string at a key of a parsed JSON document, where the document is
/// an object holding a string there.
pub uninterp spec fn json_str_field(v: serde_json::Value, key: Seq<char>) -> Option<Seq<char>>;

/// Whether bytes parse as one JSON document.
pub uninterp spec fn json_wf(data: Seq<u8>) -> bool;

/// The string at a key of the document a well-formed text parses to.
pub uninterp spec fn json_doc_field(data: Seq<u8>, key: Seq<char>) -> Option<Seq<char>>;

/// Relies on serde_json's `from_slice`: parses bytes as one JSON
/// document, failing exactly on malformed input; the document, and so
/// its fields, are a function of the bytes alone.
#[verifier::external_body]
fn json_parse(data: &[u8]) -> (r: Option<serde_json::Value>)
    ensures
        r is Some <==> json_wf(data@),
        r matches Some(v) ==> forall|k: Seq<char>| json_str_field(v, k) == json_doc_field(
            data@,
            k,
        ),
{
    serde_json::from_slice(data).ok()
}

/// Relies on serde_json's `Value::get` and `Value::as_str`: the string
/// at a key of a JSON object, where there is one; the result depends on
/// the document and the key alone.
#[verifier::external_body]
fn json_get_str(v: &serde_json::Value, key: &str) -> (r: Option<String>)
    ensures
        r is Some <==> json_str_field(*v, key@) is Some,
        r is Some ==> r.unwrap()@ == json_str_field(*v, key@).unwrap(),
{
    match v.get(key) {
        Some(f) => f.as_str().map(|s| s.to_string()),
        None => None,
    }
}

/// The URL out of the server's answer: the string field `url`, required
/// to be present and a string.
pub fn extract_url(v: &serde_json::Value) -> (r: Result<String, ClientError>)
    ensures
        r is Ok <==> json_str_field(*v, "url"@) is Some,
        r is Ok ==> r.unwrap()@ == json_str_field(*v, "url"@).unwrap(),
        r is Err ==> r == Err::<String, ClientError>(ClientError::InvalidResponseFormat),
{
    match json_get_str(v, "url") {
        Some(url) => Ok(url),
        None => Err(ClientError::InvalidResponseFormat),
    }
}

/// Turn the server's status and body into the uploaded image's URL: a
/// non-2xx status is that status's error whatever the body; a 2xx answer
/// must parse as JSON and hold the string field `url`, and then the URL
/// is exactly that field.
pub fn parse_upload_response(status: u16, body: &Vec<u8>) -> (r: Result<String, ClientError>)
    ensures
        !is_success_status(status) <==> r == Err::<String, ClientError>(
            ClientError::ServerStatus(status),
        ),
        is_success_status(status) ==> ({
            &&& (r is Ok <==> json_wf(body@) && json_doc_field(body@, "url"@) is Some)
            &&& (r is Ok ==> r.unwrap()@ == json_doc_field(body@, "url"@).unwrap())
            &&& (r == Err::<String, ClientError>(ClientError::ResponseParse) <==> !json_wf(
                body@,
            ))
            &&& (json_wf(body@) ==> (r == Err::<String, ClientError>(
                ClientError::InvalidResponseFormat,
            ) <==> json_doc_field(body@, "url"@) is None))
        }),
{
    if !(200 <= status && status < 300) {
        return Err(ClientError::ServerStatus(status));
    }
    match json_parse(body.as_slice()) {
        None => Err(ClientError::ResponseParse),
        Some(v) => extract_url(&v),
    }
}

} // verus!
