//! The server's two request handlers as decision logic: uploading checks
//! the Authorization value, finds the first multipart field named `image`,
//! decodes its base64 bytes and says what to store and under which URL;
//! serving maps a looked-up file to a response. All I/O — receiving the
//! request, writing and reading files, sending the response — stays with
//! the caller, which acts on the returned outcome.

use vstd::prelude::*;

pub use crate::b64::b64_decode;
pub use crate::b64::b64_encode;
use crate::b64::b64_decode_bytes;
use crate::b64::lemma_b64_round_trip;
use crate::config::ServerConfig;
use crate::filename::generate_filename;
use crate::filename::is_image_name;

verus! {

use vstd::string::*;

/// One part of a multipart body: its field name and its data chunks in
/// arrival order.
pub struct MultipartField {
    pub name: String,
    pub chunks: Vec<Vec<u8>>,
}

/// Chunks concatenated in order.
pub open spec fn concat_of(chunks: Seq<Seq<u8>>) -> Seq<u8>
    decreases chunks.len(),
{
    if chunks.len() == 0 {
        Seq::<u8>::empty()
    } else {
        concat_of(chunks.drop_last()) + chunks.last()
    }
}

/// Concatenate a field's chunks into one buffer, in arrival order.
pub fn concat_chunks(chunks: &Vec<Vec<u8>>) -> (r: Vec<u8>)
    ensures
        r@ == concat_of(chunks.deep_view()),
{
    let mut r: Vec<u8> = Vec::new();
    let mut i: usize = 0;
    while i < chunks.len()
        invariant
            i <= chunks@.len(),
            r@ == concat_of(chunks.deep_view().subrange(0, i as int)),
        decreases chunks@.len() - i,
    {
        r.extend_from_slice(chunks[i].as_slice());
        proof {
            assert(chunks.deep_view().subrange(0, i + 1).drop_last() =~= chunks.deep_view()
                .subrange(0, i as int));
            assert(chunks.deep_view().subrange(0, i + 1).last() == chunks@[i as int]@);
        }
        i = i + 1;
    }
    proof {
        assert(chunks.deep_view().subrange(0, chunks@.len() as int) =~= chunks.deep_view());
    }
    r
}

/// The model of a multipart body: each field as its name and its
/// concatenated data.
pub open spec fn fields_model(fields: Seq<MultipartField>) -> Seq<(Seq<char>, Seq<u8>)> {
    fields.map_values(|f: MultipartField| (f.name@, concat_of(f.chunks.deep_view())))
}

/// The data of the first field named `image`, if any field is.
pub open spec fn first_image(fields: Seq<(Seq<char>, Seq<u8>)>) -> Option<Seq<u8>>
    decreases fields.len(),
{
    if fields.len() == 0 {
        None
    } else if fields[0].0 == "image"@ {
        Some(fields[0].1)
    } else {
        first_image(fields.subrange(1, fields.len() as int))
    }
}

/// What an upload request comes to, before any file is written.
pub enum UploadDecision {
    Unauthorized,
    MissingField,
    BadBase64,
    Store { bytes: Seq<u8> },
}

/// The upload rule: a missing or mismatched Authorization value is
/// refused; then the first `image` field is required; then its bytes
/// must decode as base64; only then is anything stored.
pub open spec fn upload_decision(
    api_key: Seq<char>,
    auth: Option<Seq<char>>,
    fields: Seq<(Seq<char>, Seq<u8>)>,
) -> UploadDecision {
    if auth != Some(api_key) {
        UploadDecision::Unauthorized
    } else {
        match first_image(fields) {
            None => UploadDecision::MissingField,
            Some(data) => match b64_decode(data) {
                None => UploadDecision::BadBase64,
                Some(bytes) => UploadDecision::Store { bytes },
            },
        }
    }
}

/// The outcome the caller acts on: a status to answer with, or a file
/// to write and the URL to answer with. Only `Store` writes anything.
pub enum UploadOutcome {
    Unauthorized,
    MissingField,
    BadBase64,
    Store { filename: String, path: String, url: String, bytes: Vec<u8> },
}

impl UploadOutcome {
    /// The HTTP status of each outcome (a failed write turns `Store`'s
    /// 200 into 500 at the caller).
    pub fn status(&self) -> (r: u16)
        ensures
            *self is Unauthorized ==> r == 401,
            *self is MissingField ==> r == 400,
            *self is BadBase64 ==> r == 400,
            *self is Store ==> r == 200,
    {
        match self {
            UploadOutcome::Unauthorized => 401,
            UploadOutcome::MissingField => 400,
            UploadOutcome::BadBase64 => 400,
            UploadOutcome::Store { .. } => 200,
        }
    }
}

/// Is the request's Authorization value present and exactly the
/// configured key? The comparison is ordinary string equality, not a
/// constant-time one: that weakness is kept as designed, and callers
/// wanting timing hardening must compare otherwise. Checking this before
/// reading any of the body preserves the order in which a request is
/// refused.
pub fn authorize(config: &ServerConfig, auth: &Option<String>) -> (r: bool)
    ensures
        r == (auth.deep_view() == Some(config.api_key@)),
{
    match auth {
        Some(a) => *a == config.api_key,
        None => false,
    }
}

/// Skipping fields not named `image` leaves the first `image` field
/// unchanged.
proof fn lemma_first_image_skip(m: Seq<(Seq<char>, Seq<u8>)>, i: int)
    requires
        0 <= i <= m.len(),
        forall|j: int| 0 <= j < i ==> (#[trigger] m[j]).0 != "image"@,
    ensures
        first_image(m) == first_image(m.subrange(i, m.len() as int)),
    decreases i,
{
    if i == 0 {
        assert(m.subrange(0, m.len() as int) =~= m);
    } else {
        let tail = m.subrange(1, m.len() as int);
        lemma_first_image_skip(tail, i - 1);
        assert(tail.subrange(i - 1, tail.len() as int) =~= m.subrange(i, m.len() as int));
    }
}

/// Decide an upload request. The outcome follows `upload_decision` on
/// the request's model; on `Store` the bytes are the decoded base64
/// data, the name is freshly generated, and the path and URL join the
/// configured storage path and server URL with that name. The key check
/// is `authorize`'s plain, non-constant-time comparison, kept as
/// designed.
pub fn handle_upload(config: &ServerConfig, auth: &Option<String>, fields: &Vec<MultipartField>) -> (r:
    UploadOutcome)
    ensures
        ({
            let d = upload_decision(config.api_key@, auth.deep_view(), fields_model(fields@));
            &&& (r is Unauthorized <==> d is Unauthorized)
            &&& (r is MissingField <==> d is MissingField)
            &&& (r is BadBase64 <==> d is BadBase64)
            &&& (r is Store <==> d is Store)
            &&& (r matches UploadOutcome::Store { filename, path, url, bytes } ==> {
                &&& d matches UploadDecision::Store { bytes: stored } && bytes@ == stored
                &&& is_image_name(filename@)
                &&& path@ == config.storage_path@ + "/"@ + filename@
                &&& url@ == config.server_url@ + "/"@ + filename@
            })
        }),
{
    if !authorize(config, auth) {
        return UploadOutcome::Unauthorized;
    }
    let needle = String::from_str("image");
    let ghost m = fields_model(fields@);
    let mut i: usize = 0;
    while i < fields.len()
        invariant
            i <= fields@.len(),
            m == fields_model(fields@),
            needle@ == "image"@,
            auth.deep_view() == Some(config.api_key@),
            forall|j: int| 0 <= j < i ==> (#[trigger] m[j]).0 != "image"@,
        decreases fields@.len() - i,
    {
        if fields[i].name == needle {
            let data = concat_chunks(&fields[i].chunks);
            proof {
                lemma_first_image_skip(m, i as int);
                assert(m.subrange(i as int, m.len() as int)[0] == m[i as int]);
                assert(first_image(m) == Some(data@));
            }
            match b64_decode_bytes(data.as_slice()) {
                None => {
                    return UploadOutcome::BadBase64;
                },
                Some(bytes) => {
                    let filename = generate_filename();
                    let path = config.storage_path.clone().concat("/").concat(filename.as_str());
                    let url = config.server_url.clone().concat("/").concat(filename.as_str());
                    return UploadOutcome::Store { filename, path, url, bytes };
                },
            }
        }
        i = i + 1;
    }
    proof {
        lemma_first_image_skip(m, m.len() as int);
        assert(m.subrange(m.len() as int, m.len() as int) =~= Seq::<(Seq<char>, Seq<u8>)>::empty());
    }
    UploadOutcome::MissingField
}

/// What a fetch of a stored image comes to.
pub enum ServeOutcome {
    NotFound,
    Found { bytes: Vec<u8> },
}

impl ServeOutcome {
    /// The HTTP status of each outcome.
    pub fn status(&self) -> (r: u16)
        ensures
            *self is NotFound ==> r == 404,
            *self is Found ==> r == 200,
    {
        match self {
            ServeOutcome::NotFound => 404,
            ServeOutcome::Found { .. } => 200,
        }
    }
}

/// The path under which a requested name is looked up: the storage
/// directory joined with the name as given. The name is not sanitized —
/// a name holding `..` segments reaches outside the storage directory,
/// which is kept as designed; a caller that must not allow that can hold
/// the name against `check_image_name` first.
pub fn stored_file_path(config: &ServerConfig, filename: &str) -> (r: String)
    ensures
        r@ == config.storage_path@ + "/"@ + filename@,
{
    config.storage_path.clone().concat("/").concat(filename)
}

/// Decide a fetch: a file that was found is returned exactly as read;
/// none found is not found.
pub fn serve_response(content: Option<Vec<u8>>) -> (r: ServeOutcome)
    ensures
        content is None <==> r is NotFound,
        (content matches Some(b) ==> r matches ServeOutcome::Found { bytes } && bytes@ == b@),
{
    match content {
        None => ServeOutcome::NotFound,
        Some(bytes) => ServeOutcome::Found { bytes },
    }
}

/// The content type every found file is served under.
pub fn png_content_type() -> (r: String)
    ensures
        r@ == "image/png"@,
{
    String::from_str("image/png")
}

/// An upload whose Authorization value is missing or differs from the
/// configured key is refused as unauthorized, whatever the body holds —
/// and only a `Store` decision writes anything.
pub proof fn lemma_upload_unauthorized(
    api_key: Seq<char>,
    auth: Option<Seq<char>>,
    fields: Seq<(Seq<char>, Seq<u8>)>,
)
    requires
        auth != Some(api_key),
    ensures
        upload_decision(api_key, auth, fields) is Unauthorized,
{
}

/// An authorized upload whose body has no field named `image` is a bad
/// request, whatever other fields are present.
pub proof fn lemma_upload_missing_field(api_key: Seq<char>, fields: Seq<(Seq<char>, Seq<u8>)>)
    requires
        forall|j: int| 0 <= j < fields.len() ==> (#[trigger] fields[j]).0 != "image"@,
    ensures
        upload_decision(api_key, Some(api_key), fields) is MissingField,
{
    lemma_first_image_skip(fields, fields.len() as int);
    assert(fields.subrange(fields.len() as int, fields.len() as int) =~= Seq::<(
        Seq<char>,
        Seq<u8>,
    )>::empty());
}

/// An authorized upload whose `image` field fails base64 decoding is a
/// bad request.
pub proof fn lemma_upload_bad_base64(
    api_key: Seq<char>,
    fields: Seq<(Seq<char>, Seq<u8>)>,
    data: Seq<u8>,
)
    requires
        first_image(fields) == Some(data),
        b64_decode(data) is None,
    ensures
        upload_decision(api_key, Some(api_key), fields) is BadBase64,
{
}

/// The round trip: an authorized upload whose `image` field carries the
/// canonical base64 encoding of any bytes stores exactly those bytes —
/// which `serve_response` then returns intact.
pub proof fn lemma_upload_round_trip(
    api_key: Seq<char>,
    fields: Seq<(Seq<char>, Seq<u8>)>,
    image_bytes: Seq<u8>,
)
    requires
        first_image(fields) == Some(b64_encode(image_bytes)),
    ensures
        upload_decision(api_key, Some(api_key), fields) == (UploadDecision::Store {
            bytes: image_bytes,
        }),
{
    lemma_b64_round_trip(image_bytes);
}

} // verus!
