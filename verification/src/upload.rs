//! The two upload strategies: what each request carries, and how the
//! server's answer becomes an outcome.

use vstd::prelude::*;
use vstd::string::*;

verus! {

/// The level at which text saves are compressed.
pub const GZIP_LEVEL: u32 = 4;

/// How long a connection to the endpoint may take to be made, in
/// milliseconds.
pub const CONNECT_TIMEOUT_MILLIS: u64 = 30000;

/// How long the endpoint may stay silent while a request is written or its
/// reply is read, in milliseconds. Without a limit a server that stops
/// answering would stall the watcher for good.
pub const TRANSFER_TIMEOUT_MILLIS: u64 = 120000;

/// Where uploads go and in whose name. Never changed once it is loaded.
#[derive(Clone, Debug, PartialEq, Eq)]
pub struct Client {
    pub username: String,
    pub api_key: String,
    pub api_url: String,
}

/// How a recognised file is uploaded.
#[derive(Clone, Copy, Debug, PartialEq, Eq, Structural)]
pub enum Strategy {
    /// The file's bytes as they are on disk.
    Archive,
    /// The file's bytes, gzip-compressed in memory.
    CompressedText,
}

/// The body of an upload request.
#[derive(Clone, Debug, PartialEq, Eq)]
pub enum Payload {
    /// The file itself, streamed from disk without change.
    WholeFile,
    /// These bytes.
    Bytes(Vec<u8>),
}

/// One HTTP POST with basic authentication, as plain values.
#[derive(Clone, Debug, PartialEq, Eq)]
pub struct UploadRequest {
    pub url: String,
    pub username: String,
    pub api_key: String,
    pub content_type: Option<String>,
    pub content_encoding: Option<String>,
    pub content_length: Option<u64>,
    pub body: Payload,
}

/// The server's answer: its status, and its body as text, or why the body
/// could not be read as text.
#[derive(Debug, PartialEq, Eq)]
pub struct Reply {
    pub status: u16,
    pub body: Result<String, String>,
}

/// How an upload ended. A failure carries its reason.
#[derive(Clone, Debug, PartialEq, Eq)]
pub enum UploadOutcome {
    Success,
    Failure(String),
}

impl View for UploadOutcome {
    type V = Option<Seq<char>>;

    /// `None` for a success, the reason's text for a failure.
    open spec fn view(&self) -> Option<Seq<char>> {
        match self {
            UploadOutcome::Success => None,
            UploadOutcome::Failure(reason) => Some(reason@),
        }
    }
}

/// Whether the request is sent to the client's endpoint with its credentials.
pub open spec fn addressed_by(request: UploadRequest, client: Client) -> bool {
    &&& request.url@ == client.api_url@
    &&& request.username@ == client.username@
    &&& request.api_key@ == client.api_key@
}

/// The request of the archive strategy for a file of the given size.
pub open spec fn is_archive_request(request: UploadRequest, client: Client, size: u64) -> bool {
    &&& addressed_by(request, client)
    &&& request.content_type matches Some(kind) && kind@ == "application/zip"@
    &&& request.content_encoding is None
    &&& request.content_length == Some(size)
    &&& request.body is WholeFile
}

/// The request of the compressed-text strategy with the given compressed bytes.
pub open spec fn is_text_request(request: UploadRequest, client: Client, compressed: Seq<u8>) -> bool {
    &&& addressed_by(request, client)
    &&& request.content_type is None
    &&& request.content_encoding matches Some(coding) && coding@ == "gzip"@
    &&& request.content_length is None
    &&& request.body matches Payload::Bytes(bytes) && bytes@ == compressed
}

/// What the encoder gives for the given bytes at the given level: the gzip
/// stream, or what it says when it fails.
pub uninterp spec fn gzip_result(data: Seq<u8>, level: u32) -> Result<Seq<u8>, Seq<char>>;

/// The result of a compression as plain values.
pub open spec fn compressed_view(compressed: Result<Vec<u8>, String>) -> Result<
    Seq<u8>,
    Seq<char>,
> {
    match compressed {
        Ok(bytes) => Ok(bytes@),
        Err(cause) => Err(cause@),
    }
}

/// Compresses bytes with `flate2::bufread::GzEncoder`, read to its end.
///
/// Claimed of the encoder, and not proved: what it gives, a stream or a
/// failure with its message, depends on the input and the level alone (the
/// header holds no time and no platform, so equal inputs give equal
/// streams). A stream begins with the ten-byte gzip header (`1f 8b`, method 8)
/// and ends with the eight bytes of checksum and length. Nothing is claimed of
/// when it fails.
#[verifier::external_body]
pub(crate) fn gzip(data: &[u8], level: u32) -> (out: Result<Vec<u8>, String>)
    requires
        level <= 9,
    ensures
        compressed_view(out) == gzip_result(data@, level),
        out matches Ok(bytes) ==> bytes@.len() >= 18 && bytes@[0] == 0x1f && bytes@[1] == 0x8b
            && bytes@[2] == 8,
{
    let mut out = Vec::new();
    let mut encoder = flate2::bufread::GzEncoder::new(data, flate2::Compression::new(level));
    match std::io::Read::read_to_end(&mut encoder, &mut out) {
        Ok(_) => Ok(out),
        Err(e) => Err(e.to_string()),
    }
}

/// Whether a status is in the success class.
pub open spec fn is_success_status(status: u16) -> bool {
    200 <= status <= 299
}

/// The outcome that a reply stands for.
pub open spec fn outcome_of_reply(reply: Reply) -> Option<Seq<char>> {
    if is_success_status(reply.status) {
        None
    } else {
        match reply.body {
            Ok(text) => Some(text@),
            Err(cause) => Some("unable to interpret error server response: "@ + cause@),
        }
    }
}

/// The reason of an upload whose content could not be compressed.
pub open spec fn uncompressed(cause: Seq<char>) -> Seq<char> {
    "unable to compress: "@ + cause
}

/// The result of the compressed-text strategy for a given result of the
/// compression: the request that carries the stream, or the encoder's failure
/// as the reason.
pub open spec fn text_request_matches(
    result: Result<UploadRequest, String>,
    client: Client,
    compressed: Result<Seq<u8>, Seq<char>>,
) -> bool {
    match compressed {
        Ok(stream) => result matches Ok(request) && is_text_request(request, client, stream),
        Err(cause) => result matches Err(reason) && reason@ == uncompressed(cause),
    }
}

impl Client {
    /// The request that uploads an archive unchanged. The size is the file's
    /// length in bytes; where it is not known, zero is sent.
    pub fn archive_request(&self, size: Option<u64>) -> (request: UploadRequest)
        ensures
            is_archive_request(
                request,
                *self,
                match size {
                    Some(n) => n,
                    None => 0,
                },
            ),
    {
        let length: u64 = match size {
            Some(n) => n,
            None => 0,
        };
        UploadRequest {
            url: self.api_url.clone(),
            username: self.username.clone(),
            api_key: self.api_key.clone(),
            content_type: Some(String::from_str("application/zip")),
            content_encoding: None,
            content_length: Some(length),
            body: Payload::WholeFile,
        }
    }

    /// The request that uploads already compressed bytes, or the failure
    /// that compression ended in.
    pub fn text_request_from(&self, compressed: Result<Vec<u8>, String>) -> (result: Result<
        UploadRequest,
        String,
    >)
        ensures
            text_request_matches(result, *self, compressed_view(compressed)),
    {
        match compressed {
            Ok(bytes) => Ok(
                UploadRequest {
                    url: self.api_url.clone(),
                    username: self.username.clone(),
                    api_key: self.api_key.clone(),
                    content_type: None,
                    content_encoding: Some(String::from_str("gzip")),
                    content_length: None,
                    body: Payload::Bytes(bytes),
                },
            ),
            Err(cause) => {
                let mut reason = String::from_str("unable to compress: ");
                reason.append(cause.as_str());
                Err(reason)
            },
        }
    }

    /// The request that uploads a text save: its whole content, compressed
    /// at the fixed level. Where the encoder gives a stream, the request
    /// carries it; where the encoder fails, what it says is the reason, marked
    /// as a failure to compress.
    pub fn text_request(&self, content: &[u8]) -> (result: Result<UploadRequest, String>)
        ensures
            text_request_matches(result, *self, gzip_result(content@, GZIP_LEVEL)),
            result matches Ok(request) ==> request.body matches Payload::Bytes(bytes)
                && bytes@.len() >= 18 && bytes@[0] == 0x1f && bytes@[1] == 0x8b,
    {
        self.text_request_from(gzip(content, GZIP_LEVEL))
    }
}

/// Reads the outcome of an upload off the server's reply: a status from 200
/// to 299 is a success, and with any other the body's text is the reason.
pub fn outcome_of(reply: Reply) -> (outcome: UploadOutcome)
    ensures
        outcome@ == outcome_of_reply(reply),
        outcome is Success <==> is_success_status(reply.status),
{
    if 200 <= reply.status && reply.status <= 299 {
        UploadOutcome::Success
    } else {
        match reply.body {
            Ok(text) => UploadOutcome::Failure(text),
            Err(cause) => {
                let mut reason = String::from_str("unable to interpret error server response: ");
                reason.append(cause.as_str());
                UploadOutcome::Failure(reason)
            },
        }
    }
}

} // verus!
