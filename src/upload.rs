//! The upload gate and the replies that an upload gets.
use vstd::prelude::*;
use vstd::string::StringExecFns;
use crate::config::{Config, preview_url_of};
use crate::text::same_text;

verus! {

/// Why an upload was refused or failed.
#[derive(PartialEq, Eq, Structural, Clone, Copy, Debug)]
pub enum UploadError {
    /// The bearer token is not the configured one.
    Unauthorized,
    /// The upload did not come in at the bare base domain.
    InvalidHost,
    /// The form holds no field named `file`.
    NoFile,
    /// The bundle could not be decompressed or unpacked.
    Ingestion,
    /// Every slug drawn for the upload was already taken.
    Exhausted,
}

pub open spec fn status_of(e: UploadError) -> u16 {
    match e {
        UploadError::Unauthorized => 401,
        UploadError::InvalidHost => 404,
        UploadError::NoFile => 400,
        UploadError::Ingestion => 500,
        UploadError::Exhausted => 503,
    }
}

pub open spec fn message_of(e: UploadError) -> Seq<char> {
    match e {
        UploadError::Unauthorized => "Unauthorized"@,
        UploadError::InvalidHost => "Invalid host"@,
        UploadError::NoFile => "No file provided"@,
        UploadError::Ingestion => "Extraction failed"@,
        UploadError::Exhausted => "No free preview name"@,
    }
}

impl UploadError {
    /// The HTTP status that this error is answered with.
    pub fn status(&self) -> (r: u16)
        ensures
            r == status_of(*self),
    {
        match self {
            UploadError::Unauthorized => 401,
            UploadError::InvalidHost => 404,
            UploadError::NoFile => 400,
            UploadError::Ingestion => 500,
            UploadError::Exhausted => 503,
        }
    }

    /// The text that stands in the reply's `preview_url` for this error.
    pub fn message(&self) -> (r: String)
        ensures
            r@ == message_of(*self),
    {
        let s = match self {
            UploadError::Unauthorized => "Unauthorized",
            UploadError::InvalidHost => "Invalid host",
            UploadError::NoFile => "No file provided",
            UploadError::Ingestion => "Extraction failed",
            UploadError::Exhausted => "No free preview name",
        };
        String::from_str(s)
    }
}

/// The verdict of the upload gate on a presented token and Host header.
pub open spec fn gate_of(token: Seq<char>, host: Seq<char>, api_token: Seq<char>, base: Seq<char>) -> Result<(), UploadError> {
    if token != api_token {
        Err(UploadError::Unauthorized)
    } else if host != base {
        Err(UploadError::InvalidHost)
    } else {
        Ok(())
    }
}

/// Admits an upload only with the configured token, presented at the bare
/// base domain. A wrong token is refused first, whatever the host.
pub fn authorize_upload(config: &Config, token: &str, host: &str) -> (r: Result<(), UploadError>)
    ensures
        r == gate_of(token@, host@, config.api_token@, config.base_domain@),
{
    if !same_text(token, config.api_token.as_str()) {
        Err(UploadError::Unauthorized)
    } else if !same_text(host, config.base_domain.as_str()) {
        Err(UploadError::InvalidHost)
    } else {
        Ok(())
    }
}

/// Whether a multipart field carries the bundle: its name is `file`.
pub fn is_file_field(name: Option<&str>) -> (r: bool)
    ensures
        r == (name matches Some(n) && n@ == "file"@),
{
    match name {
        Some(n) => same_text(n, "file"),
        None => false,
    }
}

/// The status and `preview_url` text that an upload is answered with.
pub struct UploadReply {
    pub status: u16,
    pub preview_url: String,
}

/// Answers an upload: `200` with the preview link where a slug was accepted,
/// else the error's status and message.
pub fn upload_reply(config: &Config, outcome: Result<String, UploadError>) -> (r: UploadReply)
    ensures
        outcome matches Ok(slug) ==> r.status == 200 && r.preview_url@ == preview_url_of(
            config.use_https,
            slug@,
            config.base_domain@,
        ),
        outcome matches Err(e) ==> r.status == status_of(e) && r.preview_url@ == message_of(e),
{
    match outcome {
        Ok(slug) => UploadReply { status: 200, preview_url: config.preview_url(slug.as_str()) },
        Err(e) => UploadReply { status: e.status(), preview_url: e.message() },
    }
}

} // verus!
