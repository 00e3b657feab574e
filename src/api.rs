//! Shapes of the HTTP surface that the execution plane answers through:
//! caller identities, query parameters, package responses, and the error
//! kinds with their status codes and bodies.
use vstd::prelude::*;

use crate::admission::AdmissionError;
use crate::models::{FileUploadRequest, Language};
use crate::text::{concat, concat3, strings_view};

verus! {

/// Token claims of an API caller.
#[derive(Clone, Debug)]
pub struct Claims {
    /// The user id.
    pub sub: String,
    /// Expiry, seconds since the Unix epoch.
    pub exp: u64,
    /// Issue time, seconds since the Unix epoch.
    pub iat: u64,
    pub admin: bool,
}

/// An authenticated caller.
#[derive(Clone, Debug)]
pub struct UserAuth {
    pub user_id: String,
    pub is_admin: bool,
}

/// An authenticated administrator.
#[derive(Clone, Debug)]
pub struct AdminAuth {
    pub user_id: String,
}

/// Session listing parameters.
#[derive(Clone, Debug)]
pub struct ListSessionsQuery {
    pub status: String,
    pub limit: u64,
    pub offset: u64,
}

impl Default for ListSessionsQuery {
    fn default() -> (r: ListSessionsQuery)
        ensures
            r.status@ == "all"@,
            r.limit == 100,
            r.offset == 0,
    {
        ListSessionsQuery { status: "all".to_string(), limit: 100, offset: 0 }
    }
}

/// Session termination parameters.
#[derive(Clone, Copy, Debug)]
pub struct TerminateQuery {
    pub purge_data: bool,
}

/// File listing parameters.
#[derive(Clone, Debug)]
pub struct ListFilesQuery {
    pub path: String,
    pub recursive: bool,
}

/// An upload, as JSON with base64 content or as multipart form data.
#[derive(Clone, Debug)]
pub enum UploadBody {
    Json(FileUploadRequest),
    Multipart { filename: String, path: Option<String>, data: Vec<u8> },
}

/// Log streaming parameters.
#[derive(Clone, Debug)]
pub struct LogStreamQuery {
    pub user_id: Option<String>,
    pub level: String,
}

/// Request to install a package.
#[derive(Clone, Debug)]
pub struct InstallPackageRequest {
    pub package: String,
    pub language: Language,
}

/// Result of a package installation.
#[derive(Clone, Debug)]
pub struct InstallPackageResponse {
    pub package: String,
    pub language: String,
    pub status: String,
    pub output: String,
}

/// Packages installed for the caller.
#[derive(Clone, Debug)]
pub struct InstalledPackagesResponse {
    pub packages: Vec<String>,
    pub total: usize,
}

/// A language's allowlist.
#[derive(Clone, Debug)]
pub struct AllowedPackagesResponse {
    pub language: String,
    pub packages: Vec<String>,
    pub total: usize,
}

/// Replay listing parameters.
#[derive(Clone, Debug)]
pub struct ListReplaysQuery {
    pub limit: usize,
    pub user_id: Option<String>,
}

/// Failures reported to API callers.
#[derive(Clone, Debug)]
pub enum ApiError {
    Unauthorized,
    Forbidden,
    NotFound(String),
    BadRequest(String),
    Conflict(String),
    PayloadTooLarge,
    TooManyRequests,
    Timeout,
    Internal(String),
}

impl ApiError {
    /// HTTP status of the error.
    pub fn status_code(&self) -> (r: u16)
        ensures
            r == match self {
                ApiError::Unauthorized => 401u16,
                ApiError::Forbidden => 403,
                ApiError::NotFound(_) => 404,
                ApiError::BadRequest(_) => 400,
                ApiError::Conflict(_) => 409,
                ApiError::PayloadTooLarge => 413,
                ApiError::TooManyRequests => 429,
                ApiError::Timeout => 408,
                ApiError::Internal(_) => 500,
            },
    {
        match self {
            ApiError::Unauthorized => 401,
            ApiError::Forbidden => 403,
            ApiError::NotFound(_) => 404,
            ApiError::BadRequest(_) => 400,
            ApiError::Conflict(_) => 409,
            ApiError::PayloadTooLarge => 413,
            ApiError::TooManyRequests => 429,
            ApiError::Timeout => 408,
            ApiError::Internal(_) => 500,
        }
    }

    /// Machine-readable code of the error body.
    pub fn error_code(&self) -> (r: &'static str)
        ensures
            r@ == match self {
                ApiError::Unauthorized => "UNAUTHORIZED"@,
                ApiError::Forbidden => "FORBIDDEN"@,
                ApiError::NotFound(_) => "NOT_FOUND"@,
                ApiError::BadRequest(_) => "BAD_REQUEST"@,
                ApiError::Conflict(_) => "CONFLICT"@,
                ApiError::PayloadTooLarge => "PAYLOAD_TOO_LARGE"@,
                ApiError::TooManyRequests => "TOO_MANY_REQUESTS"@,
                ApiError::Timeout => "EXECUTION_TIMEOUT"@,
                ApiError::Internal(_) => "INTERNAL_ERROR"@,
            },
    {
        match self {
            ApiError::Unauthorized => "UNAUTHORIZED",
            ApiError::Forbidden => "FORBIDDEN",
            ApiError::NotFound(_) => "NOT_FOUND",
            ApiError::BadRequest(_) => "BAD_REQUEST",
            ApiError::Conflict(_) => "CONFLICT",
            ApiError::PayloadTooLarge => "PAYLOAD_TOO_LARGE",
            ApiError::TooManyRequests => "TOO_MANY_REQUESTS",
            ApiError::Timeout => "EXECUTION_TIMEOUT",
            ApiError::Internal(_) => "INTERNAL_ERROR",
        }
    }

    /// Human-readable message of the error body.
    pub fn message(&self) -> (r: String)
        ensures
            r@ == match self {
                ApiError::Unauthorized => "Authentication required"@,
                ApiError::Forbidden => "Insufficient permissions"@,
                ApiError::NotFound(m) => m@,
                ApiError::BadRequest(m) => m@,
                ApiError::Conflict(m) => m@,
                ApiError::PayloadTooLarge => "Payload too large"@,
                ApiError::TooManyRequests => "Too many requests"@,
                ApiError::Timeout => "Execution timeout"@,
                ApiError::Internal(m) => m@,
            },
    {
        match self {
            ApiError::Unauthorized => "Authentication required".to_string(),
            ApiError::Forbidden => "Insufficient permissions".to_string(),
            ApiError::NotFound(m) => m.clone(),
            ApiError::BadRequest(m) => m.clone(),
            ApiError::Conflict(m) => m.clone(),
            ApiError::PayloadTooLarge => "Payload too large".to_string(),
            ApiError::TooManyRequests => "Too many requests".to_string(),
            ApiError::Timeout => "Execution timeout".to_string(),
            ApiError::Internal(m) => m.clone(),
        }
    }
}

/// Strings joined with `, `.
pub open spec fn comma_joined(parts: Seq<Seq<char>>) -> Seq<char>
    decreases parts.len(),
{
    if parts.len() == 0 {
        Seq::empty()
    } else if parts.len() == 1 {
        parts[0]
    } else {
        comma_joined(parts.drop_last()) + ", "@ + parts.last()
    }
}

fn join_commas(parts: &Vec<String>) -> (r: String)
    ensures
        r@ == comma_joined(strings_view(parts@)),
{
    let ghost v = strings_view(parts@);
    let mut out = String::new();
    let mut i: usize = 0;
    while i < parts.len()
        invariant
            v == strings_view(parts@),
            i <= parts@.len(),
            out@ == comma_joined(v.take(i as int)),
        decreases parts@.len() - i,
    {
        proof {
            assert(v.take(i + 1).drop_last() =~= v.take(i as int));
        }
        if i == 0 {
            out = parts[0].clone();
            assert(v.take(1) =~= seq![parts@[0]@]);
        } else {
            out = concat3(out.as_str(), ", ", parts[i].as_str());
        }
        i = i + 1;
    }
    assert(v.take(parts@.len() as int) =~= v);
    out
}

/// The API error of a refused admission.
pub fn admission_error(e: &AdmissionError) -> (r: ApiError)
    ensures
        match e {
            AdmissionError::EmptyCode => r matches ApiError::BadRequest(m) && m@ == "Code cannot be empty"@,
            AdmissionError::PayloadTooLarge => r is PayloadTooLarge,
            AdmissionError::InvalidTimeout => r matches ApiError::BadRequest(m) && m@
                == "Timeout must be at least 1 second"@,
            AdmissionError::Forbidden => r is Forbidden,
            AdmissionError::TooManyRequests => r is TooManyRequests,
            AdmissionError::Blocked(c) => r matches ApiError::BadRequest(m) && m@
                == "Code blocked due to security analysis: "@ + comma_joined(strings_view(c@)),
        },
{
    match e {
        AdmissionError::EmptyCode => ApiError::BadRequest("Code cannot be empty".to_string()),
        AdmissionError::PayloadTooLarge => ApiError::PayloadTooLarge,
        AdmissionError::InvalidTimeout => ApiError::BadRequest(
            "Timeout must be at least 1 second".to_string(),
        ),
        AdmissionError::Forbidden => ApiError::Forbidden,
        AdmissionError::TooManyRequests => ApiError::TooManyRequests,
        AdmissionError::Blocked(c) => {
            let list = join_commas(c);
            ApiError::BadRequest(concat("Code blocked due to security analysis: ", list.as_str()))
        },
    }
}

} // verus!
