//! Error kinds of the core and of the HTTP surface.

use vstd::prelude::*;
use vstd::string::*;

verus! {

/// What can go wrong in the core.
///
/// Failures of the file system, of the JSON layer and of Git reach the
/// library as text: the program around it reports them and the library only
/// carries the message.
#[derive(Debug, Clone)]
pub enum Error {
    Io(String),
    Json(String),
    Encryption(String),
    Decryption(String),
    InvalidPassword,
    VaultNotFound,
    ItemNotFound(String),
    InvalidTotp,
    Keychain(String),
    Git(String),
    Import(String),
    Other(String),
}

/// The text that `Error::message` gives for `e`.
pub open spec fn error_message(e: Error) -> Seq<char> {
    match e {
        Error::Io(m) => "IO error: "@ + m@,
        Error::Json(m) => "JSON error: "@ + m@,
        Error::Encryption(m) => "Encryption error: "@ + m@,
        Error::Decryption(m) => "Decryption error: "@ + m@,
        Error::InvalidPassword => "Invalid password"@,
        Error::VaultNotFound => "Vault not found"@,
        Error::ItemNotFound(m) => "Item not found: "@ + m@,
        Error::InvalidTotp => "Invalid TOTP secret"@,
        Error::Keychain(m) => "Keychain error: "@ + m@,
        Error::Git(m) => "Git error: "@ + m@,
        Error::Import(m) => "Import error: "@ + m@,
        Error::Other(m) => "Other error: "@ + m@,
    }
}

/// The line that the command line shows for a failure.
pub open spec fn cli_report_text(message: Seq<char>) -> Seq<char> {
    "\u{2717} Error: "@ + message
}

/// The line that the command line shows for a failure:
/// `\u{2717} Error: <message>`.
pub fn cli_report(message: &String) -> (r: String)
    ensures
        r@ == cli_report_text(message@),
{
    prefixed("\u{2717} Error: ", message)
}

/// `prefix` followed by `detail`.
pub fn prefixed(prefix: &str, detail: &String) -> (r: String)
    ensures
        r@ == prefix@ + detail@,
{
    String::from_str(prefix).concat(detail.as_str())
}

impl Error {
    /// The message shown to a person.
    pub fn message(&self) -> (r: String)
        ensures
            r@ == error_message(*self),
    {
        match self {
            Error::Io(m) => prefixed("IO error: ", m),
            Error::Json(m) => prefixed("JSON error: ", m),
            Error::Encryption(m) => prefixed("Encryption error: ", m),
            Error::Decryption(m) => prefixed("Decryption error: ", m),
            Error::InvalidPassword => String::from_str("Invalid password"),
            Error::VaultNotFound => String::from_str("Vault not found"),
            Error::ItemNotFound(m) => prefixed("Item not found: ", m),
            Error::InvalidTotp => String::from_str("Invalid TOTP secret"),
            Error::Keychain(m) => prefixed("Keychain error: ", m),
            Error::Git(m) => prefixed("Git error: ", m),
            Error::Import(m) => prefixed("Import error: ", m),
            Error::Other(m) => prefixed("Other error: ", m),
        }
    }
}

/// What a request to the HTTP surface can fail with.
#[derive(Debug, Clone)]
pub enum ApiError {
    Unauthorized,
    NotFound,
    BadRequest(String),
    Internal(String),
    VaultLocked,
    InvalidPassword,
    SessionExpired,
}

/// The HTTP status that answers `e`.
pub open spec fn api_status(e: ApiError) -> u16 {
    match e {
        ApiError::Unauthorized => 401,
        ApiError::NotFound => 404,
        ApiError::BadRequest(_) => 400,
        ApiError::Internal(_) => 500,
        ApiError::VaultLocked => 403,
        ApiError::InvalidPassword => 401,
        ApiError::SessionExpired => 401,
    }
}

/// The text of the `error` field of the JSON body that answers `e`. It names
/// the kind only: the detail of an internal error never goes over the wire
/// in this field.
pub open spec fn api_label(e: ApiError) -> Seq<char> {
    match e {
        ApiError::Unauthorized => "Unauthorized"@,
        ApiError::NotFound => "Not found"@,
        ApiError::BadRequest(_) => "Bad request"@,
        ApiError::Internal(_) => "Internal error"@,
        ApiError::VaultLocked => "Vault is locked"@,
        ApiError::InvalidPassword => "Invalid password"@,
        ApiError::SessionExpired => "Session expired"@,
    }
}

/// The text of the `message` field of the JSON body that answers `e`.
pub open spec fn api_message(e: ApiError) -> Seq<char> {
    match e {
        ApiError::Unauthorized => "Unauthorized"@,
        ApiError::NotFound => "Not found"@,
        ApiError::BadRequest(m) => "Bad request: "@ + m@,
        ApiError::Internal(m) => "Internal error: "@ + m@,
        ApiError::VaultLocked => "Vault locked"@,
        ApiError::InvalidPassword => "Invalid password"@,
        ApiError::SessionExpired => "Session expired"@,
    }
}

/// The `message` that actually goes over the wire for `e`: the detail of an
/// internal error stays behind, and its place is taken by the kind.
pub open spec fn api_wire_message(e: ApiError) -> Seq<char> {
    match e {
        ApiError::Internal(_) => api_label(e),
        _ => api_message(e),
    }
}

/// Whether `api` is the API error that the core error `core` turns into: a
/// wrong password stays a wrong password, a missing vault or item is "not
/// found", and everything else is internal and carries the core's message.
pub open spec fn is_api_error_of(core: Error, api: ApiError) -> bool {
    match core {
        Error::InvalidPassword => api == ApiError::InvalidPassword,
        Error::VaultNotFound => api == ApiError::NotFound,
        Error::ItemNotFound(_) => api == ApiError::NotFound,
        _ => api matches ApiError::Internal(m) && m@ == error_message(core),
    }
}

impl ApiError {
    /// The HTTP status code of the response.
    pub fn status_code(&self) -> (r: u16)
        ensures
            r == api_status(*self),
    {
        match self {
            ApiError::Unauthorized => 401,
            ApiError::NotFound => 404,
            ApiError::BadRequest(_) => 400,
            ApiError::Internal(_) => 500,
            ApiError::VaultLocked => 403,
            ApiError::InvalidPassword => 401,
            ApiError::SessionExpired => 401,
        }
    }

    /// The `error` field of the response body.
    pub fn label(&self) -> (r: &'static str)
        ensures
            r@ == api_label(*self),
    {
        match self {
            ApiError::Unauthorized => "Unauthorized",
            ApiError::NotFound => "Not found",
            ApiError::BadRequest(_) => "Bad request",
            ApiError::Internal(_) => "Internal error",
            ApiError::VaultLocked => "Vault is locked",
            ApiError::InvalidPassword => "Invalid password",
            ApiError::SessionExpired => "Session expired",
        }
    }

    /// Turns an error of the core into the error of the API.
    pub fn from_core(err: Error) -> (r: ApiError)
        ensures
            is_api_error_of(err, r),
    {
        match err {
            Error::InvalidPassword => ApiError::InvalidPassword,
            Error::VaultNotFound => ApiError::NotFound,
            Error::ItemNotFound(_) => ApiError::NotFound,
            other => ApiError::Internal(other.message()),
        }
    }

    /// The `message` field of the response body as it is sent: generic for
    /// an internal error, whose detail is for the local log only.
    pub fn wire_message(&self) -> (r: String)
        ensures
            r@ == api_wire_message(*self),
    {
        match self {
            ApiError::Internal(_) => String::from_str(self.label()),
            _ => self.message(),
        }
    }

    /// The `message` field of the response body.
    pub fn message(&self) -> (r: String)
        ensures
            r@ == api_message(*self),
    {
        match self {
            ApiError::Unauthorized => String::from_str("Unauthorized"),
            ApiError::NotFound => String::from_str("Not found"),
            ApiError::BadRequest(m) => prefixed("Bad request: ", m),
            ApiError::Internal(m) => prefixed("Internal error: ", m),
            ApiError::VaultLocked => String::from_str("Vault locked"),
            ApiError::InvalidPassword => String::from_str("Invalid password"),
            ApiError::SessionExpired => String::from_str("Session expired"),
        }
    }
}

} // verus!
