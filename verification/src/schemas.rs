//! Schemas.
//!
//! Type definitions for everything that a client sends or is sent, and the
//! status code that goes with each response.

use vstd::prelude::*;
use vstd::string::StringExecFns;

use crate::types::{Item, ValidationError};

verus! {

pub const STATUS_OK: u16 = 200;

pub const STATUS_CREATED: u16 = 201;

pub const STATUS_BAD_REQUEST: u16 = 400;

pub const STATUS_UNAUTHORIZED: u16 = 401;

pub const STATUS_NOT_FOUND: u16 = 404;

pub const STATUS_CONFLICT: u16 = 409;

pub const STATUS_PAYLOAD_TOO_LARGE: u16 = 413;

pub const STATUS_UNSUPPORTED_MEDIA_TYPE: u16 = 415;

pub const STATUS_UNPROCESSABLE_ENTITY: u16 = 422;

pub const STATUS_INTERNAL_SERVER_ERROR: u16 = 500;

/// Post payload for creating a new item.
#[derive(Debug, Clone)]
pub struct CreateItem {
    pub name: String,
    /// Optional id, allowing clients to specify an id or have the server generate one.
    pub id: Option<u64>,
}

/// Query item information with name.
#[derive(Debug, Clone)]
pub struct ItemQuery {
    pub name: String,
}

/// Simple response with a message.
#[derive(Debug, Clone)]
pub struct MessageResponse {
    /// Message can be either information or an error message.
    pub message: String,
}

/// The names of all stored items.
#[derive(Debug)]
pub struct ItemListResponse {
    /// The total number of items.
    pub num_items: usize,
    /// List of all names.
    pub names: Vec<String>,
}

/// API version information.
#[derive(Debug, Clone)]
pub struct VersionInfo {
    pub name: &'static str,
    pub version: &'static str,
    pub deploy_tag: &'static str,
    pub build_time: &'static str,
    pub branch: &'static str,
    pub commit: &'static str,
    pub rust_version: &'static str,
}

/// Authentication failed response.
#[derive(Debug)]
pub struct AuthErrorResponse {
    pub message: String,
}

/// Combined response for JSON deserialization errors.
#[derive(Debug)]
pub struct RejectionErrorResponse {
    pub error: String,
    pub message: String,
}

/// Why a request body was not accepted as JSON for the expected type.
#[derive(Debug)]
pub enum JsonRejection {
    /// Valid JSON that does not have the expected shape.
    JsonDataError { body_text: String },
    /// Not valid JSON.
    JsonSyntaxError { body_text: String },
    /// The request did not announce a JSON body.
    MissingJsonContentType { body_text: String },
    /// The body could not be read; the status says why.
    BytesRejection { status: u16, body_text: String },
    /// Any other reason, with the status that it asks for.
    Unknown { status: u16, body_text: String },
}

/// A rejected request body, ready to be reported to the client.
#[derive(Debug)]
pub struct RejectionError {
    pub status: u16,
    pub message: String,
    pub rejection: String,
}

/// Server-side error, reported with status code 500 and the error message.
#[derive(Debug)]
pub struct ServerError(pub ValidationError);

#[derive(Debug)]
pub enum ItemResponse {
    Found(Item),
    Error(MessageResponse),
}

#[derive(Debug)]
pub enum CreateItemResponse {
    Created(Item),
    Error(MessageResponse),
}

#[derive(Debug)]
pub enum RemoveItemResponse {
    Removed(Item),
    Error(MessageResponse),
}

impl MessageResponse {
    pub fn new(message: String) -> (res: Self)
        ensures
            res.message == message,
    {
        Self { message }
    }

    pub fn new_from_str(message: &str) -> (res: Self)
        ensures
            res.message@ == message@,
    {
        Self { message: String::from_str(message) }
    }
}

impl AuthErrorResponse {
    pub fn new(message: String) -> (res: Self)
        ensures
            res.message == message,
    {
        Self { message }
    }

    pub fn new_from_str(message: &str) -> (res: Self)
        ensures
            res.message@ == message@,
    {
        Self { message: String::from_str(message) }
    }

    /// The status code that this response is sent with.
    pub fn status_code(&self) -> (status: u16)
        ensures
            status == STATUS_UNAUTHORIZED,
    {
        STATUS_UNAUTHORIZED
    }
}

impl RemoveItemResponse {
    pub fn new_error(message: String) -> (res: Self)
        ensures
            res matches RemoveItemResponse::Error(m) && m.message == message,
    {
        Self::Error(MessageResponse::new(message))
    }

    /// The status code that this response is sent with.
    pub fn status_code(&self) -> (status: u16)
        ensures
            status == (if self is Removed {
                STATUS_OK
            } else {
                STATUS_NOT_FOUND
            }),
    {
        match self {
            Self::Removed(_) => STATUS_OK,
            Self::Error(_) => STATUS_NOT_FOUND,
        }
    }
}

impl CreateItemResponse {
    /// The status code that this response is sent with.
    pub fn status_code(&self) -> (status: u16)
        ensures
            status == (if self is Created {
                STATUS_CREATED
            } else {
                STATUS_CONFLICT
            }),
    {
        match self {
            Self::Created(_) => STATUS_CREATED,
            Self::Error(_) => STATUS_CONFLICT,
        }
    }
}

impl ItemResponse {
    /// The status code that this response is sent with.
    pub fn status_code(&self) -> (status: u16)
        ensures
            status == (if self is Found {
                STATUS_OK
            } else {
                STATUS_NOT_FOUND
            }),
    {
        match self {
            Self::Found(_) => STATUS_OK,
            Self::Error(_) => STATUS_NOT_FOUND,
        }
    }
}

impl ValidationError {
    /// What the error says, as a character sequence.
    pub open spec fn text(&self) -> Seq<char> {
        "ID must be between 1000 and 9999"@
    }

    /// What the error says.
    pub fn message(&self) -> (s: String)
        ensures
            s@ == self.text(),
    {
        String::from_str("ID must be between 1000 and 9999")
    }
}

impl ServerError {
    /// Wraps a validation failure.
    pub fn from(err: ValidationError) -> (res: Self)
        ensures
            res.0 == err,
    {
        Self(err)
    }

    /// The status code that this error is sent with.
    pub fn status_code(&self) -> (status: u16)
        ensures
            status == STATUS_INTERNAL_SERVER_ERROR,
    {
        STATUS_INTERNAL_SERVER_ERROR
    }

    /// The text that this error is sent with.
    pub fn body(&self) -> (s: String)
        ensures
            s@ == "Error: "@ + self.0.text(),
    {
        let message = self.0.message();
        String::from_str("Error: ").concat(message.as_str())
    }
}

impl JsonRejection {
    /// The status code that goes with the rejection.
    pub open spec fn spec_status(&self) -> u16 {
        match self {
            JsonRejection::JsonDataError { .. } => STATUS_UNPROCESSABLE_ENTITY,
            JsonRejection::JsonSyntaxError { .. } => STATUS_BAD_REQUEST,
            JsonRejection::MissingJsonContentType { .. } => STATUS_UNSUPPORTED_MEDIA_TYPE,
            JsonRejection::BytesRejection { status, .. } => *status,
            JsonRejection::Unknown { status, .. } => *status,
        }
    }

    /// The explanation that comes with the rejection.
    pub open spec fn spec_body_text(&self) -> Seq<char> {
        match self {
            JsonRejection::JsonDataError { body_text } => body_text@,
            JsonRejection::JsonSyntaxError { body_text } => body_text@,
            JsonRejection::MissingJsonContentType { body_text } => body_text@,
            JsonRejection::BytesRejection { body_text, .. } => body_text@,
            JsonRejection::Unknown { body_text, .. } => body_text@,
        }
    }

    /// The name under which the rejection is reported.
    pub open spec fn spec_kind_name(&self) -> Seq<char> {
        match self {
            JsonRejection::JsonDataError { .. } => "JsonDataError"@,
            JsonRejection::JsonSyntaxError { .. } => "JsonSyntaxError"@,
            JsonRejection::MissingJsonContentType { .. } => "MissingJsonContentType"@,
            JsonRejection::BytesRejection { .. } => "BytesRejection"@,
            JsonRejection::Unknown { .. } => "Unknown rejection"@,
        }
    }

    /// The status code that goes with the rejection.
    #[verifier::when_used_as_spec(spec_status)]
    pub fn status(&self) -> (status: u16)
        ensures
            status == self.spec_status(),
    {
        match self {
            JsonRejection::JsonDataError { .. } => STATUS_UNPROCESSABLE_ENTITY,
            JsonRejection::JsonSyntaxError { .. } => STATUS_BAD_REQUEST,
            JsonRejection::MissingJsonContentType { .. } => STATUS_UNSUPPORTED_MEDIA_TYPE,
            JsonRejection::BytesRejection { status, .. } => *status,
            JsonRejection::Unknown { status, .. } => *status,
        }
    }

    /// The explanation that comes with the rejection.
    pub fn body_text(&self) -> (text: String)
        ensures
            text@ == self.spec_body_text(),
    {
        match self {
            JsonRejection::JsonDataError { body_text } => body_text.clone(),
            JsonRejection::JsonSyntaxError { body_text } => body_text.clone(),
            JsonRejection::MissingJsonContentType { body_text } => body_text.clone(),
            JsonRejection::BytesRejection { body_text, .. } => body_text.clone(),
            JsonRejection::Unknown { body_text, .. } => body_text.clone(),
        }
    }

    /// The name under which the rejection is reported.
    pub fn kind_name(&self) -> (name: String)
        ensures
            name@ == self.spec_kind_name(),
    {
        match self {
            JsonRejection::JsonDataError { .. } => String::from_str("JsonDataError"),
            JsonRejection::JsonSyntaxError { .. } => String::from_str("JsonSyntaxError"),
            JsonRejection::MissingJsonContentType { .. } => String::from_str(
                "MissingJsonContentType",
            ),
            JsonRejection::BytesRejection { .. } => String::from_str("BytesRejection"),
            JsonRejection::Unknown { .. } => String::from_str("Unknown rejection"),
        }
    }
}

impl RejectionError {
    /// Turns a rejection into the error that is reported for it.
    pub fn from(error: JsonRejection) -> (res: Self)
        ensures
            res.status == error.spec_status(),
            res.message@ == error.spec_body_text(),
            res.rejection@ == error.spec_kind_name(),
    {
        Self { status: error.status(), message: error.body_text(), rejection: error.kind_name() }
    }

    /// The status code that this error is sent with.
    pub fn status_code(&self) -> (status: u16)
        ensures
            status == self.status,
    {
        self.status
    }

    /// The body that this error is sent with.
    pub fn into_response(self) -> (res: RejectionErrorResponse)
        ensures
            res.error == self.rejection,
            res.message == self.message,
    {
        RejectionErrorResponse { error: self.rejection, message: self.message }
    }
}

impl VersionInfo {
    /// The lines of [`VersionInfo::to_string_pretty`].
    pub open spec fn pretty(&self) -> Seq<char> {
        "Version information:\n  name: "@ + self.name@ + "\n  version: "@ + self.version@
            + "\n  build time: "@ + self.build_time@ + "\n  branch: "@ + self.branch@
            + "\n  commit: "@ + self.commit@ + "\n  rust version: "@ + self.rust_version@
    }

    /// The line of [`VersionInfo::to_string`].
    pub open spec fn compact(&self) -> Seq<char> {
        "Version information: name: "@ + self.name@ + ", version: "@ + self.version@
            + ", build time: "@ + self.build_time@ + ", branch: "@ + self.branch@ + ", commit: "@
            + self.commit@ + ", rust version: "@ + self.rust_version@
    }

    /// The version information on several lines, one per field.
    pub fn to_string_pretty(&self) -> (s: String)
        ensures
            s@ == self.pretty(),
    {
        String::from_str("Version information:\n  name: ").concat(self.name).concat(
            "\n  version: ",
        ).concat(self.version).concat("\n  build time: ").concat(self.build_time).concat(
            "\n  branch: ",
        ).concat(self.branch).concat("\n  commit: ").concat(self.commit).concat(
            "\n  rust version: ",
        ).concat(self.rust_version)
    }

    /// The version information on one line.
    pub fn to_string(&self) -> (s: String)
        ensures
            s@ == self.compact(),
    {
        String::from_str("Version information: name: ").concat(self.name).concat(
            ", version: ",
        ).concat(self.version).concat(", build time: ").concat(self.build_time).concat(
            ", branch: ",
        ).concat(self.branch).concat(", commit: ").concat(self.commit).concat(
            ", rust version: ",
        ).concat(self.rust_version)
    }
}

} // verus!
