//! The gateway's closed error taxonomy.
//!
//! Every fallible step of the pipeline reports one of these kinds. Each
//! kind carries a fixed HTTP status code and renders as a JSON body of the
//! shape `{"error":{"message":<text>,"type":<kind>}}`. A failure is wrapped
//! exactly once into the most specific applicable kind and is never
//! re-labeled by a caller; kinds that wrap a lower-level failure carry its
//! rendered text as a plain string.

use vstd::prelude::*;
use crate::text::json_escape;
use crate::text::spec_json_escape;

verus! {

/// One failure kind per structurally distinct cause. The set is closed:
/// new causes must map into one of these kinds at the site of the failure.
#[derive(Debug)]
pub enum AppError {
    /// The outbound request to the upstream provider failed.
    ReqwestError(String),
    /// A local I/O operation failed.
    IoError(String),
    /// The server's own transport layer failed.
    AxumError(String),
    /// The inbound request used an HTTP method the gateway cannot forward.
    InvalidMethod,
    /// The upstream answered with a status code outside the valid range.
    InvalidStatus(String),
    /// A header needed for the outbound request held an unusable value.
    InvalidHeader,
    /// The request was routed to a provider name that is not registered.
    UnsupportedProvider,
    /// The inbound request carried no usable upstream credential.
    MissingApiKey,
    /// The inbound request body did not have the expected shape.
    InvalidRequestFormat,
    /// The requested model is not served by the selected provider.
    UnsupportedModel,
    /// A JSON body could not be decoded.
    JsonError(String),
    /// Signing the outbound request failed.
    AwsSigningError(String),
    /// The signing parameters for the outbound request could not be built.
    AwsParamsError(String),
    /// A header value could not be constructed from the given text.
    InvalidHeaderValue(String),
    /// A generic request-construction failure.
    RequestError(String),
    /// The upstream event stream was malformed mid-stream.
    EventStreamError(String),
    /// Upstream bytes could not be decoded as UTF-8 text.
    Utf8Error(String),
    /// A generic HTTP-level failure.
    HttpError(String),
    /// A JSON document could not be parsed.
    JsonParseError(String),
    /// A value could not be serialized to JSON.
    JsonSerializeError(String),
}

impl AppError {
    /// The fixed HTTP status a kind maps to: 400 or 401 for caller mistakes
    /// and unresolvable routing, 502 for upstream transport or status
    /// problems, 500 for internal, signing and stream failures.
    pub open spec fn spec_status(&self) -> u16 {
        match self {
            AppError::ReqwestError(_) => 502,
            AppError::IoError(_) => 500,
            AppError::AxumError(_) => 500,
            AppError::InvalidMethod => 400,
            AppError::InvalidStatus(_) => 502,
            AppError::InvalidHeader => 400,
            AppError::UnsupportedProvider => 400,
            AppError::MissingApiKey => 401,
            AppError::InvalidRequestFormat => 400,
            AppError::UnsupportedModel => 400,
            AppError::JsonError(_) => 400,
            AppError::AwsSigningError(_) => 500,
            AppError::AwsParamsError(_) => 500,
            AppError::InvalidHeaderValue(_) => 400,
            AppError::RequestError(_) => 400,
            AppError::EventStreamError(_) => 500,
            AppError::Utf8Error(_) => 500,
            AppError::HttpError(_) => 500,
            AppError::JsonParseError(_) => 500,
            AppError::JsonSerializeError(_) => 500,
        }
    }

    /// The HTTP status code this error is answered with.
    pub fn status_code(&self) -> (s: u16)
        ensures
            s == self.spec_status(),
    {
        match self {
            AppError::ReqwestError(_) => 502,
            AppError::IoError(_) => 500,
            AppError::AxumError(_) => 500,
            AppError::InvalidMethod => 400,
            AppError::InvalidStatus(_) => 502,
            AppError::InvalidHeader => 400,
            AppError::UnsupportedProvider => 400,
            AppError::MissingApiKey => 401,
            AppError::InvalidRequestFormat => 400,
            AppError::UnsupportedModel => 400,
            AppError::JsonError(_) => 400,
            AppError::AwsSigningError(_) => 500,
            AppError::AwsParamsError(_) => 500,
            AppError::InvalidHeaderValue(_) => 400,
            AppError::RequestError(_) => 400,
            AppError::EventStreamError(_) => 500,
            AppError::Utf8Error(_) => 500,
            AppError::HttpError(_) => 500,
            AppError::JsonParseError(_) => 500,
            AppError::JsonSerializeError(_) => 500,
        }
    }

    /// The identifier that the JSON body's `type` field carries.
    pub open spec fn spec_kind_name(&self) -> Seq<char> {
        match self {
            AppError::ReqwestError(_) => "ReqwestError"@,
            AppError::IoError(_) => "IoError"@,
            AppError::AxumError(_) => "AxumError"@,
            AppError::InvalidMethod => "InvalidMethod"@,
            AppError::InvalidStatus(_) => "InvalidStatus"@,
            AppError::InvalidHeader => "InvalidHeader"@,
            AppError::UnsupportedProvider => "UnsupportedProvider"@,
            AppError::MissingApiKey => "MissingApiKey"@,
            AppError::InvalidRequestFormat => "InvalidRequestFormat"@,
            AppError::UnsupportedModel => "UnsupportedModel"@,
            AppError::JsonError(_) => "JsonError"@,
            AppError::AwsSigningError(_) => "AwsSigningError"@,
            AppError::AwsParamsError(_) => "AwsParamsError"@,
            AppError::InvalidHeaderValue(_) => "InvalidHeaderValue"@,
            AppError::RequestError(_) => "RequestError"@,
            AppError::EventStreamError(_) => "EventStreamError"@,
            AppError::Utf8Error(_) => "Utf8Error"@,
            AppError::HttpError(_) => "HttpError"@,
            AppError::JsonParseError(_) => "JsonParseError"@,
            AppError::JsonSerializeError(_) => "JsonSerializeError"@,
        }
    }

    /// The kind identifier as a string, for the JSON body's `type` field.
    pub fn kind_name(&self) -> (k: String)
        ensures
            k@ == self.spec_kind_name(),
    {
        match self {
            AppError::ReqwestError(_) => String::from_str("ReqwestError"),
            AppError::IoError(_) => String::from_str("IoError"),
            AppError::AxumError(_) => String::from_str("AxumError"),
            AppError::InvalidMethod => String::from_str("InvalidMethod"),
            AppError::InvalidStatus(_) => String::from_str("InvalidStatus"),
            AppError::InvalidHeader => String::from_str("InvalidHeader"),
            AppError::UnsupportedProvider => String::from_str("UnsupportedProvider"),
            AppError::MissingApiKey => String::from_str("MissingApiKey"),
            AppError::InvalidRequestFormat => String::from_str("InvalidRequestFormat"),
            AppError::UnsupportedModel => String::from_str("UnsupportedModel"),
            AppError::JsonError(_) => String::from_str("JsonError"),
            AppError::AwsSigningError(_) => String::from_str("AwsSigningError"),
            AppError::AwsParamsError(_) => String::from_str("AwsParamsError"),
            AppError::InvalidHeaderValue(_) => String::from_str("InvalidHeaderValue"),
            AppError::RequestError(_) => String::from_str("RequestError"),
            AppError::EventStreamError(_) => String::from_str("EventStreamError"),
            AppError::Utf8Error(_) => String::from_str("Utf8Error"),
            AppError::HttpError(_) => String::from_str("HttpError"),
            AppError::JsonParseError(_) => String::from_str("JsonParseError"),
            AppError::JsonSerializeError(_) => String::from_str("JsonSerializeError"),
        }
    }

    /// The human-readable text of the JSON body's `message` field: a fixed
    /// sentence per kind, followed by the wrapped failure's text where one
    /// is carried.
    pub open spec fn spec_message(&self) -> Seq<char> {
        match self {
            AppError::ReqwestError(e) => "Provider request failed: "@ + e@,
            AppError::IoError(e) => "Internal server error: "@ + e@,
            AppError::AxumError(e) => "Server error: "@ + e@,
            AppError::InvalidMethod => "Invalid HTTP method"@,
            AppError::InvalidStatus(_) => "Invalid status code from provider"@,
            AppError::InvalidHeader => "Invalid header value"@,
            AppError::UnsupportedProvider => "Unsupported AI provider"@,
            AppError::MissingApiKey => "Missing or invalid API key"@,
            AppError::InvalidRequestFormat => "Invalid request format"@,
            AppError::UnsupportedModel => "Unsupported model"@,
            AppError::JsonError(e) => "JSON parsing error: "@ + e@,
            AppError::AwsSigningError(e) => "AWS signing error: "@ + e@,
            AppError::AwsParamsError(e) => "AWS params build error: "@ + e@,
            AppError::InvalidHeaderValue(e) => "Invalid header value: "@ + e@,
            AppError::RequestError(e) => "Request error: "@ + e@,
            AppError::EventStreamError(e) => "Failed to parse event stream: "@ + e@,
            AppError::Utf8Error(e) => "UTF-8 conversion error: "@ + e@,
            AppError::HttpError(e) => "HTTP error: "@ + e@,
            AppError::JsonParseError(e) => "JSON parse error: "@ + e@,
            AppError::JsonSerializeError(e) => "JSON serialize error: "@ + e@,
        }
    }

    /// The human-readable message this error renders with.
    pub fn message(&self) -> (m: String)
        ensures
            m@ == self.spec_message(),
    {
        match self {
            AppError::ReqwestError(e) => Self::prefixed("Provider request failed: ", e),
            AppError::IoError(e) => Self::prefixed("Internal server error: ", e),
            AppError::AxumError(e) => Self::prefixed("Server error: ", e),
            AppError::InvalidMethod => String::from_str("Invalid HTTP method"),
            AppError::InvalidStatus(_) => String::from_str("Invalid status code from provider"),
            AppError::InvalidHeader => String::from_str("Invalid header value"),
            AppError::UnsupportedProvider => String::from_str("Unsupported AI provider"),
            AppError::MissingApiKey => String::from_str("Missing or invalid API key"),
            AppError::InvalidRequestFormat => String::from_str("Invalid request format"),
            AppError::UnsupportedModel => String::from_str("Unsupported model"),
            AppError::JsonError(e) => Self::prefixed("JSON parsing error: ", e),
            AppError::AwsSigningError(e) => Self::prefixed("AWS signing error: ", e),
            AppError::AwsParamsError(e) => Self::prefixed("AWS params build error: ", e),
            AppError::InvalidHeaderValue(e) => Self::prefixed("Invalid header value: ", e),
            AppError::RequestError(e) => Self::prefixed("Request error: ", e),
            AppError::EventStreamError(e) => Self::prefixed("Failed to parse event stream: ", e),
            AppError::Utf8Error(e) => Self::prefixed("UTF-8 conversion error: ", e),
            AppError::HttpError(e) => Self::prefixed("HTTP error: ", e),
            AppError::JsonParseError(e) => Self::prefixed("JSON parse error: ", e),
            AppError::JsonSerializeError(e) => Self::prefixed("JSON serialize error: ", e),
        }
    }

    /// A fixed prefix followed by the wrapped failure's text.
    fn prefixed(prefix: &str, detail: &String) -> (m: String)
        ensures
            m@ == prefix@ + detail@,
    {
        let mut m = String::from_str(prefix);
        m.append(detail.as_str());
        m
    }

    /// The canonical JSON body this error renders as:
    /// `{"error":{"message":<text>,"type":<kind>}}`, with both fields
    /// JSON-escaped.
    pub open spec fn spec_body_json(&self) -> Seq<char> {
        "{\"error\":{\"message\":\""@ + spec_json_escape(self.spec_message())
            + "\",\"type\":\""@ + spec_json_escape(self.spec_kind_name()) + "\"}}"@
    }

    /// Render the canonical JSON error body.
    pub fn body_json(&self) -> (b: String)
        ensures
            b@ == self.spec_body_json(),
    {
        let mut b = String::from_str("{\"error\":{\"message\":\"");
        let m = self.message();
        let me = json_escape(m.as_str());
        b.append(me.as_str());
        b.append("\",\"type\":\"");
        let k = self.kind_name();
        let ke = json_escape(k.as_str());
        b.append(ke.as_str());
        b.append("\"}}");
        b
    }
}

} // verus!
