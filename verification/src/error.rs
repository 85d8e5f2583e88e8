//! Error types for Xberg.
//!
//! Every fallible operation of the library reports an [`XbergError`]. System
//! I/O errors are carried unchanged in [`XbergError::Io`]; application errors
//! carry a human-readable message and, where one is known, the underlying
//! cause as an [`ErrorSource`].
//!
//! The classification functions (`api_error_type`, `api_status_category`,
//! `extraction_error_type`, `extraction_error_code`, `mcp_error_category`) are
//! the single source of truth for how an error is reported by the REST API, in
//! batch extraction results and over MCP; each states its mapping exactly.

use vstd::prelude::*;
use vstd::string::StringExecFns;
use vstd::string::to_string_from_display_ensures;
use crate::text::{decimal_seq, push_decimal};

verus! {

#[verifier::external_type_specification]
#[verifier::external_body]
pub struct ExIoError(std::io::Error);

#[verifier::external_type_specification]
#[verifier::external_body]
pub struct ExJsonError(serde_json::Error);

#[verifier::external_type_specification]
#[verifier::external_body]
pub struct ExMsgpackEncodeError(rmp_serde::encode::Error);

#[verifier::external_type_specification]
#[verifier::external_body]
pub struct ExMsgpackDecodeError(rmp_serde::decode::Error);

#[verifier::external_type_specification]
#[verifier::external_body]
pub struct ExSpreadsheetError(calamine::Error);

/// The underlying cause recorded in an application error.
///
/// Causes that come from a known library are kept as they were raised, so the
/// error chain is preserved; any other cause is kept as its description.
#[derive(Debug)]
pub enum ErrorSource {
    /// A system I/O error.
    Io(std::io::Error),
    /// A JSON (de)serialization error.
    Json(serde_json::Error),
    /// A MessagePack serialization error.
    MsgpackEncode(rmp_serde::encode::Error),
    /// A MessagePack deserialization error.
    MsgpackDecode(rmp_serde::decode::Error),
    /// A spreadsheet reading error.
    Spreadsheet(calamine::Error),
    /// Any other cause, described by its text.
    Described(String),
}

impl From<std::io::Error> for ErrorSource {
    fn from(err: std::io::Error) -> (r: Self)
        ensures
            r == ErrorSource::Io(err),
    {
        ErrorSource::Io(err)
    }
}

impl vstd::std_specs::convert::FromSpecImpl<std::io::Error> for ErrorSource {
    open spec fn obeys_from_spec() -> bool {
        true
    }

    open spec fn from_spec(err: std::io::Error) -> Self {
        ErrorSource::Io(err)
    }
}

impl From<serde_json::Error> for ErrorSource {
    fn from(err: serde_json::Error) -> (r: Self)
        ensures
            r == ErrorSource::Json(err),
    {
        ErrorSource::Json(err)
    }
}

impl vstd::std_specs::convert::FromSpecImpl<serde_json::Error> for ErrorSource {
    open spec fn obeys_from_spec() -> bool {
        true
    }

    open spec fn from_spec(err: serde_json::Error) -> Self {
        ErrorSource::Json(err)
    }
}

impl From<rmp_serde::encode::Error> for ErrorSource {
    fn from(err: rmp_serde::encode::Error) -> (r: Self)
        ensures
            r == ErrorSource::MsgpackEncode(err),
    {
        ErrorSource::MsgpackEncode(err)
    }
}

impl vstd::std_specs::convert::FromSpecImpl<rmp_serde::encode::Error> for ErrorSource {
    open spec fn obeys_from_spec() -> bool {
        true
    }

    open spec fn from_spec(err: rmp_serde::encode::Error) -> Self {
        ErrorSource::MsgpackEncode(err)
    }
}

impl From<rmp_serde::decode::Error> for ErrorSource {
    fn from(err: rmp_serde::decode::Error) -> (r: Self)
        ensures
            r == ErrorSource::MsgpackDecode(err),
    {
        ErrorSource::MsgpackDecode(err)
    }
}

impl vstd::std_specs::convert::FromSpecImpl<rmp_serde::decode::Error> for ErrorSource {
    open spec fn obeys_from_spec() -> bool {
        true
    }

    open spec fn from_spec(err: rmp_serde::decode::Error) -> Self {
        ErrorSource::MsgpackDecode(err)
    }
}

impl From<calamine::Error> for ErrorSource {
    fn from(err: calamine::Error) -> (r: Self)
        ensures
            r == ErrorSource::Spreadsheet(err),
    {
        ErrorSource::Spreadsheet(err)
    }
}

impl vstd::std_specs::convert::FromSpecImpl<calamine::Error> for ErrorSource {
    open spec fn obeys_from_spec() -> bool {
        true
    }

    open spec fn from_spec(err: calamine::Error) -> Self {
        ErrorSource::Spreadsheet(err)
    }
}

impl ErrorSource {
    /// A cause known only by its description.
    pub fn described(description: &str) -> (r: Self)
        ensures
            r matches ErrorSource::Described(d) && d@ == description@,
    {
        ErrorSource::Described(description.to_owned())
    }
}

/// Result type of every fallible Xberg operation.
pub type Result<T> = std::result::Result<T, XbergError>;

/// Main error type for all Xberg operations.
#[derive(Debug)]
pub enum XbergError {
    /// A file system or I/O operation failed. These errors always bubble up unchanged.
    Io(std::io::Error),
    /// Document parsing failed (e.g. corrupt file, unsupported format feature).
    Parsing { message: String, source: Option<ErrorSource> },
    /// An OCR engine returned an error or produced unusable output.
    Ocr { message: String, source: Option<ErrorSource> },
    /// Invalid configuration or input parameters were supplied.
    Validation { message: String, source: Option<ErrorSource> },
    /// A cache read or write operation failed.
    Cache { message: String, source: Option<ErrorSource> },
    /// An image manipulation operation (resize, decode, DPI conversion) failed.
    ImageProcessing { message: String, source: Option<ErrorSource> },
    /// JSON or MessagePack serialization/deserialization failed.
    Serialization { message: String, source: Option<ErrorSource> },
    /// A required optional system dependency (e.g. `tesseract`) was not found.
    MissingDependency(String),
    /// A registered plugin returned an error during extraction.
    Plugin { message: String, plugin_name: String },
    /// An internal `Mutex` or `RwLock` was found in a poisoned state.
    LockPoisoned(String),
    /// The document's MIME type is not supported by any registered extractor.
    UnsupportedFormat(String),
    /// The embedding model or embedding pipeline returned an error.
    Embedding { message: String, source: Option<ErrorSource> },
    /// The reranker model or reranking pipeline returned an error.
    Reranking { message: String, source: Option<ErrorSource> },
    /// Audio/video transcription failed.
    Transcription { message: String, source: Option<ErrorSource> },
    /// The extraction operation exceeded the configured time limit.
    Timeout { elapsed_ms: u64, limit_ms: u64 },
    /// The extraction stopped after a cooperative cancellation request.
    Cancelled,
    /// A security policy was violated (e.g. zip bomb, oversized archive).
    Security { message: String, source: Option<ErrorSource> },
    /// A catch-all for uncommon errors that do not fit another variant.
    Other(String),
}

/// HTTP status category of an [`XbergError`] in REST API responses.
#[derive(Debug, Clone, Copy, PartialEq, Eq, Structural)]
pub enum ApiStatusCategory {
    /// Maps to HTTP 400 Bad Request.
    Validation,
    /// Maps to HTTP 422 Unprocessable Entity.
    Unprocessable,
    /// Maps to HTTP 500 Internal Server Error.
    Internal,
}

/// JSON-RPC error category of an [`XbergError`] in MCP responses.
#[derive(Debug, Clone, Copy, PartialEq, Eq, Structural)]
pub enum McpErrorCategory {
    /// Maps to JSON-RPC code -32602 (`INVALID_PARAMS`).
    InvalidParams,
    /// Maps to JSON-RPC code -32700 (`PARSE_ERROR`).
    ParseError,
    /// Maps to JSON-RPC code -32800 (`REQUEST_CANCELLED`).
    Cancelled,
    /// Maps to JSON-RPC code -32603 (`INTERNAL_ERROR`).
    Internal,
}

impl XbergError {
    /// Creates a `Parsing` error with the given message and no source.
    pub fn parsing(message: &str) -> (r: Self)
        ensures
            r matches XbergError::Parsing { message: m, source: None } && m@ == message@,
    {
        XbergError::Parsing { message: message.to_owned(), source: None }
    }

    /// Creates a `Parsing` error with the given message and source.
    pub fn parsing_with_source(message: &str, source: ErrorSource) -> (r: Self)
        ensures
            r matches XbergError::Parsing { message: m, source: Some(s) } && m@ == message@ && s == source,
    {
        XbergError::Parsing { message: message.to_owned(), source: Some(source) }
    }

    /// Creates a `Ocr` error with the given message and no source.
    pub fn ocr(message: &str) -> (r: Self)
        ensures
            r matches XbergError::Ocr { message: m, source: None } && m@ == message@,
    {
        XbergError::Ocr { message: message.to_owned(), source: None }
    }

    /// Creates a `Ocr` error with the given message and source.
    pub fn ocr_with_source(message: &str, source: ErrorSource) -> (r: Self)
        ensures
            r matches XbergError::Ocr { message: m, source: Some(s) } && m@ == message@ && s == source,
    {
        XbergError::Ocr { message: message.to_owned(), source: Some(source) }
    }

    /// Creates a `Validation` error with the given message and no source.
    pub fn validation(message: &str) -> (r: Self)
        ensures
            r matches XbergError::Validation { message: m, source: None } && m@ == message@,
    {
        XbergError::Validation { message: message.to_owned(), source: None }
    }

    /// Creates a `Validation` error with the given message and source.
    pub fn validation_with_source(message: &str, source: ErrorSource) -> (r: Self)
        ensures
            r matches XbergError::Validation { message: m, source: Some(s) } && m@ == message@ && s == source,
    {
        XbergError::Validation { message: message.to_owned(), source: Some(source) }
    }

    /// Creates a `Cache` error with the given message and no source.
    pub fn cache(message: &str) -> (r: Self)
        ensures
            r matches XbergError::Cache { message: m, source: None } && m@ == message@,
    {
        XbergError::Cache { message: message.to_owned(), source: None }
    }

    /// Creates a `Cache` error with the given message and source.
    pub fn cache_with_source(message: &str, source: ErrorSource) -> (r: Self)
        ensures
            r matches XbergError::Cache { message: m, source: Some(s) } && m@ == message@ && s == source,
    {
        XbergError::Cache { message: message.to_owned(), source: Some(source) }
    }

    /// Creates a `ImageProcessing` error with the given message and no source.
    pub fn image_processing(message: &str) -> (r: Self)
        ensures
            r matches XbergError::ImageProcessing { message: m, source: None } && m@ == message@,
    {
        XbergError::ImageProcessing { message: message.to_owned(), source: None }
    }

    /// Creates a `ImageProcessing` error with the given message and source.
    pub fn image_processing_with_source(message: &str, source: ErrorSource) -> (r: Self)
        ensures
            r matches XbergError::ImageProcessing { message: m, source: Some(s) } && m@ == message@ && s == source,
    {
        XbergError::ImageProcessing { message: message.to_owned(), source: Some(source) }
    }

    /// Creates a `Serialization` error with the given message and no source.
    pub fn serialization(message: &str) -> (r: Self)
        ensures
            r matches XbergError::Serialization { message: m, source: None } && m@ == message@,
    {
        XbergError::Serialization { message: message.to_owned(), source: None }
    }

    /// Creates a `Serialization` error with the given message and source.
    pub fn serialization_with_source(message: &str, source: ErrorSource) -> (r: Self)
        ensures
            r matches XbergError::Serialization { message: m, source: Some(s) } && m@ == message@ && s == source,
    {
        XbergError::Serialization { message: message.to_owned(), source: Some(source) }
    }

    /// Creates a `Embedding` error with the given message and no source.
    pub fn embedding(message: &str) -> (r: Self)
        ensures
            r matches XbergError::Embedding { message: m, source: None } && m@ == message@,
    {
        XbergError::Embedding { message: message.to_owned(), source: None }
    }

    /// Creates a `Embedding` error with the given message and source.
    pub fn embedding_with_source(message: &str, source: ErrorSource) -> (r: Self)
        ensures
            r matches XbergError::Embedding { message: m, source: Some(s) } && m@ == message@ && s == source,
    {
        XbergError::Embedding { message: message.to_owned(), source: Some(source) }
    }

    /// Creates a `Reranking` error with the given message and no source.
    pub fn reranking(message: &str) -> (r: Self)
        ensures
            r matches XbergError::Reranking { message: m, source: None } && m@ == message@,
    {
        XbergError::Reranking { message: message.to_owned(), source: None }
    }

    /// Creates a `Reranking` error with the given message and source.
    pub fn reranking_with_source(message: &str, source: ErrorSource) -> (r: Self)
        ensures
            r matches XbergError::Reranking { message: m, source: Some(s) } && m@ == message@ && s == source,
    {
        XbergError::Reranking { message: message.to_owned(), source: Some(source) }
    }

    /// Creates a `Security` error with the given message and no source.
    pub fn security(message: &str) -> (r: Self)
        ensures
            r matches XbergError::Security { message: m, source: None } && m@ == message@,
    {
        XbergError::Security { message: message.to_owned(), source: None }
    }

    /// Creates a `Security` error with the given message and source.
    pub fn security_with_source(message: &str, source: ErrorSource) -> (r: Self)
        ensures
            r matches XbergError::Security { message: m, source: Some(s) } && m@ == message@ && s == source,
    {
        XbergError::Security { message: message.to_owned(), source: Some(source) }
    }

    /// Creates a `Transcription` error with the given message and no source.
    pub fn transcription(message: &str) -> (r: Self)
        ensures
            r matches XbergError::Transcription { message: m, source: None } && m@ == message@,
    {
        XbergError::Transcription { message: message.to_owned(), source: None }
    }

    /// Creates a `Transcription` error with the given message and source.
    pub fn transcription_with_source(message: &str, source: ErrorSource) -> (r: Self)
        ensures
            r matches XbergError::Transcription { message: m, source: Some(s) } && m@ == message@ && s == source,
    {
        XbergError::Transcription { message: message.to_owned(), source: Some(source) }
    }

}

/// The canonical PascalCase label of an error in REST API responses.
pub open spec fn api_error_type_spec(e: XbergError) -> Seq<char> {
    match e {
        XbergError::Validation { .. } => "ValidationError"@,
        XbergError::Parsing { .. } => "ParsingError"@,
        XbergError::Ocr { .. } => "OCRError"@,
        XbergError::Io(_) => "IOError"@,
        XbergError::Cache { .. } => "CacheError"@,
        XbergError::ImageProcessing { .. } => "ImageProcessingError"@,
        XbergError::Serialization { .. } => "SerializationError"@,
        XbergError::MissingDependency(_) => "MissingDependencyError"@,
        XbergError::Plugin { .. } => "PluginError"@,
        XbergError::LockPoisoned(_) => "LockPoisonedError"@,
        XbergError::UnsupportedFormat(_) => "UnsupportedFormatError"@,
        XbergError::Embedding { .. } => "EmbeddingError"@,
        XbergError::Timeout { .. } => "TimeoutError"@,
        XbergError::Other(_) => "Error"@,
        XbergError::Cancelled => "CancelledError"@,
        XbergError::Security { .. } => "SecurityError"@,
        XbergError::Transcription { .. } => "TranscriptionError"@,
        XbergError::Reranking { .. } => "RerankingError"@,
    }
}

/// The HTTP status category of an error: bad input is a 400, a document that
/// could not be read is a 422, everything else is a 500.
pub open spec fn api_status_category_spec(e: XbergError) -> ApiStatusCategory {
    match e {
        XbergError::Validation { .. } | XbergError::UnsupportedFormat(_) => ApiStatusCategory::Validation,
        XbergError::Parsing { .. } | XbergError::Ocr { .. } => ApiStatusCategory::Unprocessable,
        _ => ApiStatusCategory::Internal,
    }
}

/// The snake_case label of an error in batch extraction results; variants
/// without a dedicated label report `"other"`.
pub open spec fn extraction_error_type_spec(e: XbergError) -> Seq<char> {
    match e {
        XbergError::Io(_) => "io"@,
        XbergError::Validation { .. } => "validation"@,
        XbergError::UnsupportedFormat(_) => "unsupported_format"@,
        XbergError::Timeout { .. } => "timeout"@,
        XbergError::Cancelled => "cancelled"@,
        XbergError::Security { .. } => "security"@,
        _ => "other"@,
    }
}

/// The numeric code of an error in batch extraction results; variants without
/// a dedicated code report 1099.
pub open spec fn extraction_error_code_spec(e: XbergError) -> u32 {
    match e {
        XbergError::Io(_) => 1001,
        XbergError::Validation { .. } => 1002,
        XbergError::UnsupportedFormat(_) => 1003,
        XbergError::Timeout { .. } => 1004,
        XbergError::Cancelled => 1005,
        XbergError::Security { .. } => 1006,
        _ => 1099,
    }
}

/// The JSON-RPC category of an error in MCP responses.
pub open spec fn mcp_error_category_spec(e: XbergError) -> McpErrorCategory {
    match e {
        XbergError::Validation { .. }
        | XbergError::UnsupportedFormat(_)
        | XbergError::MissingDependency(_)
        | XbergError::Security { .. } => McpErrorCategory::InvalidParams,
        XbergError::Parsing { .. } => McpErrorCategory::ParseError,
        XbergError::Cancelled => McpErrorCategory::Cancelled,
        _ => McpErrorCategory::Internal,
    }
}

impl XbergError {
    /// Returns the canonical PascalCase error-type label used in REST API error responses.
    pub fn api_error_type(&self) -> (r: &'static str)
        ensures
            r@ == api_error_type_spec(*self),
    {
        match self {
            XbergError::Validation { .. } => "ValidationError",
            XbergError::Parsing { .. } => "ParsingError",
            XbergError::Ocr { .. } => "OCRError",
            XbergError::Io(_) => "IOError",
            XbergError::Cache { .. } => "CacheError",
            XbergError::ImageProcessing { .. } => "ImageProcessingError",
            XbergError::Serialization { .. } => "SerializationError",
            XbergError::MissingDependency(_) => "MissingDependencyError",
            XbergError::Plugin { .. } => "PluginError",
            XbergError::LockPoisoned(_) => "LockPoisonedError",
            XbergError::UnsupportedFormat(_) => "UnsupportedFormatError",
            XbergError::Embedding { .. } => "EmbeddingError",
            XbergError::Timeout { .. } => "TimeoutError",
            XbergError::Other(_) => "Error",
            XbergError::Cancelled => "CancelledError",
            XbergError::Security { .. } => "SecurityError",
            XbergError::Transcription { .. } => "TranscriptionError",
            XbergError::Reranking { .. } => "RerankingError",
        }
    }

    /// Returns the canonical HTTP status category used by the REST API error conversion.
    pub fn api_status_category(&self) -> (r: ApiStatusCategory)
        ensures
            r == api_status_category_spec(*self),
    {
        match self {
            XbergError::Validation { .. } | XbergError::UnsupportedFormat(_) => ApiStatusCategory::Validation,
            XbergError::Parsing { .. } | XbergError::Ocr { .. } => ApiStatusCategory::Unprocessable,
            _ => ApiStatusCategory::Internal,
        }
    }

    /// Returns the canonical snake_case error-type label used in batch extraction error items.
    pub fn extraction_error_type(&self) -> (r: &'static str)
        ensures
            r@ == extraction_error_type_spec(*self),
    {
        match self {
            XbergError::Io(_) => "io",
            XbergError::Validation { .. } => "validation",
            XbergError::UnsupportedFormat(_) => "unsupported_format",
            XbergError::Timeout { .. } => "timeout",
            XbergError::Cancelled => "cancelled",
            XbergError::Security { .. } => "security",
            _ => "other",
        }
    }

    /// Returns the canonical numeric error code used in batch extraction error items.
    pub fn extraction_error_code(&self) -> (r: u32)
        ensures
            r == extraction_error_code_spec(*self),
    {
        match self {
            XbergError::Io(_) => 1001,
            XbergError::Validation { .. } => 1002,
            XbergError::UnsupportedFormat(_) => 1003,
            XbergError::Timeout { .. } => 1004,
            XbergError::Cancelled => 1005,
            XbergError::Security { .. } => 1006,
            _ => 1099,
        }
    }

    /// Returns the canonical JSON-RPC error category used by the MCP error conversion.
    pub fn mcp_error_category(&self) -> (r: McpErrorCategory)
        ensures
            r == mcp_error_category_spec(*self),
    {
        match self {
            XbergError::Validation { .. }
            | XbergError::UnsupportedFormat(_)
            | XbergError::MissingDependency(_)
            | XbergError::Security { .. } => McpErrorCategory::InvalidParams,
            XbergError::Parsing { .. } => McpErrorCategory::ParseError,
            XbergError::Cancelled => McpErrorCategory::Cancelled,
            _ => McpErrorCategory::Internal,
        }
    }
}

/// The text an error displays. `io_text` is what the wrapped I/O error
/// displays; it is used only by the `Io` variant.
pub open spec fn display_spec(e: XbergError, io_text: Seq<char>) -> Seq<char> {
    match e {
        XbergError::Io(_) => "IO error: "@ + io_text,
        XbergError::Parsing { message, .. } => "Parsing error: "@ + message@,
        XbergError::Ocr { message, .. } => "OCR error: "@ + message@,
        XbergError::Validation { message, .. } => "Validation error: "@ + message@,
        XbergError::Cache { message, .. } => "Cache error: "@ + message@,
        XbergError::ImageProcessing { message, .. } => "Image processing error: "@ + message@,
        XbergError::Serialization { message, .. } => "Serialization error: "@ + message@,
        XbergError::MissingDependency(message) => "Missing dependency: "@ + message@,
        XbergError::Plugin { message, plugin_name } =>
            "Plugin error in '"@ + plugin_name@ + "': "@ + message@,
        XbergError::LockPoisoned(message) => "Lock poisoned: "@ + message@,
        XbergError::UnsupportedFormat(message) => "Unsupported format: "@ + message@,
        XbergError::Embedding { message, .. } => "Embedding error: "@ + message@,
        XbergError::Reranking { message, .. } => "Reranking error: "@ + message@,
        XbergError::Transcription { message, .. } => "Transcription error: "@ + message@,
        XbergError::Timeout { elapsed_ms, limit_ms } =>
            "Extraction timed out after "@ + decimal_seq(elapsed_ms as nat) + "ms (limit: "@
                + decimal_seq(limit_ms as nat) + "ms)"@,
        XbergError::Cancelled => "Extraction cancelled"@,
        XbergError::Security { message, .. } => "Security violation: "@ + message@,
        XbergError::Other(message) => message@,
    }
}

/// Whether an error records an underlying cause: the wrapped I/O error of
/// `Io`, or the `source` of the variants that have one.
pub open spec fn has_source_spec(e: XbergError) -> bool {
    match e {
        XbergError::Io(_) => true,
        XbergError::Parsing { source, .. } => source is Some,
        XbergError::Ocr { source, .. } => source is Some,
        XbergError::Validation { source, .. } => source is Some,
        XbergError::Cache { source, .. } => source is Some,
        XbergError::ImageProcessing { source, .. } => source is Some,
        XbergError::Serialization { source, .. } => source is Some,
        XbergError::Embedding { source, .. } => source is Some,
        XbergError::Reranking { source, .. } => source is Some,
        XbergError::Transcription { source, .. } => source is Some,
        XbergError::Security { source, .. } => source is Some,
        _ => false,
    }
}

/// `prefix` followed by `message`, as a new string.
fn prefixed(prefix: &str, message: &String) -> (r: String)
    ensures
        r@ == prefix@ + message@,
{
    let mut out = prefix.to_owned();
    out.append(message.as_str());
    out
}

impl XbergError {
    /// Whether this error records an underlying cause.
    pub fn has_source(&self) -> (r: bool)
        ensures
            r == has_source_spec(*self),
    {
        match self {
            XbergError::Io(_) => true,
            XbergError::Parsing { source, .. } => source.is_some(),
            XbergError::Ocr { source, .. } => source.is_some(),
            XbergError::Validation { source, .. } => source.is_some(),
            XbergError::Cache { source, .. } => source.is_some(),
            XbergError::ImageProcessing { source, .. } => source.is_some(),
            XbergError::Serialization { source, .. } => source.is_some(),
            XbergError::Embedding { source, .. } => source.is_some(),
            XbergError::Reranking { source, .. } => source.is_some(),
            XbergError::Transcription { source, .. } => source.is_some(),
            XbergError::Security { source, .. } => source.is_some(),
            _ => false,
        }
    }

    /// The text this error displays, given the text that its wrapped I/O
    /// error displays (ignored by every variant but `Io`).
    pub fn display_with_io_text(&self, io_text: &str) -> (r: String)
        ensures
            r@ == display_spec(*self, io_text@),
    {
        match self {
            XbergError::Io(_) => {
                let mut out = "IO error: ".to_owned();
                out.append(io_text);
                out
            },
            XbergError::Parsing { message, .. } => prefixed("Parsing error: ", message),
            XbergError::Ocr { message, .. } => prefixed("OCR error: ", message),
            XbergError::Validation { message, .. } => prefixed("Validation error: ", message),
            XbergError::Cache { message, .. } => prefixed("Cache error: ", message),
            XbergError::ImageProcessing { message, .. } => prefixed("Image processing error: ", message),
            XbergError::Serialization { message, .. } => prefixed("Serialization error: ", message),
            XbergError::MissingDependency(message) => prefixed("Missing dependency: ", message),
            XbergError::Plugin { message, plugin_name } => {
                let mut out = prefixed("Plugin error in '", plugin_name);
                out.append("': ");
                out.append(message.as_str());
                out
            },
            XbergError::LockPoisoned(message) => prefixed("Lock poisoned: ", message),
            XbergError::UnsupportedFormat(message) => prefixed("Unsupported format: ", message),
            XbergError::Embedding { message, .. } => prefixed("Embedding error: ", message),
            XbergError::Reranking { message, .. } => prefixed("Reranking error: ", message),
            XbergError::Transcription { message, .. } => prefixed("Transcription error: ", message),
            XbergError::Timeout { elapsed_ms, limit_ms } => {
                let mut out = "Extraction timed out after ".to_owned();
                push_decimal(&mut out, *elapsed_ms);
                out.append("ms (limit: ");
                push_decimal(&mut out, *limit_ms);
                out.append("ms)");
                out
            },
            XbergError::Cancelled => "Extraction cancelled".to_owned(),
            XbergError::Security { message, .. } => prefixed("Security violation: ", message),
            XbergError::Other(message) => message.clone(),
        }
    }

    /// The text this error displays: a fixed prefix naming the kind of error,
    /// followed by its message (see [`display_spec`]).
    pub fn to_string(&self) -> (r: String)
        ensures
            !(self is Io) ==> r@ == display_spec(*self, Seq::empty()),
            self matches XbergError::Io(io) ==> exists|t: String|
                #[trigger] to_string_from_display_ensures::<std::io::Error>(&io, t)
                    && r@ == display_spec(*self, t@),
    {
        match self {
            XbergError::Io(io) => {
                let io_text = io.to_string();
                self.display_with_io_text(io_text.as_str())
            },
            _ => self.display_with_io_text(""),
        }
    }
}

impl From<std::io::Error> for XbergError {
    /// I/O errors bubble up unchanged.
    fn from(err: std::io::Error) -> (r: Self)
        ensures
            r == XbergError::Io(err),
    {
        XbergError::Io(err)
    }
}

impl vstd::std_specs::convert::FromSpecImpl<std::io::Error> for XbergError {
    open spec fn obeys_from_spec() -> bool {
        true
    }

    open spec fn from_spec(err: std::io::Error) -> Self {
        XbergError::Io(err)
    }
}

impl From<serde_json::Error> for XbergError {
    /// A JSON error becomes a `Serialization` error whose message is the
    /// text the JSON error displays and whose source is the JSON error.
    fn from(err: serde_json::Error) -> (r: Self)
        ensures
            r matches XbergError::Serialization { message, source: Some(ErrorSource::Json(inner)) }
                && to_string_from_display_ensures::<serde_json::Error>(&err, message)
                && inner == err,
    {
        let message = err.to_string();
        XbergError::Serialization { message, source: Some(ErrorSource::Json(err)) }
    }
}

/// vstd states `to_string` only as a relation between a value and the text it
/// displays, so the converted message is stated in `from`'s own `ensures`
/// rather than claimed to equal one chosen text.
impl vstd::std_specs::convert::FromSpecImpl<serde_json::Error> for XbergError {
    open spec fn obeys_from_spec() -> bool {
        false
    }

    open spec fn from_spec(err: serde_json::Error) -> Self {
        XbergError::Serialization {
            message: choose|m: String| to_string_from_display_ensures::<serde_json::Error>(&err, m),
            source: Some(ErrorSource::Json(err)),
        }
    }
}

impl From<rmp_serde::encode::Error> for XbergError {
    /// A MessagePack encoding error becomes a `Serialization` error whose
    /// message is the text the encoding error displays and whose source is it.
    fn from(err: rmp_serde::encode::Error) -> (r: Self)
        ensures
            r matches XbergError::Serialization {
                message,
                source: Some(ErrorSource::MsgpackEncode(inner)),
            } && to_string_from_display_ensures::<rmp_serde::encode::Error>(&err, message)
                && inner == err,
    {
        let message = err.to_string();
        XbergError::Serialization { message, source: Some(ErrorSource::MsgpackEncode(err)) }
    }
}

/// See the impl for `serde_json::Error`: the message is stated in `from`.
impl vstd::std_specs::convert::FromSpecImpl<rmp_serde::encode::Error> for XbergError {
    open spec fn obeys_from_spec() -> bool {
        false
    }

    open spec fn from_spec(err: rmp_serde::encode::Error) -> Self {
        XbergError::Serialization {
            message: choose|m: String|
                to_string_from_display_ensures::<rmp_serde::encode::Error>(&err, m),
            source: Some(ErrorSource::MsgpackEncode(err)),
        }
    }
}

impl From<rmp_serde::decode::Error> for XbergError {
    /// A MessagePack decoding error becomes a `Serialization` error whose
    /// message is the text the decoding error displays and whose source is it.
    fn from(err: rmp_serde::decode::Error) -> (r: Self)
        ensures
            r matches XbergError::Serialization {
                message,
                source: Some(ErrorSource::MsgpackDecode(inner)),
            } && to_string_from_display_ensures::<rmp_serde::decode::Error>(&err, message)
                && inner == err,
    {
        let message = err.to_string();
        XbergError::Serialization { message, source: Some(ErrorSource::MsgpackDecode(err)) }
    }
}

/// See the impl for `serde_json::Error`: the message is stated in `from`.
impl vstd::std_specs::convert::FromSpecImpl<rmp_serde::decode::Error> for XbergError {
    open spec fn obeys_from_spec() -> bool {
        false
    }

    open spec fn from_spec(err: rmp_serde::decode::Error) -> Self {
        XbergError::Serialization {
            message: choose|m: String|
                to_string_from_display_ensures::<rmp_serde::decode::Error>(&err, m),
            source: Some(ErrorSource::MsgpackDecode(err)),
        }
    }
}

impl From<calamine::Error> for XbergError {
    /// A spreadsheet error becomes a `Parsing` error whose message is the text
    /// the spreadsheet error displays and whose source is it.
    fn from(err: calamine::Error) -> (r: Self)
        ensures
            r matches XbergError::Parsing { message, source: Some(ErrorSource::Spreadsheet(inner)) }
                && to_string_from_display_ensures::<calamine::Error>(&err, message)
                && inner == err,
    {
        let message = err.to_string();
        XbergError::Parsing { message, source: Some(ErrorSource::Spreadsheet(err)) }
    }
}

/// See the impl for `serde_json::Error`: the message is stated in `from`.
impl vstd::std_specs::convert::FromSpecImpl<calamine::Error> for XbergError {
    open spec fn obeys_from_spec() -> bool {
        false
    }

    open spec fn from_spec(err: calamine::Error) -> Self {
        XbergError::Parsing {
            message: choose|m: String| to_string_from_display_ensures::<calamine::Error>(&err, m),
            source: Some(ErrorSource::Spreadsheet(err)),
        }
    }
}

/// The stable numeric code of an error's variant (1000 for `Io` up to 1017 for
/// `Other`, in declaration order); two errors have the same code exactly when
/// they are the same variant.
pub open spec fn variant_code(e: XbergError) -> int {
    match e {
        XbergError::Io(_) => 1000,
        XbergError::Parsing { .. } => 1001,
        XbergError::Ocr { .. } => 1002,
        XbergError::Validation { .. } => 1003,
        XbergError::Cache { .. } => 1004,
        XbergError::ImageProcessing { .. } => 1005,
        XbergError::Serialization { .. } => 1006,
        XbergError::MissingDependency(_) => 1007,
        XbergError::Plugin { .. } => 1008,
        XbergError::LockPoisoned(_) => 1009,
        XbergError::UnsupportedFormat(_) => 1010,
        XbergError::Embedding { .. } => 1011,
        XbergError::Reranking { .. } => 1012,
        XbergError::Transcription { .. } => 1013,
        XbergError::Timeout { .. } => 1014,
        XbergError::Cancelled => 1015,
        XbergError::Security { .. } => 1016,
        XbergError::Other(_) => 1017,
    }
}

/// The length and first character of an error's REST API label.
spec fn label_key(e: XbergError) -> (nat, char) {
    match e {
        XbergError::Io(_) => (7nat, 'I'),
        XbergError::Parsing { .. } => (12nat, 'P'),
        XbergError::Ocr { .. } => (8nat, 'O'),
        XbergError::Validation { .. } => (15nat, 'V'),
        XbergError::Cache { .. } => (10nat, 'C'),
        XbergError::ImageProcessing { .. } => (20nat, 'I'),
        XbergError::Serialization { .. } => (18nat, 'S'),
        XbergError::MissingDependency(_) => (22nat, 'M'),
        XbergError::Plugin { .. } => (11nat, 'P'),
        XbergError::LockPoisoned(_) => (17nat, 'L'),
        XbergError::UnsupportedFormat(_) => (22nat, 'U'),
        XbergError::Embedding { .. } => (14nat, 'E'),
        XbergError::Reranking { .. } => (14nat, 'R'),
        XbergError::Transcription { .. } => (18nat, 'T'),
        XbergError::Timeout { .. } => (12nat, 'T'),
        XbergError::Cancelled => (14nat, 'C'),
        XbergError::Security { .. } => (13nat, 'S'),
        XbergError::Other(_) => (5nat, 'E'),
    }
}

proof fn lemma_label_key(e: XbergError)
    ensures
        label_key(e) == (api_error_type_spec(e).len(), api_error_type_spec(e)[0]),
{
    match e {
        XbergError::Io(_) => {
            reveal_strlit("IOError");
        },
        XbergError::Parsing { .. } => {
            reveal_strlit("ParsingError");
        },
        XbergError::Ocr { .. } => {
            reveal_strlit("OCRError");
        },
        XbergError::Validation { .. } => {
            reveal_strlit("ValidationError");
        },
        XbergError::Cache { .. } => {
            reveal_strlit("CacheError");
        },
        XbergError::ImageProcessing { .. } => {
            reveal_strlit("ImageProcessingError");
        },
        XbergError::Serialization { .. } => {
            reveal_strlit("SerializationError");
        },
        XbergError::MissingDependency(_) => {
            reveal_strlit("MissingDependencyError");
        },
        XbergError::Plugin { .. } => {
            reveal_strlit("PluginError");
        },
        XbergError::LockPoisoned(_) => {
            reveal_strlit("LockPoisonedError");
        },
        XbergError::UnsupportedFormat(_) => {
            reveal_strlit("UnsupportedFormatError");
        },
        XbergError::Embedding { .. } => {
            reveal_strlit("EmbeddingError");
        },
        XbergError::Reranking { .. } => {
            reveal_strlit("RerankingError");
        },
        XbergError::Transcription { .. } => {
            reveal_strlit("TranscriptionError");
        },
        XbergError::Timeout { .. } => {
            reveal_strlit("TimeoutError");
        },
        XbergError::Cancelled => {
            reveal_strlit("CancelledError");
        },
        XbergError::Security { .. } => {
            reveal_strlit("SecurityError");
        },
        XbergError::Other(_) => {
            reveal_strlit("Error");
        },
    }
}

/// The REST API error-type label identifies the variant: two errors get the
/// same label exactly when they are the same variant.
pub proof fn lemma_api_error_type_identifies_variant(a: XbergError, b: XbergError)
    ensures
        (api_error_type_spec(a) == api_error_type_spec(b)) <==> (variant_code(a) == variant_code(b)),
{
    lemma_label_key(a);
    lemma_label_key(b);
}

/// The first character of an error's batch-extraction label.
spec fn extraction_label_initial(e: XbergError) -> char {
    match e {
        XbergError::Io(_) => 'i',
        XbergError::Validation { .. } => 'v',
        XbergError::UnsupportedFormat(_) => 'u',
        XbergError::Timeout { .. } => 't',
        XbergError::Cancelled => 'c',
        XbergError::Security { .. } => 's',
        _ => 'o',
    }
}

proof fn lemma_extraction_label_initial(e: XbergError)
    ensures
        extraction_error_type_spec(e).len() > 0,
        extraction_label_initial(e) == extraction_error_type_spec(e)[0],
{
    reveal_strlit("io");
    reveal_strlit("validation");
    reveal_strlit("unsupported_format");
    reveal_strlit("timeout");
    reveal_strlit("cancelled");
    reveal_strlit("security");
    reveal_strlit("other");
}

/// The batch-extraction label and code agree: two errors share a label
/// exactly when they share a code, and the label is `"other"` exactly when
/// the code is 1099.
pub proof fn lemma_extraction_type_and_code_agree(a: XbergError, b: XbergError)
    ensures
        (extraction_error_type_spec(a) == extraction_error_type_spec(b))
            <==> (extraction_error_code_spec(a) == extraction_error_code_spec(b)),
        (extraction_error_type_spec(a) == "other"@) <==> (extraction_error_code_spec(a) == 1099),
{
    lemma_extraction_label_initial(a);
    lemma_extraction_label_initial(b);
    reveal_strlit("other");
}

/// The REST and MCP classifications agree where they overlap: every error the
/// REST API rejects as bad input (400) is reported over MCP as invalid
/// parameters; every MCP parse error is a 422 in REST; and an error is a
/// cancellation over MCP exactly when batch extraction reports code 1005 and
/// label `"cancelled"`.
pub proof fn lemma_rest_and_mcp_categories_agree(e: XbergError)
    ensures
        api_status_category_spec(e) == ApiStatusCategory::Validation
            ==> mcp_error_category_spec(e) == McpErrorCategory::InvalidParams,
        mcp_error_category_spec(e) == McpErrorCategory::ParseError
            ==> api_status_category_spec(e) == ApiStatusCategory::Unprocessable,
        (mcp_error_category_spec(e) == McpErrorCategory::Cancelled)
            <==> (extraction_error_code_spec(e) == 1005),
        (mcp_error_category_spec(e) == McpErrorCategory::Cancelled)
            <==> (extraction_error_type_spec(e) == "cancelled"@),
{
    lemma_extraction_label_initial(e);
    reveal_strlit("cancelled");
}

/// The REST status category of an error depends on its variant alone: bad
/// input (`Validation`, `UnsupportedFormat`) is 400, a document that could not
/// be read (`Parsing`, `Ocr`) is 422, and every other variant, `Cache` among
/// them, is 500, whatever its message or source.
pub proof fn lemma_api_status_category_by_variant(a: XbergError, b: XbergError)
    ensures
        variant_code(a) == variant_code(b) ==> api_status_category_spec(a) == api_status_category_spec(b),
        (api_status_category_spec(a) == ApiStatusCategory::Validation)
            <==> (a is Validation || a is UnsupportedFormat),
        (api_status_category_spec(a) == ApiStatusCategory::Unprocessable)
            <==> (a is Parsing || a is Ocr),
        (api_status_category_spec(a) == ApiStatusCategory::Internal)
            <==> !(a is Validation || a is UnsupportedFormat || a is Parsing || a is Ocr),
        a is Cache ==> api_status_category_spec(a) == ApiStatusCategory::Internal,
{
}

/// The MCP category of an error depends on its variant alone, whatever its
/// message or source: client-side problems (`Validation`, `UnsupportedFormat`,
/// `MissingDependency`, `Security`) are invalid params, every `Parsing` error
/// is a parse error, `Cancelled` is a cancellation, and every other variant is
/// internal.
pub proof fn lemma_mcp_error_category_by_variant(a: XbergError, b: XbergError)
    ensures
        variant_code(a) == variant_code(b) ==> mcp_error_category_spec(a) == mcp_error_category_spec(b),
        (mcp_error_category_spec(a) == McpErrorCategory::InvalidParams)
            <==> (a is Validation || a is UnsupportedFormat || a is MissingDependency || a is Security),
        (mcp_error_category_spec(a) == McpErrorCategory::ParseError) <==> a is Parsing,
        (mcp_error_category_spec(a) == McpErrorCategory::Cancelled) <==> a is Cancelled,
        (mcp_error_category_spec(a) == McpErrorCategory::Internal) <==> !(a is Validation
            || a is UnsupportedFormat || a is MissingDependency || a is Security || a is Parsing
            || a is Cancelled),
{
}

/// An error records a cause exactly when it has one: `Io` always (the I/O
/// error itself), each variant with a `source` field exactly when that field
/// is `Some`, and no other variant.
pub proof fn lemma_has_source_by_variant(e: XbergError)
    ensures
        e is Io ==> has_source_spec(e),
        e matches XbergError::Parsing { source, .. } ==> (has_source_spec(e) <==> source is Some),
        e matches XbergError::Ocr { source, .. } ==> (has_source_spec(e) <==> source is Some),
        e matches XbergError::Validation { source, .. } ==> (has_source_spec(e) <==> source is Some),
        e matches XbergError::Cache { source, .. } ==> (has_source_spec(e) <==> source is Some),
        e matches XbergError::ImageProcessing { source, .. } ==> (has_source_spec(e) <==> source is Some),
        e matches XbergError::Serialization { source, .. } ==> (has_source_spec(e) <==> source is Some),
        e matches XbergError::Embedding { source, .. } ==> (has_source_spec(e) <==> source is Some),
        e matches XbergError::Reranking { source, .. } ==> (has_source_spec(e) <==> source is Some),
        e matches XbergError::Transcription { source, .. } ==> (has_source_spec(e) <==> source is Some),
        e matches XbergError::Security { source, .. } ==> (has_source_spec(e) <==> source is Some),
        (e is MissingDependency || e is Plugin || e is LockPoisoned || e is UnsupportedFormat
            || e is Timeout || e is Cancelled || e is Other) ==> !has_source_spec(e),
{
}

} // verus!
