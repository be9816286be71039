//! Helpers shared by the bridge layer: timeouts, Base64 payloads and JSON error messages.

use vstd::prelude::*;

use base64::engine::general_purpose::{STANDARD, URL_SAFE_NO_PAD};
use base64::Engine as _;

use crate::error::{outcome, ErrorView, StoreKitError};
use crate::text::{concat3, concat4, decimal, has_prefix, starts_with, u64_to_decimal};

verus! {

/// The largest timeout, in milliseconds, that the bridge accepts.
pub open spec fn spec_timeout_ms(millis: u128) -> u32 {
    if millis > u32::MAX as u128 {
        u32::MAX
    } else {
        millis as u32
    }
}

/// Converts a timeout given in whole milliseconds to the bridge's `u32`, saturating at
/// `u32::MAX`.
pub fn duration_to_timeout_ms(millis: u128) -> (r: u32)
    ensures
        r == spec_timeout_ms(millis),
        r as int == if millis > u32::MAX as u128 { u32::MAX as int } else { millis as int },
{
    if millis > u32::MAX as u128 {
        u32::MAX
    } else {
        millis as u32
    }
}

/// What `base64::engine::general_purpose::STANDARD.decode` returns for the bytes of a text: the
/// decoded bytes, or the display text of its `DecodeError`.
pub uninterp spec fn base64_standard(text: Seq<char>) -> Result<Seq<u8>, Seq<char>>;

/// What `base64::engine::general_purpose::URL_SAFE_NO_PAD.decode` returns for the bytes of a
/// text: the decoded bytes, or the display text of its `DecodeError`.
pub uninterp spec fn base64_url_safe_no_pad(text: Seq<char>) -> Result<Seq<u8>, Seq<char>>;

/// Calls `STANDARD.decode` from the `base64` crate; the contract claims that the result is the
/// one named by `base64_standard` for the text, the error turned into its display text.
#[verifier::external_body]
fn standard_decode(value: &str) -> (r: Result<Vec<u8>, String>)
    ensures
        match base64_standard(value@) {
            Ok(bytes) => r matches Ok(v) && v@ == bytes,
            Err(text) => r matches Err(m) && m@ == text,
        },
{
    match STANDARD.decode(value) {
        Ok(bytes) => Ok(bytes),
        Err(error) => Err(error.to_string()),
    }
}

/// Calls `URL_SAFE_NO_PAD.decode` from the `base64` crate; the contract claims that the result
/// is the one named by `base64_url_safe_no_pad` for the text, the error turned into its display
/// text.
#[verifier::external_body]
fn url_safe_no_pad_decode(value: &str) -> (r: Result<Vec<u8>, String>)
    ensures
        match base64_url_safe_no_pad(value@) {
            Ok(bytes) => r matches Ok(v) && v@ == bytes,
            Err(text) => r matches Err(m) && m@ == text,
        },
{
    match URL_SAFE_NO_PAD.decode(value) {
        Ok(bytes) => Ok(bytes),
        Err(error) => Err(error.to_string()),
    }
}

/// What `decode_base64` gives for a value: its bytes or the error.
pub open spec fn spec_decode_base64(value: Seq<char>, context: Seq<char>) -> Result<Seq<u8>, ErrorView> {
    match base64_standard(value) {
        Ok(bytes) => Ok(bytes),
        Err(detail) => Err(
            ErrorView::InvalidArgument("invalid base64 in "@ + context + ": "@ + detail),
        ),
    }
}

/// What `decode_base64_urlsafe` gives for a value: its bytes or the error.
pub open spec fn spec_decode_base64_urlsafe(value: Seq<char>, context: Seq<char>) -> Result<
    Seq<u8>,
    ErrorView,
> {
    match base64_url_safe_no_pad(value) {
        Ok(bytes) => Ok(bytes),
        Err(detail) => Err(
            ErrorView::InvalidArgument("invalid base64url payload in "@ + context + ": "@ + detail),
        ),
    }
}

/// Decodes standard, padded Base64 text; `context` names the value in the error message.
pub fn decode_base64(value: &str, context: &str) -> (r: Result<Vec<u8>, StoreKitError>)
    ensures
        outcome(r, spec_decode_base64(value@, context@)),
{
    match standard_decode(value) {
        Ok(bytes) => Ok(bytes),
        Err(detail) => Err(
            StoreKitError::InvalidArgument(
                concat4("invalid base64 in ", context, ": ", detail.as_str()),
            ),
        ),
    }
}

/// Decodes URL-safe Base64 text without padding; `context` names the value in the error
/// message.
pub fn decode_base64_urlsafe(value: &str, context: &str) -> (r: Result<Vec<u8>, StoreKitError>)
    ensures
        outcome(r, spec_decode_base64_urlsafe(value@, context@)),
{
    match url_safe_no_pad_decode(value) {
        Ok(bytes) => Ok(bytes),
        Err(detail) => Err(
            StoreKitError::InvalidArgument(
                concat4("invalid base64url payload in ", context, ": ", detail.as_str()),
            ),
        ),
    }
}

/// Declares `serde_json::Error`, opaque: the JSON errors that `json_error` reads.
#[verifier::external_type_specification]
#[verifier::external_body]
pub struct ExJsonError(serde_json::Error);

/// The kind of a JSON error, as `serde_json::error::Category` names it.
#[derive(Debug, Clone, Copy, PartialEq, Eq, Structural)]
pub enum JsonErrorCategory {
    /// Reading or writing bytes failed.
    Io,
    /// The input is not valid JSON.
    Syntax,
    /// The input is valid JSON of the wrong shape.
    Data,
    /// The input ended too early.
    Eof,
}

impl JsonErrorCategory {
    /// The name of the category.
    pub open spec fn spec_name(self) -> Seq<char> {
        match self {
            JsonErrorCategory::Io => "Io"@,
            JsonErrorCategory::Syntax => "Syntax"@,
            JsonErrorCategory::Data => "Data"@,
            JsonErrorCategory::Eof => "Eof"@,
        }
    }

    /// Returns the name of the category.
    pub fn name(&self) -> (r: &'static str)
        ensures
            r@ == self.spec_name(),
    {
        match self {
            JsonErrorCategory::Io => "Io",
            JsonErrorCategory::Syntax => "Syntax",
            JsonErrorCategory::Data => "Data",
            JsonErrorCategory::Eof => "Eof",
        }
    }
}

/// The text that `serde_json::Error`'s `Display` writes for an error that is not an I/O error.
/// An I/O error writes the text of its `std::io::Error`, which depends on the C library, the
/// locale or a caller's `Display`, so no name is given to it.
pub uninterp spec fn json_error_text(error: serde_json::Error) -> Seq<char>;

/// The category that `serde_json::Error::classify` gives for the error.
pub uninterp spec fn json_error_category_of(error: serde_json::Error) -> JsonErrorCategory;

/// The line that `serde_json::Error::line` gives for the error.
pub uninterp spec fn json_error_line_of(error: serde_json::Error) -> usize;

/// The column that `serde_json::Error::column` gives for the error.
pub uninterp spec fn json_error_column_of(error: serde_json::Error) -> usize;

/// Calls `serde_json::Error`'s `Display`; the contract claims that the text is the one named by
/// `json_error_text` for an error that is not an I/O error. Nothing is claimed of the text of an
/// I/O error, which comes from the `std::io::Error` inside it.
#[verifier::external_body]
fn json_error_message(error: &serde_json::Error) -> (r: String)
    ensures
        json_error_category_of(*error) != JsonErrorCategory::Io ==> r@ == json_error_text(*error),
{
    error.to_string()
}

/// Calls `serde_json::Error::classify` and names its category; the contract claims that it is
/// the one named by `json_error_category_of` for the error.
#[verifier::external_body]
fn json_error_category(error: &serde_json::Error) -> (r: JsonErrorCategory)
    ensures
        r == json_error_category_of(*error),
{
    match error.classify() {
        serde_json::error::Category::Io => JsonErrorCategory::Io,
        serde_json::error::Category::Syntax => JsonErrorCategory::Syntax,
        serde_json::error::Category::Data => JsonErrorCategory::Data,
        serde_json::error::Category::Eof => JsonErrorCategory::Eof,
    }
}

/// Calls `serde_json::Error::line`; the contract claims that it is the line named by
/// `json_error_line_of` for the error.
#[verifier::external_body]
fn json_error_line(error: &serde_json::Error) -> (r: usize)
    ensures
        r == json_error_line_of(*error),
{
    error.line()
}

/// Calls `serde_json::Error::column`; the contract claims that it is the column named by
/// `json_error_column_of` for the error.
#[verifier::external_body]
fn json_error_column(error: &serde_json::Error) -> (r: usize)
    ensures
        r == json_error_column_of(*error),
{
    error.column()
}

/// The detail that a JSON error message keeps: the parser's message when it names a missing or
/// duplicate field, and otherwise only the category and position, so that no payload value is
/// echoed.
pub open spec fn json_error_detail(
    message: Seq<char>,
    category: JsonErrorCategory,
    line: nat,
    column: nat,
) -> Seq<char> {
    if has_prefix(message, "missing field"@) || has_prefix(message, "duplicate field"@) {
        message
    } else {
        category.spec_name() + " error at line "@ + decimal(line as int) + " column "@ + decimal(
            column as int,
        )
    }
}

/// The error that `json_error_from_parts` builds.
pub open spec fn spec_json_error(
    message: Seq<char>,
    category: JsonErrorCategory,
    line: nat,
    column: nat,
    context: Seq<char>,
) -> ErrorView {
    ErrorView::InvalidArgument(
        "failed to parse "@ + context + " JSON: "@ + json_error_detail(message, category, line, column),
    )
}

/// A JSON error does not echo the parser's message unless that message names a missing or
/// duplicate field: any two other messages, at the same category and position, give the same
/// error.
pub proof fn json_error_hides_message(
    first: Seq<char>,
    second: Seq<char>,
    category: JsonErrorCategory,
    line: nat,
    column: nat,
    context: Seq<char>,
)
    requires
        !has_prefix(first, "missing field"@),
        !has_prefix(first, "duplicate field"@),
        !has_prefix(second, "missing field"@),
        !has_prefix(second, "duplicate field"@),
    ensures
        spec_json_error(first, category, line, column, context) == spec_json_error(
            second,
            category,
            line,
            column,
            context,
        ),
{
}

/// A JSON error that names a missing or duplicate field keeps the parser's message whole, after
/// the context.
pub proof fn json_error_keeps_field_names(
    message: Seq<char>,
    category: JsonErrorCategory,
    line: nat,
    column: nat,
    context: Seq<char>,
)
    requires
        has_prefix(message, "missing field"@) || has_prefix(message, "duplicate field"@),
    ensures
        spec_json_error(message, category, line, column, context) == ErrorView::InvalidArgument(
            "failed to parse "@ + context + " JSON: "@ + message,
        ),
{
}

/// Builds the error for a JSON payload that did not parse, from the parser's message, category
/// and position.
pub fn json_error_from_parts(
    message: &str,
    category: JsonErrorCategory,
    line: usize,
    column: usize,
    context: &str,
) -> (r: StoreKitError)
    ensures
        r@ == spec_json_error(message@, category, line as nat, column as nat, context@),
{
    let detail = if starts_with(message, "missing field") || starts_with(message, "duplicate field") {
        crate::text::owned(message)
    } else {
        let line_text = u64_to_decimal(line as u64);
        let column_text = u64_to_decimal(column as u64);
        let mut out = crate::text::owned(category.name());
        out.append(" error at line ");
        out.append(line_text.as_str());
        out.append(" column ");
        out.append(column_text.as_str());
        out
    };
    StoreKitError::InvalidArgument(concat3("failed to parse ", context, " JSON: ").concat(detail.as_str()))
}

/// The error that `json_error` builds for a parser error that is not an I/O error.
pub open spec fn spec_json_error_of(error: serde_json::Error, context: Seq<char>) -> ErrorView {
    spec_json_error(
        json_error_text(error),
        json_error_category_of(error),
        json_error_line_of(error) as nat,
        json_error_column_of(error) as nat,
        context,
    )
}

/// What `json_error` builds for a parser error never holds the parser's message unless that
/// message names a missing or duplicate field: it is then made of the context, the category and
/// the position alone, so two such parser errors at the same category and position give the
/// same error. I/O errors are left out: their message is not named.
pub proof fn parser_errors_do_not_echo_payload_values(
    first: serde_json::Error,
    second: serde_json::Error,
    context: Seq<char>,
)
    requires
        !has_prefix(json_error_text(first), "missing field"@),
        !has_prefix(json_error_text(first), "duplicate field"@),
        !has_prefix(json_error_text(second), "missing field"@),
        !has_prefix(json_error_text(second), "duplicate field"@),
        json_error_category_of(first) != JsonErrorCategory::Io,
        json_error_category_of(first) == json_error_category_of(second),
        json_error_line_of(first) == json_error_line_of(second),
        json_error_column_of(first) == json_error_column_of(second),
    ensures
        spec_json_error_of(first, context) == spec_json_error_of(second, context),
        spec_json_error_of(first, context) == ErrorView::InvalidArgument(
            "failed to parse "@ + context + " JSON: "@ + json_error_category_of(first).spec_name()
                + " error at line "@ + decimal(json_error_line_of(first) as int) + " column "@
                + decimal(json_error_column_of(first) as int),
        ),
{
    let head = "failed to parse "@ + context + " JSON: "@;
    let detail = json_error_category_of(first).spec_name() + " error at line "@ + decimal(
        json_error_line_of(first) as int,
    ) + " column "@ + decimal(json_error_column_of(first) as int);
    assert(head + detail =~= "failed to parse "@ + context + " JSON: "@ + json_error_category_of(
        first,
    ).spec_name() + " error at line "@ + decimal(json_error_line_of(first) as int) + " column "@
        + decimal(json_error_column_of(first) as int));
}

/// Builds the error for a JSON payload that did not parse, from the parser's message, category
/// and position. For an I/O error the parser's message is not named, and only what holds
/// whatever it says is stated.
pub fn json_error(error: &serde_json::Error, context: &str) -> (r: StoreKitError)
    ensures
        json_error_category_of(*error) != JsonErrorCategory::Io ==> r@ == spec_json_error_of(
            *error,
            context@,
        ),
        json_error_category_of(*error) == JsonErrorCategory::Io ==> exists|message: Seq<char>|
            r@ == spec_json_error(
                message,
                JsonErrorCategory::Io,
                json_error_line_of(*error) as nat,
                json_error_column_of(*error) as nat,
                context@,
            ),
{
    let message = json_error_message(error);
    let category = json_error_category(error);
    let line = json_error_line(error);
    let column = json_error_column(error);
    json_error_from_parts(message.as_str(), category, line, column, context)
}

} // verus!

verus! {

/// Converts every element of a list with `f`, keeping their order.
pub fn convert_all<P, R, F: Fn(P) -> R>(items: Vec<P>, f: F) -> (r: Vec<R>)
    requires
        forall|i: int| 0 <= i < items@.len() ==> call_requires(f, (#[trigger] items@[i],)),
    ensures
        r@.len() == items@.len(),
        forall|i: int| 0 <= i < items@.len() ==> call_ensures(f, (#[trigger] items@[i],), r@[i]),
{
    let ghost all = items@;
    let mut out: Vec<R> = Vec::new();
    for item in it: items
        invariant
            it.seq() == all,
            forall|i: int| 0 <= i < all.len() ==> call_requires(f, (#[trigger] all[i],)),
            out@.len() == it.index(),
            forall|i: int| 0 <= i < out@.len() ==> call_ensures(f, (#[trigger] all[i],), out@[i]),
    {
        let ghost k = it.index() as int;
        let converted = f(item);
        out.push(converted);
        proof {
            assert(out@[k] == converted);
        }
    }
    out
}

} // verus!
