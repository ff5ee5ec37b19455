//! Decoding an inbound JSON body into an archive item.
//!
//! General JSON parsing is serde_json's work and stands behind trusted
//! declarations. Its verdict on a text, and the string fields it reads out of
//! the text's top-level object, depend on the text alone, so both carry names
//! here ([`json_parses`], [`json_field_string`]); everything the record
//! grammar decides — which fields must be present and which category labels
//! are recognized — is verified in [`crate::item::from_fields`], and
//! [`decode_archive_item`]'s contract fixes its whole result over the names.

use vstd::prelude::*;

use crate::item::{decode_result_view, from_fields, opt_view, spec_decode, ArchiveItem,
    ArchiveItemView, DecodeError};

verus! {

/// serde_json's parsed JSON document, opaque to the verifier.
#[verifier::external_type_specification]
#[verifier::external_body]
pub struct ExValue(serde_json::Value);

/// Whether serde_json parses the text as a JSON document: the verdict of
/// serde_json::from_str for `serde_json::Value`, a function of the text alone.
pub uninterp spec fn json_parses(s: Seq<char>) -> bool;

/// The string content of the named field of the JSON text's top-level
/// object, as serde_json reads it: `None` when the text's document is not an
/// object, lacks the field, or holds it with a non-string value.
pub uninterp spec fn json_field_string(s: Seq<char>, name: Seq<char>) -> Option<Seq<char>>;

/// The string content of the named field of a parsed document, as
/// serde_json's accessors hand it out.
pub uninterp spec fn value_field_string(v: serde_json::Value, name: Seq<char>) -> Option<
    Seq<char>,
>;

/// Relies on serde_json::from_str for `serde_json::Value`: parses the text as
/// general JSON, `None` exactly when the text is not JSON — in particular for
/// the empty text — and the parsed document's fields are read from the text
/// alone.
#[verifier::external_body]
fn parse_json(s: &str) -> (r: Option<serde_json::Value>)
    ensures
        r is Some <==> json_parses(s@),
        s@.len() == 0 ==> r is None,
        forall|name: Seq<char>|
            r is Some ==> #[trigger] value_field_string(r->0, name) == json_field_string(
                s@,
                name,
            ),
{
    serde_json::from_str::<serde_json::Value>(s).ok()
}

/// Relies on serde_json::Value::get with a string index and Value::as_str:
/// the named field's string content, `None` for a non-object, a missing key,
/// or a non-string field.
#[verifier::external_body]
fn string_field(v: &serde_json::Value, name: &str) -> (r: Option<String>)
    ensures
        opt_view(r) == value_field_string(*v, name@),
{
    v.get(name).and_then(|f| f.as_str()).map(|s| s.to_owned())
}

/// What decoding a whole request body yields: the failure for a text that is
/// not JSON, and otherwise exactly what the record grammar makes of the three
/// wire fields read from the text.
pub open spec fn spec_decode_text(s: Seq<char>) -> Result<ArchiveItemView, DecodeError> {
    if json_parses(s) {
        spec_decode(
            json_field_string(s, "category"@),
            json_field_string(s, "itemUrl"@),
            json_field_string(s, "title"@),
        )
    } else {
        Result::Err(DecodeError::MalformedJson)
    }
}

/// Decodes a request body into an [`ArchiveItem`]: the body must be JSON with
/// string fields `category`, `itemUrl` and `title`, and the category must be
/// one of the recognized labels. The result is exactly
/// [`spec_decode_text`] of the body; an empty body never decodes.
pub fn decode_archive_item(body: &str) -> (r: Result<ArchiveItem, DecodeError>)
    ensures
        decode_result_view(r) == spec_decode_text(body@),
        body@.len() == 0 ==> r == Result::<ArchiveItem, DecodeError>::Err(
            DecodeError::MalformedJson,
        ),
{
    let parsed = match parse_json(body) {
        Option::Some(v) => v,
        Option::None => {
            return Result::Err(DecodeError::MalformedJson);
        },
    };
    let category = string_field(&parsed, "category");
    let url = string_field(&parsed, "itemUrl");
    let title = string_field(&parsed, "title");
    from_fields(category, url, title)
}

} // verus!
