//! The fallback decode path: the listing document already converted to
//! JSON (by a separate conversion utility outside the library) is parsed
//! by `serde_json`, reduced variant by variant to [`StructValue`], and
//! decoded by the same verified decoder as the native path, so both paths
//! yield identical records for the same logical document. What the parser
//! yields for a given text is a function of that text alone, so it carries
//! a name, [`json_tree_of`]; the contracts here are exact up to that name.

use vstd::prelude::*;
use vstd::string::StringExecFns;

use crate::catalog::ApfsContainer;
use crate::errors::OpError;
use crate::errors::OpErrorView;
use crate::structured::decode_listing;
use crate::structured::decode_listing_spec;
use crate::structured::StructValue;

verus! {

/// The tree that the JSON parser yields for `data`, or nothing when the
/// text does not parse. A parse is a function of the input text alone.
/// Nothing is assumed of the tree's shape; the verified decoder checks it.
pub uninterp spec fn json_tree_of(data: Seq<char>) -> Option<StructValue>;

/// Relies on serde_json::Value's variants, moved field by field into the
/// plain tree: null stays explicit, strings stay text, arrays and objects
/// keep their entries and their order, numbers and booleans become opaque
/// scalars.
#[verifier::external_body]
fn json_reduce(v: &serde_json::Value) -> StructValue {
    match v {
        serde_json::Value::Null => StructValue::Null,
        serde_json::Value::String(s) => StructValue::Text(s.clone()),
        serde_json::Value::Array(items) => StructValue::Array(
            items.iter().map(json_reduce).collect(),
        ),
        serde_json::Value::Object(m) => StructValue::Dict(
            m.iter().map(|(k, x)| (k.clone(), json_reduce(x))).collect(),
        ),
        _ => StructValue::Scalar,
    }
}

/// Relies on serde_json::from_str: parses a JSON document, failing on
/// malformed input, the same text always yielding the same outcome; the
/// parsed tree is reduced to [`StructValue`] by [`json_reduce`].
#[verifier::external_body]
fn json_parse(data: &str) -> (r: Result<StructValue, serde_json::Error>)
    ensures
        r matches Ok(t) ==> json_tree_of(data@) == Some(t),
        r matches Err(_) ==> json_tree_of(data@) is None,
{
    serde_json::from_str::<serde_json::Value>(data).map(|v| json_reduce(&v))
}

/// Relies on serde_json::Error's Display implementation for diagnostic
/// text.
#[verifier::external_body]
fn json_error_message(e: &serde_json::Error) -> (r: String) {
    format!("{}", e)
}

/// Parse a JSON listing document into the plain tree the verified decoder
/// reads: exactly the parser's tree on success, and a decoding error
/// exactly when the text does not parse.
pub fn parse_listing_tree_json(data: &str) -> (r: Result<StructValue, OpError>)
    ensures
        r matches Ok(t) ==> json_tree_of(data@) == Some(t),
        r matches Err(e) ==> json_tree_of(data@) is None && e@ is Decode,
{
    match json_parse(data) {
        Ok(tree) => Ok(tree),
        Err(e) => Err(OpError::Decode { message: json_error_message(&e) }),
    }
}

/// Parse the listing output already converted to JSON into catalog
/// records: the parser's tree, decoded by the verified schema decoder.
/// Success and its value are fixed up to the parser's name: a well-formed
/// listing decodes to its records field by field, and malformed text or a
/// tree of the wrong shape is a decoding error, never a silently empty
/// catalog.
pub fn parse_apfs_json(data: &str) -> (r: Result<Vec<ApfsContainer>, OpError>)
    ensures
        match json_tree_of(data@) {
            Some(t) => match decode_listing_spec(t) {
                Some(views) => (r matches Ok(out) && out.deep_view() == views),
                None => (r matches Err(e) && e@ is Decode),
            },
            None => (r matches Err(e) && e@ is Decode),
        },
{
    let tree = parse_listing_tree_json(data)?;
    decode_listing(&tree)
}

} // verus!
