//! The native property-list decode path: the `plist` crate parses the
//! document, the parsed tree is reduced variant by variant to
//! [`StructValue`], and the verified decoder in [`crate::structured`] does
//! the rest. What the parser yields for a given text is a function of that
//! text alone, so it carries a name, [`plist_tree_of`]; the contracts here
//! are exact up to that name.

use vstd::prelude::*;
use vstd::string::StringExecFns;

use crate::catalog::ApfsContainer;
use crate::errors::OpError;
use crate::errors::OpErrorView;
use crate::structured::decode_listing;
use crate::structured::decode_listing_spec;
use crate::structured::StructValue;

verus! {

/// The tree that the property-list parser yields for `data`, or nothing
/// when the text does not parse. A parse is a function of the input text
/// alone. Nothing is assumed of the tree's shape; the verified decoder
/// checks it.
pub uninterp spec fn plist_tree_of(data: Seq<char>) -> Option<StructValue>;

/// Relies on plist::Value's variants, moved field by field into the plain
/// tree: strings stay text, arrays and dictionaries keep their entries and
/// their order, every other leaf becomes an opaque scalar.
#[verifier::external_body]
fn plist_reduce(v: &plist::Value) -> StructValue {
    match v {
        plist::Value::String(s) => StructValue::Text(s.clone()),
        plist::Value::Array(items) => StructValue::Array(
            items.iter().map(plist_reduce).collect(),
        ),
        plist::Value::Dictionary(d) => StructValue::Dict(
            d.iter().map(|(k, x)| (k.to_owned(), plist_reduce(x))).collect(),
        ),
        _ => StructValue::Scalar,
    }
}

/// Relies on plist::Value::from_reader: parses a property list of any
/// encoding, failing on malformed input, the same text always yielding the
/// same outcome; the parsed tree is reduced to [`StructValue`] by
/// [`plist_reduce`].
#[verifier::external_body]
fn plist_parse(data: &str) -> (r: Result<StructValue, plist::Error>)
    ensures
        r matches Ok(t) ==> plist_tree_of(data@) == Some(t),
        r matches Err(_) ==> plist_tree_of(data@) is None,
{
    plist::Value::from_reader(std::io::Cursor::new(data.as_bytes())).map(|v| plist_reduce(&v))
}

/// Relies on plist::Error's Display implementation for diagnostic text.
#[verifier::external_body]
fn plist_error_message(e: &plist::Error) -> (r: String) {
    format!("{}", e)
}

/// Parse a property-list listing document into the plain tree the verified
/// decoder reads: exactly the parser's tree on success, and a decoding
/// error exactly when the text does not parse.
pub fn parse_listing_tree(data: &str) -> (r: Result<StructValue, OpError>)
    ensures
        r matches Ok(t) ==> plist_tree_of(data@) == Some(t),
        r matches Err(e) ==> plist_tree_of(data@) is None && e@ is Decode,
{
    match plist_parse(data) {
        Ok(tree) => Ok(tree),
        Err(e) => Err(OpError::Decode { message: plist_error_message(&e) }),
    }
}

/// Parse the volume manager's property-list listing output into catalog
/// records: the parser's tree, decoded by the verified schema decoder.
/// Success and its value are fixed up to the parser's name: a well-formed
/// listing decodes to its records field by field, and malformed text or a
/// tree of the wrong shape is a decoding error, never a silently empty
/// catalog.
pub fn parse_apfs_plist(data: &str) -> (r: Result<Vec<ApfsContainer>, OpError>)
    ensures
        match plist_tree_of(data@) {
            Some(t) => match decode_listing_spec(t) {
                Some(views) => (r matches Ok(out) && out.deep_view() == views),
                None => (r matches Err(e) && e@ is Decode),
            },
            None => (r matches Err(e) && e@ is Decode),
        },
{
    let tree = parse_listing_tree(data)?;
    decode_listing(&tree)
}

} // verus!
