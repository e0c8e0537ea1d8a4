//! The serde_json calls of the manifest tooling.

use vstd::prelude::*;
use vstd::utf8::encode_utf8;

use crate::scoped_json::{pointer_segments, pointers_diverge, segments_diverge};

verus! {

/// What `serde_json::from_slice::<String>` gives for a token: the decoded
/// string when the bytes hold one JSON string literal, nothing otherwise.
pub uninterp spec fn json_deserialized_string(token: Seq<u8>) -> Option<Seq<char>>;

/// What `serde_json::to_string::<String>` gives for a string: its JSON
/// string literal, or nothing when serialization reports an error.
pub uninterp spec fn json_serialized_string(value: Seq<char>) -> Option<Seq<char>>;

/// Decodes one JSON string literal with `serde_json::from_slice::<String>`.
/// Trusted: the result is the named decoding of exactly these bytes; the
/// escape rules themselves are serde_json's and are not restated here.
#[verifier::external_body]
pub(crate) fn decode_json_string(token: &[u8]) -> (res: Option<String>)
    ensures
        match res {
            Some(v) => json_deserialized_string(token@) == Some(v@),
            None => json_deserialized_string(token@) is None,
        },
{
    serde_json::from_slice::<String>(token).ok()
}

/// Serializes a string as a JSON string literal with `serde_json::to_string`.
/// Trusted: the result is the named serialization of exactly this string;
/// serializing a string never fails, and the literal decodes back, with
/// `serde_json::from_slice::<String>`, to the same string.
#[verifier::external_body]
pub(crate) fn encode_json_string(value: &String) -> (res: Option<String>)
    ensures
        res is Some,
        res matches Some(t) ==> json_deserialized_string(encode_utf8(t@)) == Some(value@),
        match res {
            Some(v) => json_serialized_string(value@) == Some(v@),
            None => json_serialized_string(value@) is None,
        },
{
    serde_json::to_string(value).ok()
}

/// A parsed JSON document. Its contents are opaque here.
#[verifier::external_type_specification]
#[verifier::external_body]
pub struct ExJsonValue(serde_json::Value);

/// Whether `serde_json::from_slice::<serde_json::Value>` accepts these bytes
/// as one JSON document.
pub uninterp spec fn json_document_parses(text: Seq<u8>) -> bool;

/// The strings a parsed document holds, each under every JSON pointer by
/// which `Value::pointer` reaches it.
pub uninterp spec fn json_strings(doc: serde_json::Value) -> Map<Seq<char>, Seq<char>>;

/// The string held under a pointer, if any.
pub open spec fn string_in(strings: Map<Seq<char>, Seq<char>>, pointer: Seq<char>) -> Option<
    Seq<char>,
> {
    if strings.dom().contains(pointer) {
        Some(strings[pointer])
    } else {
        None
    }
}

/// Whether the text `serde_json::to_string_pretty` prints for a document is
/// accepted again by `serde_json::from_slice`: it is not for a document
/// nested deeper than the parser's recursion limit.
pub uninterp spec fn json_reparses(doc: serde_json::Value) -> bool;

/// Parses a whole JSON document with `serde_json::from_slice`.
/// Trusted: a document comes back exactly when the named check accepts
/// the bytes; it holds under each pointer the string that reading the same
/// bytes there gives; and, having passed the parser once, its printed text
/// passes it again.
#[verifier::external_body]
pub(crate) fn parse_json_document(text: &[u8]) -> (res: Option<serde_json::Value>)
    ensures
        res is Some <==> json_document_parses(text@),
        res matches Some(d) ==> forall|q: Seq<char>|
            #[trigger] string_in(json_strings(d), q) == json_pointer_string(text@, q),
        res matches Some(d) ==> json_reparses(d),
        res matches Some(d) ==> forall|q: Seq<char>|
            #[trigger] json_object_pointers(d).contains(q) == json_object_at(text@, q),
{
    serde_json::from_slice::<serde_json::Value>(text).ok()
}

/// What `serde_json::from_slice::<serde_json::Value>` of the bytes, then
/// `Value::pointer` at the pointer, give when a string stands there: that
/// string; `None` when the bytes are not JSON, nothing stands at the
/// pointer, or what stands there is not a string.
pub uninterp spec fn json_pointer_string(text: Seq<u8>, pointer: Seq<char>) -> Option<Seq<char>>;

/// Reads the string at a JSON pointer of the document in `text`.
/// Trusted: the result is the named reading of exactly these bytes and this
/// pointer.
#[verifier::external_body]
pub(crate) fn string_at_pointer(text: &[u8], pointer: &str) -> (res: Option<String>)
    ensures
        match res {
            Some(v) => json_pointer_string(text@, pointer@) == Some(v@),
            None => json_pointer_string(text@, pointer@) is None,
        },
{
    match serde_json::from_slice::<serde_json::Value>(text) {
        Ok(doc) => match doc.pointer(pointer) {
            Some(serde_json::Value::String(s)) => Some(s.clone()),
            _ => None,
        },
        Err(_) => None,
    }
}

/// Replaces the value at a JSON pointer by a string, through
/// `serde_json::Value::pointer_mut`; `false` when nothing stands there.
/// Trusted: a pointer that reaches a string reaches a value to replace; a
/// refused replacement leaves the document as it was; after a replacement
/// the pointer reads the new string, and a pointer whose segments part from
/// this one's reads what it read before; putting a string in place of a
/// value never nests the document deeper.
#[verifier::external_body]
pub(crate) fn set_string_at_pointer(doc: &mut serde_json::Value, pointer: &str, replacement: &str) -> (res: bool)
    ensures
        string_in(json_strings(*old(doc)), pointer@) is Some ==> res,
        !res ==> *final(doc) == *old(doc),
        json_reparses(*old(doc)) ==> json_reparses(*final(doc)),
        res ==> string_in(json_strings(*final(doc)), pointer@) == Some(replacement@),
        res ==> forall|q: Seq<char>|
            pointers_diverge(pointer@, q) ==> #[trigger] string_in(json_strings(*final(doc)), q)
                == string_in(json_strings(*old(doc)), q),
{
    match doc.pointer_mut(pointer) {
        Some(slot) => {
            *slot = serde_json::Value::String(replacement.to_string());
            true
        },
        None => false,
    }
}

/// The pointers by which `Value::pointer` reaches an object of a parsed
/// document.
pub uninterp spec fn json_object_pointers(doc: serde_json::Value) -> Set<Seq<char>>;

/// What `serde_json::from_slice::<serde_json::Value>` of the bytes, then
/// `Value::pointer` and `Value::is_object`, give: whether the bytes are JSON
/// and an object stands at the pointer.
pub uninterp spec fn json_object_at(text: Seq<u8>, pointer: Seq<char>) -> bool;

/// Inserts a string member into the object at a JSON pointer, through
/// `Value::pointer_mut`, `Value::as_object_mut` and `Map::insert`; `false`
/// when no object stands there.
/// Trusted: the insert happens exactly when an object stands at the
/// pointer; a refused insert leaves the document as it was; afterwards
/// every pointer that reaches the member reads the new string, a pointer
/// whose segments part from the member's reads what it read before, the
/// object is still an object, and whether an object stands at a pointer
/// whose segments part from the member's does not change; a string member
/// never nests the document deeper.
#[verifier::external_body]
pub(crate) fn insert_string_member(doc: &mut serde_json::Value, object: &str, key: &str, value: &str) -> (res: bool)
    ensures
        res == json_object_pointers(*old(doc)).contains(object@),
        !res ==> *final(doc) == *old(doc),
        json_reparses(*old(doc)) ==> json_reparses(*final(doc)),
        res ==> forall|q: Seq<char>|
            pointer_segments(object@) is Some && pointer_segments(q) == Some(
                pointer_segments(object@).unwrap().push(key@),
            ) ==> #[trigger] string_in(json_strings(*final(doc)), q) == Some(value@),
        res ==> forall|q: Seq<char>|
            pointer_segments(object@) is Some && pointer_segments(q) is Some && segments_diverge(
                pointer_segments(object@).unwrap().push(key@),
                pointer_segments(q).unwrap(),
            ) ==> #[trigger] string_in(json_strings(*final(doc)), q) == string_in(
                json_strings(*old(doc)),
                q,
            ),
        res ==> json_object_pointers(*final(doc)).contains(object@),
        res ==> forall|q: Seq<char>|
            pointer_segments(object@) is Some && pointer_segments(q) is Some && segments_diverge(
                pointer_segments(object@).unwrap().push(key@),
                pointer_segments(q).unwrap(),
            ) ==> (#[trigger] json_object_pointers(*final(doc)).contains(q)
                == json_object_pointers(*old(doc)).contains(q)),
{
    match doc.pointer_mut(object).and_then(serde_json::Value::as_object_mut) {
        Some(map) => {
            map.insert(key.to_string(), serde_json::Value::String(value.to_string()));
            true
        },
        None => false,
    }
}

/// Pretty-prints a document with `serde_json::to_string_pretty`.
/// Trusted: printing a `Value` never fails (its map keys are strings); when
/// the printed text passes the parser again, that text, with the newline a
/// file ends with, holds under each pointer the string the document holds
/// there.
#[verifier::external_body]
pub(crate) fn pretty_json(doc: &serde_json::Value) -> (res: Option<String>)
    ensures
        res is Some,
        res matches Some(t) ==> (json_reparses(*doc) ==> json_document_parses(
            encode_utf8(t@.push('\n')),
        )),
        res matches Some(t) ==> (json_reparses(*doc) ==> forall|q: Seq<char>|
            #[trigger] json_pointer_string(encode_utf8(t@.push('\n')), q) == string_in(
                json_strings(*doc),
                q,
            )),
{
    serde_json::to_string_pretty(doc).ok()
}

/// What `serde_json::from_str::<serde_json::Value>` of a text, indexed by a
/// key and read as a string, gives: `None` when the text is not JSON or the
/// key does not hold a string.
pub uninterp spec fn json_field_string(text: Seq<char>, key: Seq<char>) -> Option<Seq<char>>;

/// Reads the string at `key` of the JSON object in `text`.
/// Trusted: the result is the named reading of exactly this text and key.
#[verifier::external_body]
pub(crate) fn json_string_field(text: &str, key: &str) -> (res: Option<String>)
    ensures
        match res {
            Some(v) => json_field_string(text@, key@) == Some(v@),
            None => json_field_string(text@, key@) is None,
        },
{
    match serde_json::from_str::<serde_json::Value>(text) {
        Ok(v) => match v.get(key) {
            Some(serde_json::Value::String(s)) => Some(s.clone()),
            _ => None,
        },
        Err(_) => None,
    }
}

} // verus!
