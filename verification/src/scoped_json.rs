//! Scoped replacement of one string value inside a JSON document.
//!
//! A JSON pointer names the value; the document is rewritten only inside the
//! byte span of that value, so key order, whitespace and every unrelated
//! member survive byte for byte.

use vstd::prelude::*;
use vstd::utf8::encode_utf8;

use crate::json_codec::{
    decode_json_string,
    encode_json_string,
    json_deserialized_string,
    json_serialized_string,
};
use crate::json_scan::{
    find_member_value_span,
    find_object_scope,
    lemma_member_span_bounds,
    lemma_object_scope_start,
    member_span,
    object_scope,
};
use crate::text::{chars_of, replace_pair, replace_pair_exec, split_chars, split_on, string_from_chars};

verus! {

/// One scoped string replacement: the value at `pointer` must currently
/// decode to `current` and is replaced by `expected`.
#[derive(Debug)]
pub struct ScopedStringUpdate {
    pub pointer: String,
    pub current: String,
    pub expected: String,
}

/// Why a scoped replacement was refused.
#[derive(Debug, Clone, Copy, PartialEq, Eq, Structural)]
pub enum UpdateFailure {
    /// The pointer is neither empty nor starts with `/`.
    InvalidPointer,
    /// The pointer names the whole document.
    EmptyPointer,
    /// The object that should hold the key was not found.
    ParentNotFound,
    /// The key is not a member of its parent object.
    KeyNotFound,
    /// The value at the key is not a string literal.
    NotAString,
    /// The value at the key is not the expected current value.
    CurrentMismatch,
    /// The replacement could not be serialized.
    SerializeFailed,
}

/// A refused scoped replacement; a mismatch carries the value found.
#[derive(Debug)]
pub enum ScopedUpdateError {
    InvalidPointer,
    EmptyPointer,
    ParentNotFound,
    KeyNotFound,
    NotAString,
    CurrentMismatch { found: String },
    SerializeFailed,
}

impl ScopedUpdateError {
    pub open spec fn kind(&self) -> UpdateFailure {
        match self {
            ScopedUpdateError::InvalidPointer => UpdateFailure::InvalidPointer,
            ScopedUpdateError::EmptyPointer => UpdateFailure::EmptyPointer,
            ScopedUpdateError::ParentNotFound => UpdateFailure::ParentNotFound,
            ScopedUpdateError::KeyNotFound => UpdateFailure::KeyNotFound,
            ScopedUpdateError::NotAString => UpdateFailure::NotAString,
            ScopedUpdateError::CurrentMismatch { .. } => UpdateFailure::CurrentMismatch,
            ScopedUpdateError::SerializeFailed => UpdateFailure::SerializeFailed,
        }
    }
}

/// The outcome of a scoped replacement on a document.
pub enum UpdateOutcome {
    Failed(UpdateFailure),
    Rewritten(Seq<u8>),
}

/// One pointer segment with `~1` read as `/` and then `~0` read as `~`.
pub open spec fn decode_segment(seg: Seq<char>) -> Seq<char> {
    replace_pair(replace_pair(seg, '~', '1', '/'), '~', '0', '~')
}

/// The segments of a JSON pointer, or nothing when it is malformed.
pub open spec fn pointer_segments(p: Seq<char>) -> Option<Seq<Seq<char>>> {
    if p.len() == 0 {
        Some(Seq::empty())
    } else if p[0] != '/' {
        None
    } else {
        Some(split_on(p.drop_first(), '/').map_values(|seg: Seq<char>| decode_segment(seg)))
    }
}

/// Whether two segment lists differ at some position both have.
pub open spec fn segments_diverge(a: Seq<Seq<char>>, b: Seq<Seq<char>>) -> bool
    decreases a.len(),
{
    if a.len() == 0 || b.len() == 0 {
        false
    } else if a[0] != b[0] {
        true
    } else {
        segments_diverge(a.drop_first(), b.drop_first())
    }
}

/// Whether two pointers reach disjoint places of any document: both are
/// well formed and their decoded segments differ at some position both have.
pub open spec fn pointers_diverge(p: Seq<char>, q: Seq<char>) -> bool {
    match (pointer_segments(p), pointer_segments(q)) {
        (Some(a), Some(b)) => segments_diverge(a, b),
        _ => false,
    }
}

/// Segment lists that differ at a position both have diverge.
pub proof fn lemma_segments_diverge_at(a: Seq<Seq<char>>, b: Seq<Seq<char>>, i: int)
    requires
        0 <= i < a.len(),
        i < b.len(),
        a[i] != b[i],
    ensures
        segments_diverge(a, b),
    decreases i,
{
    if i > 0 && a[0] == b[0] {
        lemma_segments_diverge_at(a.drop_first(), b.drop_first(), i - 1);
    }
}

/// The document after replacing the span `[start, end)` with `bytes`.
pub open spec fn splice(s: Seq<u8>, start: int, end: int, bytes: Seq<u8>) -> Seq<u8> {
    s.subrange(0, start) + bytes + s.subrange(end, s.len() as int)
}

/// What a scoped replacement does to a document.
pub open spec fn scoped_update(s: Seq<u8>, pointer: Seq<char>, current: Seq<char>, expected: Seq<
    char,
>) -> UpdateOutcome {
    match pointer_segments(pointer) {
        None => UpdateOutcome::Failed(UpdateFailure::InvalidPointer),
        Some(segs) => if segs.len() == 0 {
            UpdateOutcome::Failed(UpdateFailure::EmptyPointer)
        } else {
            match object_scope(s, segs.drop_last()) {
                None => UpdateOutcome::Failed(UpdateFailure::ParentNotFound),
                Some(scope) => match member_span(s, scope, segs.last()) {
                    None => UpdateOutcome::Failed(UpdateFailure::KeyNotFound),
                    Some(span) => match json_deserialized_string(s.subrange(span.0, span.1)) {
                        None => UpdateOutcome::Failed(UpdateFailure::NotAString),
                        Some(found) => if found != current {
                            UpdateOutcome::Failed(UpdateFailure::CurrentMismatch)
                        } else {
                            match json_serialized_string(expected) {
                                None => UpdateOutcome::Failed(UpdateFailure::SerializeFailed),
                                Some(lit) => UpdateOutcome::Rewritten(
                                    splice(s, span.0, span.1, encode_utf8(lit)),
                                ),
                            }
                        },
                    },
                },
            }
        },
    }
}

/// A scoped replacement rewrites only the span of the value it replaces:
/// that span held the current value as a JSON string, it now holds the
/// serialized expected value, and every byte before and after it stays as
/// it was.
pub proof fn law_scoped_update_is_local(
    s: Seq<u8>,
    pointer: Seq<char>,
    current: Seq<char>,
    expected: Seq<char>,
)
    requires
        scoped_update(s, pointer, current, expected) is Rewritten,
    ensures
        json_serialized_string(expected) is Some,
        exists|start: int, end: int|
            0 <= start < end <= s.len() && json_deserialized_string(#[trigger] s.subrange(start, end))
                == Some(current) && scoped_update(s, pointer, current, expected)
                == UpdateOutcome::Rewritten(
                s.subrange(0, start) + encode_utf8(json_serialized_string(expected).unwrap())
                    + s.subrange(end, s.len() as int),
            ),
{
    let segs = pointer_segments(pointer).unwrap();
    let scope = object_scope(s, segs.drop_last()).unwrap();
    lemma_object_scope_start(s, segs.drop_last());
    lemma_member_span_bounds(s, scope, segs.last());
    let span = member_span(s, scope, segs.last()).unwrap();
    assert(json_deserialized_string(s.subrange(span.0, span.1)) == Some(current));
}

/// Splits a JSON pointer into its decoded segments.
pub fn decode_json_pointer(pointer: &str) -> (r: Result<Vec<String>, ScopedUpdateError>)
    ensures
        match pointer_segments(pointer@) {
            None => r matches Err(e) && e.kind() == UpdateFailure::InvalidPointer,
            Some(segs) => r matches Ok(v) && v@.map_values(|x: String| x@) == segs,
        },
{
    let chars = chars_of(pointer);
    if chars.len() == 0 {
        let v: Vec<String> = Vec::new();
        assert(v@.map_values(|x: String| x@) =~= Seq::<Seq<char>>::empty());
        return Ok(v);
    }
    if chars[0] != '/' {
        return Err(ScopedUpdateError::InvalidPointer);
    }
    let rest = &chars.as_slice()[1..chars.len()];
    assert(rest@ =~= pointer@.drop_first());
    let pieces = split_chars(rest, '/');
    let ghost expected = split_on(pointer@.drop_first(), '/').map_values(
        |seg: Seq<char>| decode_segment(seg),
    );
    let mut out: Vec<String> = Vec::new();
    let mut i: usize = 0;
    while i < pieces.len()
        invariant
            i <= pieces@.len(),
            pieces@.len() == split_on(rest@, '/').len(),
            forall|k: int| 0 <= k < pieces@.len() ==> #[trigger] pieces@[k]@ == split_on(rest@, '/')[k],
            rest@ == pointer@.drop_first(),
            expected == split_on(pointer@.drop_first(), '/').map_values(
                |seg: Seq<char>| decode_segment(seg),
            ),
            out@.len() == i,
            forall|k: int| 0 <= k < i ==> #[trigger] out@[k]@ == expected[k],
        decreases pieces@.len() - i,
    {
        let once = replace_pair_exec(pieces[i].as_slice(), '~', '1', '/');
        let twice = replace_pair_exec(once.as_slice(), '~', '0', '~');
        out.push(string_from_chars(twice.as_slice()));
        i += 1;
    }
    assert(out@.map_values(|x: String| x@) =~= expected);
    Ok(out)
}

/// Replaces the string value named by `update.pointer`, leaving every byte
/// outside that value's span as it was.
pub fn apply_scoped_string_update(content: &mut Vec<u8>, update: &ScopedStringUpdate) -> (r: Result<
    (),
    ScopedUpdateError,
>)
    ensures
        match scoped_update(old(content)@, update.pointer@, update.current@, update.expected@) {
            UpdateOutcome::Rewritten(next) => r is Ok && final(content)@ == next,
            UpdateOutcome::Failed(kind) => r matches Err(e) && e.kind() == kind && final(content)@
                == old(content)@,
        },
        r is Ok ==> (json_serialized_string(update.expected@) matches Some(lit)
            && json_deserialized_string(encode_utf8(lit)) == Some(update.expected@)),
        r matches Err(ScopedUpdateError::CurrentMismatch { found }) ==> ({
            let segs = pointer_segments(update.pointer@).unwrap();
            let scope = object_scope(old(content)@, segs.drop_last()).unwrap();
            let span = member_span(old(content)@, scope, segs.last()).unwrap();
            json_deserialized_string(old(content)@.subrange(span.0, span.1)) == Some(found@)
        }),
{
    let segments = match decode_json_pointer(update.pointer.as_str()) {
        Ok(segs) => segs,
        Err(e) => {
            return Err(e);
        },
    };
    let ghost segs = segments@.map_values(|x: String| x@);
    if segments.len() == 0 {
        return Err(ScopedUpdateError::EmptyPointer);
    }
    let last = segments.len() - 1;
    let parent_path = &segments.as_slice()[0..last];
    assert(parent_path@.map_values(|x: String| x@) =~= segs.drop_last());
    let scope = match find_object_scope(content.as_slice(), parent_path) {
        Some(sc) => sc,
        None => {
            return Err(ScopedUpdateError::ParentNotFound);
        },
    };
    let leaf_key = &segments[last];
    assert(leaf_key@ == segs.last());
    let (value_start, value_end) = match find_member_value_span(content.as_slice(), scope, leaf_key) {
        Some(span) => span,
        None => {
            return Err(ScopedUpdateError::KeyNotFound);
        },
    };
    let token = &content.as_slice()[value_start..value_end];
    let parsed_current = match decode_json_string(token) {
        Some(v) => v,
        None => {
            return Err(ScopedUpdateError::NotAString);
        },
    };
    if parsed_current != update.current {
        return Err(ScopedUpdateError::CurrentMismatch { found: parsed_current });
    }
    let replacement = match encode_json_string(&update.expected) {
        Some(lit) => lit,
        None => {
            return Err(ScopedUpdateError::SerializeFailed);
        },
    };
    let replacement_bytes = replacement.as_str().as_bytes();
    let ghost before = content@;
    let mut next: Vec<u8> = Vec::new();
    let mut k: usize = 0;
    while k < value_start
        invariant
            k <= value_start,
            value_start < value_end <= before.len(),
            content@ == before,
            next@ == before.subrange(0, k as int),
        decreases value_start - k,
    {
        next.push(content[k]);
        assert(next@ =~= before.subrange(0, k + 1));
        k += 1;
    }
    let mut m: usize = 0;
    while m < replacement_bytes.len()
        invariant
            m <= replacement_bytes@.len(),
            next@ == before.subrange(0, value_start as int) + replacement_bytes@.take(m as int),
        decreases replacement_bytes@.len() - m,
    {
        next.push(replacement_bytes[m]);
        assert(next@ =~= before.subrange(0, value_start as int) + replacement_bytes@.take(m + 1));
        m += 1;
    }
    assert(replacement_bytes@.take(replacement_bytes@.len() as int) =~= replacement_bytes@);
    let mut t: usize = value_end;
    while t < content.len()
        invariant
            value_end <= t <= before.len(),
            content@ == before,
            next@ == before.subrange(0, value_start as int) + replacement_bytes@ + before.subrange(
                value_end as int,
                t as int,
            ),
        decreases before.len() - t,
    {
        next.push(content[t]);
        assert(next@ =~= before.subrange(0, value_start as int) + replacement_bytes@
            + before.subrange(value_end as int, t + 1));
        t += 1;
    }
    *content = next;
    Ok(())
}

} // verus!
