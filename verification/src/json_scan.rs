//! Span-level scanning of JSON documents held as bytes.
//!
//! The scanner never builds a tree: it locates the byte span of a value so
//! that a single scoped value can be replaced while every other byte of the
//! document is kept exactly as it was.

use vstd::prelude::*;

use crate::json_codec::{decode_json_string, json_deserialized_string};

verus! {

pub const QUOTE: u8 = 34;
pub const BACKSLASH: u8 = 92;
pub const OPEN_BRACE: u8 = 123;
pub const CLOSE_BRACE: u8 = 125;
pub const OPEN_BRACKET: u8 = 91;
pub const CLOSE_BRACKET: u8 = 93;
pub const COLON: u8 = 58;
pub const COMMA: u8 = 44;
pub const MINUS: u8 = 45;
pub const PLUS: u8 = 43;
pub const DOT: u8 = 46;
pub const DIGIT_ZERO: u8 = 48;
pub const DIGIT_ONE: u8 = 49;
pub const DIGIT_NINE: u8 = 57;
pub const LOWER_E: u8 = 101;
pub const UPPER_E: u8 = 69;
pub const LOWER_T: u8 = 116;
pub const LOWER_F: u8 = 102;
pub const LOWER_N: u8 = 110;

/// ASCII whitespace as `u8::is_ascii_whitespace` defines it.
pub open spec fn is_ws(b: u8) -> bool {
    b == 32 || b == 9 || b == 10 || b == 12 || b == 13
}

pub open spec fn is_digit(b: u8) -> bool {
    DIGIT_ZERO <= b <= DIGIT_NINE
}

/// The byte at `i`, if `i` is inside the document.
pub open spec fn byte_at(s: Seq<u8>, i: int) -> Option<u8> {
    if 0 <= i < s.len() {
        Some(s[i])
    } else {
        None
    }
}

/// The first index at or after `i` that does not hold whitespace.
pub open spec fn ws_end(s: Seq<u8>, i: int) -> int
    decreases s.len() - i,
{
    if 0 <= i < s.len() && is_ws(s[i]) {
        ws_end(s, i + 1)
    } else {
        i
    }
}

/// The first index at or after `i` that does not hold a decimal digit.
pub open spec fn digits_end(s: Seq<u8>, i: int) -> int
    decreases s.len() - i,
{
    if 0 <= i < s.len() && is_digit(s[i]) {
        digits_end(s, i + 1)
    } else {
        i
    }
}

/// Scans the body of a string literal from `i` (just after an opening
/// quote): the index just past the closing quote, where a backslash always
/// consumes the byte after it.
pub open spec fn string_body_end(s: Seq<u8>, i: int) -> Option<int>
    decreases s.len() - i,
{
    if i < 0 || i >= s.len() {
        None
    } else if s[i] == QUOTE {
        Some(i + 1)
    } else if s[i] == BACKSLASH {
        if i + 2 <= s.len() {
            string_body_end(s, i + 2)
        } else {
            None
        }
    } else {
        string_body_end(s, i + 1)
    }
}

/// End of the string literal that starts at `start`.
pub open spec fn string_end(s: Seq<u8>, start: int) -> Option<int> {
    if byte_at(s, start) == Some(QUOTE) {
        string_body_end(s, start + 1)
    } else {
        None
    }
}

/// Scans a bracketed value from `i` with `depth` brackets open: string
/// literals are skipped whole, `open` and `close` move the depth, and the
/// value ends just past the `close` that brings the depth back to zero.
pub open spec fn balanced_scan(s: Seq<u8>, i: int, depth: int, open: u8, close: u8) -> Option<int>
    decreases s.len() - i,
{
    if i < 0 || i >= s.len() {
        None
    } else if s[i] == QUOTE {
        match string_end(s, i) {
            None => None,
            Some(j) => if i < j <= s.len() {
                balanced_scan(s, j, depth, open, close)
            } else {
                None
            },
        }
    } else if s[i] == open {
        balanced_scan(s, i + 1, depth + 1, open, close)
    } else if s[i] == close {
        if depth - 1 == 0 {
            Some(i + 1)
        } else {
            balanced_scan(s, i + 1, depth - 1, open, close)
        }
    } else {
        balanced_scan(s, i + 1, depth, open, close)
    }
}

/// End of the bracketed value that starts at `start`.
pub open spec fn balanced_end(s: Seq<u8>, start: int, open: u8, close: u8) -> Option<int> {
    if byte_at(s, start) == Some(open) {
        balanced_scan(s, start, 0, open, close)
    } else {
        None
    }
}

/// End of the number that starts at `start`: an optional minus, an integer
/// part without leading zeros, an optional fraction and an optional exponent.
pub open spec fn number_end(s: Seq<u8>, start: int) -> Option<int> {
    let i1 = if byte_at(s, start) == Some(MINUS) {
        start + 1
    } else {
        start
    };
    let i2 = match byte_at(s, i1) {
        Some(b) => if b == DIGIT_ZERO {
            Some(i1 + 1)
        } else if DIGIT_ONE <= b <= DIGIT_NINE {
            Some(digits_end(s, i1 + 1))
        } else {
            None
        },
        None => None,
    };
    match i2 {
        None => None,
        Some(i2) => {
            let i3 = if byte_at(s, i2) == Some(DOT) {
                match byte_at(s, i2 + 1) {
                    Some(b) => if is_digit(b) {
                        Some(digits_end(s, i2 + 1))
                    } else {
                        None
                    },
                    None => None,
                }
            } else {
                Some(i2)
            };
            match i3 {
                None => None,
                Some(i3) => {
                    if byte_at(s, i3) == Some(LOWER_E) || byte_at(s, i3) == Some(UPPER_E) {
                        let i4 = if byte_at(s, i3 + 1) == Some(PLUS) || byte_at(s, i3 + 1)
                            == Some(MINUS) {
                            i3 + 2
                        } else {
                            i3 + 1
                        };
                        match byte_at(s, i4) {
                            Some(b) => if is_digit(b) {
                                Some(digits_end(s, i4))
                            } else {
                                None
                            },
                            None => None,
                        }
                    } else {
                        Some(i3)
                    }
                },
            }
        },
    }
}

/// An executable index that agrees with a spec index.
pub open spec fn same_index(e: Option<usize>, o: Option<int>) -> bool {
    match (e, o) {
        (Some(j), Some(k)) => j == k,
        (None, None) => true,
        _ => false,
    }
}

/// Whether the bytes from `start` spell `word`.
pub open spec fn word_at(s: Seq<u8>, start: int, word: Seq<u8>) -> bool {
    0 <= start && start + word.len() <= s.len() && s.subrange(start, start + word.len()) == word
}

pub open spec fn true_bytes() -> Seq<u8> {
    seq![116u8, 114u8, 117u8, 101u8]
}

pub open spec fn false_bytes() -> Seq<u8> {
    seq![102u8, 97u8, 108u8, 115u8, 101u8]
}

pub open spec fn null_bytes() -> Seq<u8> {
    seq![110u8, 117u8, 108u8, 108u8]
}

/// End of the JSON value that starts at `start`, chosen by its first byte.
pub open spec fn value_end(s: Seq<u8>, start: int) -> Option<int> {
    match byte_at(s, start) {
        None => None,
        Some(ch) => if ch == QUOTE {
            string_end(s, start)
        } else if ch == OPEN_BRACE {
            balanced_end(s, start, OPEN_BRACE, CLOSE_BRACE)
        } else if ch == OPEN_BRACKET {
            balanced_end(s, start, OPEN_BRACKET, CLOSE_BRACKET)
        } else if ch == LOWER_T {
            if word_at(s, start, true_bytes()) {
                Some(start + 4)
            } else {
                None
            }
        } else if ch == LOWER_F {
            if word_at(s, start, false_bytes()) {
                Some(start + 5)
            } else {
                None
            }
        } else if ch == LOWER_N {
            if word_at(s, start, null_bytes()) {
                Some(start + 4)
            } else {
                None
            }
        } else if ch == MINUS || is_digit(ch) {
            number_end(s, start)
        } else {
            None
        },
    }
}


/// Walks the members of an object from `idx`, which points at a key: the
/// span of the value of the first member whose decoded key is `key`.
pub open spec fn member_walk(s: Seq<u8>, idx: int, key: Seq<char>) -> Option<(int, int)>
    decreases s.len() - idx,
{
    if byte_at(s, idx) != Some(QUOTE) {
        None
    } else {
        match string_end(s, idx) {
            None => None,
            Some(key_end) => if !(idx < key_end <= s.len()) {
                None
            } else {
                match json_deserialized_string(s.subrange(idx, key_end)) {
                    None => None,
                    Some(k) => {
                        let colon = ws_end(s, key_end);
                        if byte_at(s, colon) != Some(COLON) {
                            None
                        } else {
                            let vs = ws_end(s, colon + 1);
                            match value_end(s, vs) {
                                None => None,
                                Some(ve) => if k == key {
                                    Some((vs, ve))
                                } else {
                                    let n = ws_end(s, ve);
                                    if byte_at(s, n) == Some(COMMA) {
                                        let next = ws_end(s, n + 1);
                                        if idx < next <= s.len() {
                                            member_walk(s, next, key)
                                        } else {
                                            None
                                        }
                                    } else {
                                        None
                                    }
                                },
                            }
                        }
                    },
                }
            },
        }
    }
}

/// The span of the value of member `key` in the object whose span is `scope`.
#[verifier::opaque]
pub open spec fn member_span(s: Seq<u8>, scope: (int, int), key: Seq<char>) -> Option<(int, int)> {
    let (start, end) = scope;
    if byte_at(s, start) != Some(OPEN_BRACE) {
        None
    } else {
        let idx = ws_end(s, start + 1);
        if idx >= end {
            None
        } else if byte_at(s, idx) == Some(CLOSE_BRACE) {
            None
        } else {
            member_walk(s, idx, key)
        }
    }
}

/// The first index holding byte `b`.
pub open spec fn first_index_of(s: Seq<u8>, b: u8) -> Option<int> {
    if exists|k: int| 0 <= k < s.len() && s[k] == b {
        Some(choose|k: int| 0 <= k < s.len() && s[k] == b && forall|m: int| 0 <= m < k ==> s[m] != b)
    } else {
        None
    }
}

/// The span of the document's root object, when the whole document is one
/// object surrounded only by whitespace.
#[verifier::opaque]
pub open spec fn root_scope(s: Seq<u8>) -> Option<(int, int)> {
    let idx = ws_end(s, 0);
    if byte_at(s, idx) != Some(OPEN_BRACE) {
        None
    } else {
        match value_end(s, idx) {
            None => None,
            Some(end) => if ws_end(s, end) != s.len() {
                None
            } else {
                match first_index_of(s, OPEN_BRACE) {
                    None => None,
                    Some(first) => Some((first, end)),
                }
            },
        }
    }
}

/// The span of the object reached from the root by following `path`, each
/// step entering the value of the named member, which must be an object.
pub open spec fn object_scope(s: Seq<u8>, path: Seq<Seq<char>>) -> Option<(int, int)>
    decreases path.len(),
{
    if path.len() == 0 {
        root_scope(s)
    } else {
        match object_scope(s, path.drop_last()) {
            None => None,
            Some(scope) => match member_span(s, scope, path.last()) {
                None => None,
                Some(span) => if byte_at(s, span.0) == Some(OPEN_BRACE) {
                    Some(span)
                } else {
                    None
                },
            },
        }
    }
}

/// An executable span that agrees with a spec span.
pub open spec fn same_span(e: Option<(usize, usize)>, o: Option<(int, int)>) -> bool {
    match (e, o) {
        (Some(a), Some(b)) => a.0 == b.0 && a.1 == b.1,
        (None, None) => true,
        _ => false,
    }
}

// ---------------------------------------------------------------------------
// Lemmas on the scanners
// ---------------------------------------------------------------------------

/// Once a path prefix leads nowhere, every longer prefix leads nowhere.
pub proof fn lemma_object_scope_none_extends(s: Seq<u8>, path: Seq<Seq<char>>, n: int)
    requires
        0 <= n <= path.len(),
        object_scope(s, path.take(n)) is None,
    ensures
        object_scope(s, path) is None,
    decreases path.len() - n,
{
    if n < path.len() {
        assert(path.take(n + 1).drop_last() =~= path.take(n));
        lemma_object_scope_none_extends(s, path, n + 1);
    } else {
        assert(path.take(n) =~= path);
    }
}

pub proof fn lemma_ws_end_bounds(s: Seq<u8>, i: int)
    requires
        0 <= i,
    ensures
        i <= ws_end(s, i),
        i <= s.len() ==> ws_end(s, i) <= s.len(),
        forall|k: int| i <= k < ws_end(s, i) ==> is_ws(#[trigger] s[k]),
        ws_end(s, i) < s.len() ==> !is_ws(s[ws_end(s, i)]),
    decreases s.len() - i,
{
    if 0 <= i < s.len() && is_ws(s[i]) {
        lemma_ws_end_bounds(s, i + 1);
    }
}

pub proof fn lemma_digits_end_bounds(s: Seq<u8>, i: int)
    requires
        0 <= i,
    ensures
        i <= digits_end(s, i),
        i <= s.len() ==> digits_end(s, i) <= s.len(),
    decreases s.len() - i,
{
    if 0 <= i < s.len() && is_digit(s[i]) {
        lemma_digits_end_bounds(s, i + 1);
    }
}

pub proof fn lemma_string_body_end_bounds(s: Seq<u8>, i: int)
    ensures
        string_body_end(s, i) matches Some(j) ==> i < j <= s.len(),
    decreases s.len() - i,
{
    if i < 0 || i >= s.len() {
    } else if s[i] == QUOTE {
    } else if s[i] == BACKSLASH {
        if i + 2 <= s.len() {
            lemma_string_body_end_bounds(s, i + 2);
        }
    } else {
        lemma_string_body_end_bounds(s, i + 1);
    }
}

pub proof fn lemma_balanced_scan_bounds(s: Seq<u8>, i: int, depth: int, open: u8, close: u8)
    ensures
        balanced_scan(s, i, depth, open, close) matches Some(j) ==> i < j <= s.len(),
    decreases s.len() - i,
{
    if i < 0 || i >= s.len() {
    } else if s[i] == QUOTE {
        match string_end(s, i) {
            None => {},
            Some(j) => if i < j <= s.len() {
                lemma_balanced_scan_bounds(s, j, depth, open, close);
            },
        }
    } else if s[i] == open {
        lemma_balanced_scan_bounds(s, i + 1, depth + 1, open, close);
    } else if s[i] == close {
        if depth - 1 != 0 {
            lemma_balanced_scan_bounds(s, i + 1, depth - 1, open, close);
        }
    } else {
        lemma_balanced_scan_bounds(s, i + 1, depth, open, close);
    }
}

pub proof fn lemma_number_end_bounds(s: Seq<u8>, start: int)
    requires
        0 <= start,
    ensures
        number_end(s, start) matches Some(j) ==> start < j <= s.len(),
{
    let i1 = if byte_at(s, start) == Some(MINUS) {
        start + 1
    } else {
        start
    };
    lemma_digits_end_bounds(s, i1 + 1);
    let i2 = match byte_at(s, i1) {
        Some(b) => if b == DIGIT_ZERO {
            Some(i1 + 1)
        } else if DIGIT_ONE <= b <= DIGIT_NINE {
            Some(digits_end(s, i1 + 1))
        } else {
            None
        },
        None => None,
    };
    if let Some(i2) = i2 {
        lemma_digits_end_bounds(s, i2 + 1);
        let i3 = if byte_at(s, i2) == Some(DOT) {
            match byte_at(s, i2 + 1) {
                Some(b) => if is_digit(b) {
                    Some(digits_end(s, i2 + 1))
                } else {
                    None
                },
                None => None,
            }
        } else {
            Some(i2)
        };
        if let Some(i3) = i3 {
            lemma_digits_end_bounds(s, i3 + 1);
            lemma_digits_end_bounds(s, i3 + 2);
        }
    }
}

pub proof fn lemma_value_end_bounds(s: Seq<u8>, start: int)
    requires
        0 <= start,
    ensures
        value_end(s, start) matches Some(j) ==> start < j <= s.len(),
{
    lemma_string_body_end_bounds(s, start + 1);
    lemma_balanced_scan_bounds(s, start, 0, OPEN_BRACE, CLOSE_BRACE);
    lemma_balanced_scan_bounds(s, start, 0, OPEN_BRACKET, CLOSE_BRACKET);
    lemma_number_end_bounds(s, start);
}

/// A member's value span lies inside the document.
pub proof fn lemma_member_walk_bounds(s: Seq<u8>, idx: int, key: Seq<char>)
    requires
        0 <= idx,
    ensures
        member_walk(s, idx, key) matches Some(sp) ==> 0 <= sp.0 < sp.1 <= s.len(),
    decreases s.len() - idx,
{
    if byte_at(s, idx) == Some(QUOTE) {
        if let Some(key_end) = string_end(s, idx) {
            if idx < key_end <= s.len() {
                if let Some(k) = json_deserialized_string(s.subrange(idx, key_end)) {
                    let colon = ws_end(s, key_end);
                    lemma_ws_end_bounds(s, key_end);
                    if byte_at(s, colon) == Some(COLON) {
                        let vs = ws_end(s, colon + 1);
                        lemma_ws_end_bounds(s, colon + 1);
                        lemma_value_end_bounds(s, vs);
                        if let Some(ve) = value_end(s, vs) {
                            if k != key {
                                let n = ws_end(s, ve);
                                lemma_ws_end_bounds(s, ve);
                                if byte_at(s, n) == Some(COMMA) {
                                    let next = ws_end(s, n + 1);
                                    lemma_ws_end_bounds(s, n + 1);
                                    if idx < next <= s.len() {
                                        lemma_member_walk_bounds(s, next, key);
                                    }
                                }
                            }
                        }
                    }
                }
            }
        }
    }
}

/// A member's value span lies inside the document.
pub proof fn lemma_member_span_bounds(s: Seq<u8>, scope: (int, int), key: Seq<char>)
    requires
        0 <= scope.0,
    ensures
        member_span(s, scope, key) matches Some(sp) ==> 0 <= sp.0 < sp.1 <= s.len(),
{
    reveal(member_span);
    lemma_ws_end_bounds(s, scope.0 + 1);
    lemma_member_walk_bounds(s, ws_end(s, scope.0 + 1), key);
}

/// Below any index holding `b` lies a first one.
proof fn lemma_first_index_exists(s: Seq<u8>, b: u8, k: int)
    requires
        0 <= k < s.len(),
        s[k] == b,
    ensures
        exists|j: int| 0 <= j < s.len() && s[j] == b && forall|m: int| 0 <= m < j ==> s[m] != b,
    decreases k,
{
    if exists|m: int| 0 <= m < k && s[m] == b {
        let m = choose|m: int| 0 <= m < k && s[m] == b;
        lemma_first_index_exists(s, b, m);
    } else {
        assert(forall|m: int| 0 <= m < k ==> s[m] != b);
    }
}

/// An object's span starts inside the document.
pub proof fn lemma_object_scope_start(s: Seq<u8>, path: Seq<Seq<char>>)
    ensures
        object_scope(s, path) matches Some(sc) ==> 0 <= sc.0,
    decreases path.len(),
{
    if path.len() == 0 {
        reveal(root_scope);
        if exists|k: int| 0 <= k < s.len() && s[k] == OPEN_BRACE {
            let k = choose|k: int| 0 <= k < s.len() && s[k] == OPEN_BRACE;
            lemma_first_index_exists(s, OPEN_BRACE, k);
        }
    } else {
        lemma_object_scope_start(s, path.drop_last());
        if let Some(scope) = object_scope(s, path.drop_last()) {
            lemma_member_span_bounds(s, scope, path.last());
        }
    }
}

// ---------------------------------------------------------------------------
// Executable scanners
// ---------------------------------------------------------------------------

/// The byte at `idx`, if there is one.
pub fn byte_at_exec(content: &[u8], idx: usize) -> (b: Option<u8>)
    ensures
        b == byte_at(content@, idx as int),
        b.is_some() ==> idx < content.len(),
{
    if idx < content.len() {
        Some(content[idx])
    } else {
        None
    }
}

/// Whether the byte at `idx` exists and equals `b`.
pub fn is_byte(content: &[u8], idx: usize, b: u8) -> (r: bool)
    ensures
        r == (byte_at(content@, idx as int) == Some(b)),
        r ==> idx < content.len(),
{
    idx < content.len() && content[idx] == b
}

/// Advances `idx` past ASCII whitespace.
pub fn skip_whitespace(content: &[u8], idx: usize) -> (end: usize)
    ensures
        end == ws_end(content@, idx as int),
        idx <= end,
        idx <= content@.len() ==> end <= content@.len(),
{
    proof {
        lemma_ws_end_bounds(content@, idx as int);
    }
    let mut i = idx;
    while i < content.len() && is_ascii_whitespace(content[i])
        invariant
            idx <= i,
            ws_end(content@, i as int) == ws_end(content@, idx as int),
        decreases content@.len() - i,
    {
        i += 1;
    }
    i
}

/// `u8::is_ascii_whitespace`.
pub fn is_ascii_whitespace(b: u8) -> (r: bool)
    ensures
        r == is_ws(b),
{
    b == 32 || b == 9 || b == 10 || b == 12 || b == 13
}

fn is_ascii_digit(b: u8) -> (r: bool)
    ensures
        r == is_digit(b),
{
    DIGIT_ZERO <= b && b <= DIGIT_NINE
}

fn skip_digits(content: &[u8], idx: usize) -> (end: usize)
    ensures
        end == digits_end(content@, idx as int),
{
    proof {
        lemma_digits_end_bounds(content@, idx as int);
    }
    let mut i = idx;
    while i < content.len() && is_ascii_digit(content[i])
        invariant
            idx <= i,
            digits_end(content@, i as int) == digits_end(content@, idx as int),
        decreases content@.len() - i,
    {
        i += 1;
    }
    i
}

/// End (exclusive) of the string literal whose opening quote is at `start`.
pub fn parse_json_string_end(content: &[u8], start: usize) -> (end: Option<usize>)
    ensures
        same_index(end, string_end(content@, start as int)),
        end matches Some(j) ==> start < j <= content@.len(),
{
    proof {
        lemma_string_body_end_bounds(content@, start + 1);
    }
    if !is_byte(content, start, QUOTE) {
        return None;
    }
    assert(string_end(content@, start as int) == string_body_end(content@, start + 1));
    let mut idx = start + 1;
    while idx < content.len()
        invariant
            start < idx,
            start < content@.len(),
            string_body_end(content@, idx as int) == string_body_end(content@, start + 1),
            string_end(content@, start as int) == string_body_end(content@, start + 1),
        decreases content@.len() - idx,
    {
        let b = content[idx];
        if b == QUOTE {
            assert(string_body_end(content@, idx as int) == Some(idx + 1));
            return Some(idx + 1);
        } else if b == BACKSLASH {
            if content.len() - idx < 2 {
                assert(string_body_end(content@, idx as int) == None::<int>);
                return None;
            }
            idx += 2;
        } else {
            idx += 1;
        }
    }
    None
}

/// End (exclusive) of the bracketed value that starts at `start`.
pub fn parse_balanced_json_end(content: &[u8], start: usize, open: u8, close: u8) -> (end: Option<
    usize,
>)
    requires
        (open == OPEN_BRACE && close == CLOSE_BRACE) || (open == OPEN_BRACKET && close
            == CLOSE_BRACKET),
    ensures
        same_index(end, balanced_end(content@, start as int, open, close)),
        end matches Some(j) ==> start < j <= content@.len(),
{
    proof {
        lemma_balanced_scan_bounds(content@, start as int, 0, open, close);
    }
    if !is_byte(content, start, open) {
        return None;
    }
    let mut idx = start;
    let mut depth: usize = 0;
    while idx < content.len()
        invariant
            start <= idx,
            start < content@.len(),
            content@[start as int] == open,
            (open == OPEN_BRACE && close == CLOSE_BRACE) || (open == OPEN_BRACKET && close
                == CLOSE_BRACKET),
            depth <= idx - start,
            depth == 0 ==> idx == start,
            balanced_scan(content@, idx as int, depth as int, open, close) == balanced_scan(
                content@,
                start as int,
                0,
                open,
                close,
            ),
        decreases content@.len() - idx,
    {
        let b = content[idx];
        if b == QUOTE {
            match parse_json_string_end(content, idx) {
                None => {
                    return None;
                },
                Some(j) => {
                    assert(string_end(content@, idx as int) == Some(j as int));
                    idx = j;
                },
            }
        } else if b == open {
            depth += 1;
            idx += 1;
        } else if b == close {
            assert(b != QUOTE && b != open);
            depth -= 1;
            idx += 1;
            if depth == 0 {
                return Some(idx);
            }
        } else {
            idx += 1;
        }
    }
    None
}

/// End (exclusive) of the number that starts at `start`.
pub fn parse_number_end(content: &[u8], start: usize) -> (end: Option<usize>)
    ensures
        same_index(end, number_end(content@, start as int)),
{
    proof {
        lemma_number_end_bounds(content@, start as int);
        lemma_digits_end_bounds(content@, start + 1);
        lemma_digits_end_bounds(content@, start + 2);
    }
    let mut idx = start;
    if is_byte(content, idx, MINUS) {
        idx += 1;
    }
    match byte_at_exec(content, idx) {
        Some(b) => {
            if b == DIGIT_ZERO {
                idx += 1;
            } else if DIGIT_ONE <= b && b <= DIGIT_NINE {
                idx = skip_digits(content, idx + 1);
            } else {
                return None;
            }
        },
        None => {
            return None;
        },
    }
    proof {
        lemma_digits_end_bounds(content@, idx + 1);
    }
    if is_byte(content, idx, DOT) {
        idx += 1;
        match byte_at_exec(content, idx) {
            Some(b) => {
                if !is_ascii_digit(b) {
                    return None;
                }
            },
            None => {
                return None;
            },
        }
        idx = skip_digits(content, idx);
    }
    proof {
        lemma_digits_end_bounds(content@, idx + 1);
        lemma_digits_end_bounds(content@, idx + 2);
    }
    if is_byte(content, idx, LOWER_E) || is_byte(content, idx, UPPER_E) {
        idx += 1;
        if is_byte(content, idx, PLUS) || is_byte(content, idx, MINUS) {
            idx += 1;
        }
        match byte_at_exec(content, idx) {
            Some(b) => {
                if !is_ascii_digit(b) {
                    return None;
                }
            },
            None => {
                return None;
            },
        }
        idx = skip_digits(content, idx);
    }
    Some(idx)
}

/// Whether the bytes from `start` spell `word`.
fn word_at_exec(content: &[u8], start: usize, word: &[u8]) -> (r: bool)
    ensures
        r == word_at(content@, start as int, word@),
        r ==> start + word.len() <= content.len(),
{
    if start > content.len() || content.len() - start < word.len() {
        return false;
    }
    let mut k: usize = 0;
    while k < word.len()
        invariant
            start + word.len() <= content.len(),
            start + word@.len() <= content@.len(),
            k <= word@.len(),
            forall|m: int| 0 <= m < k ==> content@[start + m] == word@[m],
        decreases word@.len() - k,
    {
        if content[start + k] != word[k] {
            assert(content@.subrange(start as int, start + word@.len())[k as int] != word@[k as int]);
            return false;
        }
        k += 1;
    }
    assert(content@.subrange(start as int, start + word@.len()) =~= word@);
    true
}

/// End (exclusive) of the JSON value that starts at `start`.
pub fn parse_json_value_end(content: &[u8], start: usize) -> (end: Option<usize>)
    ensures
        same_index(end, value_end(content@, start as int)),
        end matches Some(j) ==> start < j <= content@.len(),
{
    proof {
        lemma_value_end_bounds(content@, start as int);
    }
    let ch = match byte_at_exec(content, start) {
        Some(ch) => ch,
        None => {
            return None;
        },
    };
    if ch == QUOTE {
        parse_json_string_end(content, start)
    } else if ch == OPEN_BRACE {
        parse_balanced_json_end(content, start, OPEN_BRACE, CLOSE_BRACE)
    } else if ch == OPEN_BRACKET {
        parse_balanced_json_end(content, start, OPEN_BRACKET, CLOSE_BRACKET)
    } else if ch == LOWER_T {
        let word: [u8; 4] = [116u8, 114u8, 117u8, 101u8];
        assert(word@ =~= true_bytes());
        assert(true_bytes().len() == 4);
        if word_at_exec(content, start, &word) {
            Some(start + 4)
        } else {
            None
        }
    } else if ch == LOWER_F {
        let word: [u8; 5] = [102u8, 97u8, 108u8, 115u8, 101u8];
        assert(word@ =~= false_bytes());
        assert(false_bytes().len() == 5);
        if word_at_exec(content, start, &word) {
            Some(start + 5)
        } else {
            None
        }
    } else if ch == LOWER_N {
        let word: [u8; 4] = [110u8, 117u8, 108u8, 108u8];
        assert(word@ =~= null_bytes());
        assert(null_bytes().len() == 4);
        if word_at_exec(content, start, &word) {
            Some(start + 4)
        } else {
            None
        }
    } else if ch == MINUS || is_ascii_digit(ch) {
        parse_number_end(content, start)
    } else {
        None
    }
}

/// The span of the value of member `target_key` in the object spanning
/// `scope`: members are walked in order and the first match wins.
pub fn find_member_value_span(content: &[u8], scope: (usize, usize), target_key: &String) -> (span:
    Option<(usize, usize)>)
    ensures
        same_span(span, member_span(content@, (scope.0 as int, scope.1 as int), target_key@)),
        span matches Some(sp) ==> sp.0 < sp.1 <= content@.len(),
{
    reveal(member_span);
    let ghost s = content@;
    let ghost key = target_key@;
    let (start, end) = scope;
    if !is_byte(content, start, OPEN_BRACE) {
        return None;
    }
    let mut idx = skip_whitespace(content, start + 1);
    if idx >= end {
        return None;
    }
    if is_byte(content, idx, CLOSE_BRACE) {
        return None;
    }
    assert(member_span(s, (start as int, end as int), key) == member_walk(s, idx as int, key));
    loop
        invariant
            s == content@,
            key == target_key@,
            start == scope.0,
            end == scope.1,
            idx <= content@.len(),
            member_walk(s, idx as int, key) == member_span(s, (start as int, end as int), key),
        decreases content@.len() - idx,
    {
        let ghost idx0 = idx as int;
        if !is_byte(content, idx, QUOTE) {
            return None;
        }
        let key_end = match parse_json_string_end(content, idx) {
            Some(e) => e,
            None => {
                return None;
            },
        };
        let token = &content[idx..key_end];
        let key_text = match decode_json_string(token) {
            Some(k) => k,
            None => {
                return None;
            },
        };
        idx = skip_whitespace(content, key_end);
        if !is_byte(content, idx, COLON) {
            return None;
        }
        idx += 1;
        idx = skip_whitespace(content, idx);
        let value_start = idx;
        let value_end = match parse_json_value_end(content, value_start) {
            Some(e) => e,
            None => {
                return None;
            },
        };
        if key_text == *target_key {
            return Some((value_start, value_end));
        }
        idx = skip_whitespace(content, value_end);
        if is_byte(content, idx, COMMA) {
            idx += 1;
            idx = skip_whitespace(content, idx);
            assert(idx0 < idx as int <= s.len());
        } else {
            return None;
        }
    }
}

/// The first index holding byte `b`.
pub fn find_byte(content: &[u8], b: u8) -> (r: Option<usize>)
    ensures
        same_index(r, first_index_of(content@, b)),
{
    let mut i: usize = 0;
    while i < content.len()
        invariant
            i <= content@.len(),
            forall|m: int| 0 <= m < i ==> content@[m] != b,
        decreases content@.len() - i,
    {
        if content[i] == b {
            assert(exists|k: int| 0 <= k < content@.len() && content@[k] == b);
            let ghost c = choose|k: int| 0 <= k < content@.len() && content@[k] == b && forall|m: int| 0 <= m < k ==> content@[m] != b;
            assert(0 <= c < content@.len() && content@[c] == b) by {
                assert(0 <= i < content@.len() && content@[i as int] == b && forall|m: int| 0 <= m < i ==> content@[m] != b);
            }
            assert(c == i);
            return Some(i);
        }
        i += 1;
    }
    None
}

/// The span of the document's root object.
pub fn find_root_object_scope(content: &[u8]) -> (span: Option<(usize, usize)>)
    ensures
        same_span(span, root_scope(content@)),
        span matches Some(sp) ==> sp.0 < sp.1 <= content@.len(),
{
    reveal(root_scope);
    let mut idx = skip_whitespace(content, 0);
    if !is_byte(content, idx, OPEN_BRACE) {
        return None;
    }
    let end = match parse_json_value_end(content, idx) {
        Some(e) => e,
        None => {
            return None;
        },
    };
    idx = skip_whitespace(content, end);
    if idx != content.len() {
        return None;
    }
    let first = match find_byte(content, OPEN_BRACE) {
        Some(f) => f,
        None => {
            return None;
        },
    };
    proof {
        lemma_ws_end_bounds(content@, 0);
    }
    assert(first <= ws_end(content@, 0)) by {
        let w = ws_end(content@, 0);
        if first > w {
            assert(content@[w] == OPEN_BRACE);
        }
    }
    Some((first, end))
}

/// The span of the object reached from the root by following `path`.
pub fn find_object_scope(content: &[u8], path: &[String]) -> (span: Option<(usize, usize)>)
    ensures
        same_span(span, object_scope(content@, path@.map_values(|p: String| p@))),
        span matches Some(sp) ==> sp.0 < sp.1 <= content@.len(),
{
    let ghost views = path@.map_values(|p: String| p@);
    let mut scope = match find_root_object_scope(content) {
        Some(sc) => sc,
        None => {
            proof {
                assert(views.take(0) =~= Seq::<Seq<char>>::empty());
                lemma_object_scope_none_extends(content@, views, 0);
            }
            return None;
        },
    };
    let mut i: usize = 0;
    assert(views.take(0) =~= Seq::<Seq<char>>::empty());
    while i < path.len()
        invariant
            i <= path@.len(),
            views == path@.map_values(|p: String| p@),
            same_span(Some(scope), object_scope(content@, views.take(i as int))),
            scope.0 < scope.1 <= content@.len(),
        decreases path@.len() - i,
    {
        assert(views.take(i + 1).drop_last() =~= views.take(i as int));
        assert(views.take(i + 1).last() == path@[i as int]@);
        let span = match find_member_value_span(content, scope, &path[i]) {
            Some(sp) => sp,
            None => {
                proof {
                    assert(object_scope(content@, views.take(i + 1)) is None);
                    lemma_object_scope_none_extends(content@, views, i + 1);
                    assert(views.take(views.len() as int) =~= views);
                }
                return None;
            },
        };
        if !is_byte(content, span.0, OPEN_BRACE) {
            proof {
                lemma_object_scope_none_extends(content@, views, i + 1);
                assert(views.take(views.len() as int) =~= views);
            }
            return None;
        }
        scope = span;
        i += 1;
    }
    assert(views.take(path@.len() as int) =~= views);
    Some(scope)
}

} // verus!
