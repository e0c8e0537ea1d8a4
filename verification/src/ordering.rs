//! Lexicographic order on text, and a stable sort by a text key.

use vstd::prelude::*;

verus! {

/// Strict lexicographic order on characters by code point, which is the
/// order of `str::cmp` (UTF-8 bytes sort as their code points do).
pub open spec fn lex_lt(a: Seq<char>, b: Seq<char>) -> bool
    decreases a.len(),
{
    if b.len() == 0 {
        false
    } else if a.len() == 0 {
        true
    } else if a[0] < b[0] {
        true
    } else if a[0] == b[0] {
        lex_lt(a.drop_first(), b.drop_first())
    } else {
        false
    }
}

pub proof fn lemma_lex_lt_irreflexive(a: Seq<char>)
    ensures
        !lex_lt(a, a),
    decreases a.len(),
{
    if a.len() > 0 {
        lemma_lex_lt_irreflexive(a.drop_first());
    }
}

pub proof fn lemma_lex_lt_transitive(a: Seq<char>, b: Seq<char>, c: Seq<char>)
    requires
        lex_lt(a, b),
        lex_lt(b, c),
    ensures
        lex_lt(a, c),
    decreases a.len(),
{
    if a.len() > 0 && b.len() > 0 && c.len() > 0 && a[0] == b[0] && b[0] == c[0] {
        lemma_lex_lt_transitive(a.drop_first(), b.drop_first(), c.drop_first());
    }
}

pub proof fn lemma_lex_lt_total(a: Seq<char>, b: Seq<char>)
    requires
        a != b,
    ensures
        lex_lt(a, b) || lex_lt(b, a),
    decreases a.len(),
{
    if a.len() > 0 && b.len() > 0 && a[0] == b[0] {
        if a.drop_first() == b.drop_first() {
            assert(a =~= seq![a[0]] + a.drop_first());
            assert(b =~= seq![b[0]] + b.drop_first());
        }
        lemma_lex_lt_total(a.drop_first(), b.drop_first());
    } else if a.len() == 0 && b.len() == 0 {
        assert(a =~= b);
    }
}

/// `a` sorts before `b`, or with it.
pub open spec fn lex_le(a: Seq<char>, b: Seq<char>) -> bool {
    !lex_lt(b, a)
}

/// Compares two strings: whether `a` sorts strictly before `b`.
pub fn str_lt(a: &str, b: &str) -> (r: bool)
    ensures
        r == lex_lt(a@, b@),
{
    let x = crate::text::chars_of(a);
    let y = crate::text::chars_of(b);
    let mut i: usize = 0;
    assert(x@.subrange(0, 0) =~= y@.subrange(0, 0));
    assert(x@.subrange(0, x@.len() as int) =~= a@);
    assert(y@.subrange(0, y@.len() as int) =~= b@);
    while i < x.len() && i < y.len()
        invariant
            i <= x@.len(),
            i <= y@.len(),
            x@.subrange(0, i as int) == y@.subrange(0, i as int),
            lex_lt(a@, b@) == lex_lt(x@.subrange(i as int, x@.len() as int), y@.subrange(i as int, y@.len() as int)),
            x@ == a@,
            y@ == b@,
        decreases x@.len() - i,
    {
        let ghost xs = x@.subrange(i as int, x@.len() as int);
        let ghost ys = y@.subrange(i as int, y@.len() as int);
        assert(xs[0] == x@[i as int] && ys[0] == y@[i as int]);
        if x[i] < y[i] {
            return true;
        }
        if x[i] != y[i] {
            return false;
        }
        assert(xs.drop_first() =~= x@.subrange(i + 1, x@.len() as int));
        assert(ys.drop_first() =~= y@.subrange(i + 1, y@.len() as int));
        assert(x@.subrange(0, i + 1) =~= x@.subrange(0, i as int).push(x@[i as int]));
        assert(y@.subrange(0, i + 1) =~= y@.subrange(0, i as int).push(y@[i as int]));
        i += 1;
    }
    i < y.len()
}

/// A value sorted by a text key.
pub trait Keyed {
    spec fn key_view(&self) -> Seq<char>;

    fn key(&self) -> (k: &str)
        ensures
            k@ == self.key_view(),
    ;
}

impl Keyed for String {
    open spec fn key_view(&self) -> Seq<char> {
        self@
    }

    fn key(&self) -> (k: &str) {
        self.as_str()
    }
}

/// The keys of a sequence are in order.
pub open spec fn sorted_by_key<T: Keyed>(s: Seq<T>) -> bool {
    forall|i: int, j: int| 0 <= i < j < s.len() ==> lex_le(s[i].key_view(), s[j].key_view())
}

/// Sorts by key, keeping equal keys in their original order.
pub fn sort_by_key<T: Keyed>(items: Vec<T>) -> (out: Vec<T>)
    ensures
        out@.to_multiset() == items@.to_multiset(),
        out@.len() == items@.len(),
        sorted_by_key(out@),
{
    broadcast use vstd::seq_lib::group_to_multiset_ensures;

    let ghost original = items@;
    let mut rest = items;
    let mut out: Vec<T> = Vec::new();
    let ghost mut done: int = 0;
    assert(original.subrange(0, 0) =~= Seq::<T>::empty());
    while rest.len() > 0
        invariant
            0 <= done <= original.len(),
            rest@ == original.subrange(done, original.len() as int),
            out@.to_multiset() == original.subrange(0, done).to_multiset(),
            out@.len() == done,
            sorted_by_key(out@),
        decreases rest@.len(),
    {
        let x = rest.remove(0);
        assert(x == original[done]);
        let mut j: usize = 0;
        while j < out.len() && !str_lt(x.key(), out[j].key())
            invariant
                j <= out@.len(),
                sorted_by_key(out@),
                forall|k: int| 0 <= k < j ==> lex_le(#[trigger] out@[k].key_view(), x.key_view()),
            decreases out@.len() - j,
        {
            j += 1;
        }
        let ghost before = out@;
        out.insert(j, x);
        proof {
            assert(out@ == before.insert(j as int, x));
            assert forall|a: int, b: int| 0 <= a < b < out@.len() implies lex_le(
                out@[a].key_view(),
                out@[b].key_view(),
            ) by {
                if b < j {
                } else if a < j && b == j {
                } else if a < j {
                    assert(out@[b] == before[b - 1]);
                } else if a == j {
                    let y = before[b - 1];
                    assert(out@[b] == y);
                    assert(j < before.len());
                    assert(lex_lt(x.key_view(), before[j as int].key_view()));
                    if lex_lt(y.key_view(), x.key_view()) {
                        lemma_lex_lt_transitive(y.key_view(), x.key_view(), before[j as int].key_view());
                        if b - 1 > j {
                            assert(lex_le(before[j as int].key_view(), before[b - 1].key_view()));
                        } else {
                            lemma_lex_lt_irreflexive(y.key_view());
                        }
                    }
                } else {
                    assert(out@[a] == before[a - 1]);
                    assert(out@[b] == before[b - 1]);
                }
            }
            assert(original.subrange(0, done + 1) =~= original.subrange(0, done).push(x));
            vstd::seq_lib::to_multiset_insert(before, j as int, x);
            vstd::seq_lib::to_multiset_build(original.subrange(0, done), x);
            done = done + 1;
            assert(rest@ =~= original.subrange(done, original.len() as int));
        }
    }
    assert(original.subrange(0, original.len() as int) =~= original);
    out
}

} // verus!
