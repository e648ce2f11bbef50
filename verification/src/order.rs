//! The order of lines: byte strings compared as dictionaries do, and a list
//! kept in descending order.

use vstd::prelude::*;

verus! {

/// `a` comes before `b`, or equals it, when the two are compared byte by
/// byte and a proper prefix comes first.
pub open spec fn lex_le(a: Seq<u8>, b: Seq<u8>) -> bool
    decreases a.len(),
{
    if a.len() == 0 {
        true
    } else if b.len() == 0 {
        false
    } else if a[0] != b[0] {
        a[0] < b[0]
    } else {
        lex_le(a.drop_first(), b.drop_first())
    }
}

/// Of two byte strings one comes before the other, or they are equal.
pub proof fn lemma_lex_total(a: Seq<u8>, b: Seq<u8>)
    ensures
        lex_le(a, b) || lex_le(b, a),
    decreases a.len(),
{
    if a.len() > 0 && b.len() > 0 && a[0] == b[0] {
        lemma_lex_total(a.drop_first(), b.drop_first());
    }
}

/// The order is transitive.
pub proof fn lemma_lex_transitive(a: Seq<u8>, b: Seq<u8>, c: Seq<u8>)
    requires
        lex_le(a, b),
        lex_le(b, c),
    ensures
        lex_le(a, c),
    decreases a.len(),
{
    if a.len() > 0 && b.len() > 0 && c.len() > 0 && a[0] == b[0] && b[0] == c[0] {
        lemma_lex_transitive(a.drop_first(), b.drop_first(), c.drop_first());
    }
}

/// Two byte strings that come before each other are the same string.
pub proof fn lemma_lex_antisymmetric(a: Seq<u8>, b: Seq<u8>)
    requires
        lex_le(a, b),
        lex_le(b, a),
    ensures
        a == b,
    decreases a.len(),
{
    if a.len() > 0 && b.len() > 0 {
        lemma_lex_antisymmetric(a.drop_first(), b.drop_first());
        assert(a =~= seq![a[0]] + a.drop_first());
        assert(b =~= seq![b[0]] + b.drop_first());
    } else {
        assert(a =~= b);
    }
}

/// Compares two byte strings.
pub fn bytes_le(a: &[u8], b: &[u8]) -> (r: bool)
    ensures
        r == lex_le(a@, b@),
{
    let mut i: usize = 0;
    proof {
        assert(a@.skip(0) =~= a@);
        assert(b@.skip(0) =~= b@);
    }
    while i < a.len() && i < b.len() && a[i] == b[i]
        invariant
            i <= a.len(),
            i <= b.len(),
            lex_le(a@, b@) == lex_le(a@.skip(i as int), b@.skip(i as int)),
        decreases a.len() - i,
    {
        proof {
            assert(a@.skip(i as int).drop_first() =~= a@.skip(i + 1));
            assert(b@.skip(i as int).drop_first() =~= b@.skip(i + 1));
        }
        i += 1;
    }
    if i == a.len() {
        true
    } else if i == b.len() {
        false
    } else {
        a[i] < b[i]
    }
}

/// Every line comes after the lines behind it, or equals them.
pub open spec fn is_descending(lines: Seq<Seq<u8>>) -> bool {
    forall|i: int, j: int| 0 <= i < j < lines.len() ==> lex_le(lines[j], lines[i])
}

/// Every line comes before the lines behind it, or equals them.
pub open spec fn is_ascending(lines: Seq<Seq<u8>>) -> bool {
    forall|i: int, j: int| 0 <= i < j < lines.len() ==> lex_le(lines[i], lines[j])
}

/// A list is descending exactly when it is an ascending list read backwards.
pub proof fn lemma_descending_is_reversed_ascending(lines: Seq<Seq<u8>>)
    ensures
        is_descending(lines) <==> is_ascending(lines.reverse()),
{
    let back = lines.reverse();
    if is_descending(lines) {
        assert forall|i: int, j: int| 0 <= i < j < back.len() implies lex_le(back[i], back[j]) by {
            assert(back[i] == lines[lines.len() - 1 - i]);
            assert(back[j] == lines[lines.len() - 1 - j]);
        }
    }
    if is_ascending(back) {
        assert forall|i: int, j: int| 0 <= i < j < lines.len() implies lex_le(lines[j], lines[i]) by {
            assert(back[lines.len() - 1 - i] == lines[i]);
            assert(back[lines.len() - 1 - j] == lines[j]);
        }
    }
}

/// Where a new line goes into a descending list: in front of the lines that
/// come before it or equal it, behind all others.
pub open spec fn insert_at(lines: Seq<Seq<u8>>, line: Seq<u8>) -> int
    decreases lines.len(),
{
    if lines.len() == 0 {
        0
    } else if lex_le(lines.last(), line) {
        insert_at(lines.drop_last(), line)
    } else {
        lines.len() as int
    }
}

/// The list with the new line in its place.
pub open spec fn insert_descending(lines: Seq<Seq<u8>>, line: Seq<u8>) -> Seq<Seq<u8>> {
    lines.insert(insert_at(lines, line), line)
}

/// The place of a new line is inside the list; the lines from there on come
/// before the new line or equal it, and the line in front of it does not.
pub proof fn lemma_insert_at(lines: Seq<Seq<u8>>, line: Seq<u8>)
    ensures
        0 <= insert_at(lines, line) <= lines.len(),
        forall|k: int| insert_at(lines, line) <= k < lines.len() ==> lex_le(#[trigger] lines[k], line),
        insert_at(lines, line) > 0 ==> !lex_le(lines[insert_at(lines, line) - 1], line),
    decreases lines.len(),
{
    if lines.len() > 0 && lex_le(lines.last(), line) {
        lemma_insert_at(lines.drop_last(), line);
        let p = insert_at(lines, line);
        assert forall|k: int| p <= k < lines.len() implies lex_le(#[trigger] lines[k], line) by {
            if k < lines.len() - 1 {
                assert(lines[k] == lines.drop_last()[k]);
            }
        }
        if p > 0 {
            assert(lines[p - 1] == lines.drop_last()[p - 1]);
        }
    }
}

/// A descending list stays descending when a line is put in its place.
pub proof fn lemma_insert_keeps_descending(lines: Seq<Seq<u8>>, line: Seq<u8>)
    requires
        is_descending(lines),
    ensures
        is_descending(insert_descending(lines, line)),
        insert_descending(lines, line).len() == lines.len() + 1,
{
    lemma_insert_at(lines, line);
    let p = insert_at(lines, line);
    let out = insert_descending(lines, line);
    assert forall|i: int, j: int| 0 <= i < j < out.len() implies lex_le(out[j], out[i]) by {
        if j < p {
            assert(out[i] == lines[i] && out[j] == lines[j]);
        } else if j == p {
            assert(out[i] == lines[i]);
            lemma_lex_total(lines[p - 1], line);
            if i < p - 1 {
                assert(lex_le(lines[p - 1], lines[i]));
                lemma_lex_transitive(line, lines[p - 1], lines[i]);
            }
        } else if i < p {
            assert(out[i] == lines[i] && out[j] == lines[j - 1]);
        } else if i == p {
            assert(out[j] == lines[j - 1]);
        } else {
            assert(out[i] == lines[i - 1] && out[j] == lines[j - 1]);
        }
    }
}

/// The contents of a list of lines.
pub open spec fn rows(lines: Seq<Vec<u8>>) -> Seq<Seq<u8>> {
    lines.map_values(|line: Vec<u8>| line@)
}

/// Puts a line into a descending list, at its place.
pub fn insert_line(lines: &mut Vec<Vec<u8>>, line: Vec<u8>)
    ensures
        rows(final(lines)@) == insert_descending(rows(old(lines)@), line@),
{
    let ghost before = rows(lines@);
    let mut p: usize = lines.len();
    proof {
        assert(before.take(p as int) =~= before);
    }
    while p > 0 && bytes_le(lines[p - 1].as_slice(), line.as_slice())
        invariant
            p <= lines.len(),
            before == rows(lines@),
            insert_at(before, line@) == insert_at(before.take(p as int), line@),
        decreases p,
    {
        proof {
            assert(before.take(p as int).drop_last() =~= before.take(p - 1));
            assert(before.take(p as int).last() == lines@[p - 1]@);
        }
        p -= 1;
    }
    proof {
        if p > 0 {
            assert(before.take(p as int).last() == lines@[p - 1]@);
        }
        assert(insert_at(before, line@) == p);
    }
    lines.insert(p, line);
    proof {
        assert(rows(lines@) =~= before.insert(p as int, line@));
    }
}

/// A descending list is fixed by the lines it holds: two descending lists
/// that hold the same lines, each as often, are the same list.
pub proof fn lemma_descending_is_unique(a: Seq<Seq<u8>>, b: Seq<Seq<u8>>)
    requires
        is_descending(a),
        is_descending(b),
        a.to_multiset() == b.to_multiset(),
    ensures
        a == b,
    decreases a.len(),
{
    vstd::seq_lib::to_multiset_len(a);
    vstd::seq_lib::to_multiset_len(b);
    if a.len() == 0 {
        assert(a =~= b);
    } else {
        vstd::seq_lib::to_multiset_contains(a, a[0]);
        vstd::seq_lib::to_multiset_contains(b, a[0]);
        vstd::seq_lib::to_multiset_contains(a, b[0]);
        vstd::seq_lib::to_multiset_contains(b, b[0]);
        assert(a.contains(a[0]));
        assert(b.contains(b[0]));
        let j = choose|j: int| 0 <= j < b.len() && b[j] == a[0];
        let i = choose|i: int| 0 <= i < a.len() && a[i] == b[0];
        lemma_lex_total(a[0], a[0]);
        lemma_lex_total(b[0], b[0]);
        assert(lex_le(a[0], b[0]));
        assert(lex_le(b[0], a[0]));
        lemma_lex_antisymmetric(a[0], b[0]);
        vstd::seq_lib::to_multiset_remove(a, 0);
        vstd::seq_lib::to_multiset_remove(b, 0);
        assert(a.remove(0) =~= a.drop_first());
        assert(b.remove(0) =~= b.drop_first());
        assert forall|x: int, y: int| 0 <= x < y < a.drop_first().len() implies lex_le(
            a.drop_first()[y],
            a.drop_first()[x],
        ) by {
            assert(a.drop_first()[x] == a[x + 1] && a.drop_first()[y] == a[y + 1]);
        }
        assert forall|x: int, y: int| 0 <= x < y < b.drop_first().len() implies lex_le(
            b.drop_first()[y],
            b.drop_first()[x],
        ) by {
            assert(b.drop_first()[x] == b[x + 1] && b.drop_first()[y] == b[y + 1]);
        }
        lemma_descending_is_unique(a.drop_first(), b.drop_first());
        assert(a =~= seq![a[0]] + a.drop_first());
        assert(b =~= seq![b[0]] + b.drop_first());
    }
}

} // verus!
