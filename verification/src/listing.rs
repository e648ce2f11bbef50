//! Directory listings: link lines, their escaping and their order.

use crate::order::{
    insert_descending, insert_line, is_ascending, is_descending,
    lemma_descending_is_reversed_ascending, lemma_descending_is_unique, lemma_insert_at,
    lemma_insert_keeps_descending, rows,
};
use crate::outside::{escape_byte, percent_triplet};
use vstd::prelude::*;
use vstd::utf8::encode_utf8;

verus! {

/// Whether a byte of a path is escaped in a link: every control byte, every
/// byte outside ASCII, the space, and the punctuation that a link line or a
/// URL gives a meaning to. The slash is never escaped.
pub open spec fn is_escaped(b: u8) -> bool {
    ||| b < 0x20  // the control bytes
    ||| b >= 0x7f  // DEL and every byte outside ASCII
    ||| b == 0x20  // space
    ||| b == 0x21  // !
    ||| b == 0x23  // #
    ||| b == 0x24  // $
    ||| b == 0x26  // &
    ||| b == 0x27  // '
    ||| b == 0x28  // (
    ||| b == 0x29  // )
    ||| b == 0x2a  // *
    ||| b == 0x2b  // +
    ||| b == 0x2c  // ,
    ||| b == 0x3a  // :
    ||| b == 0x3b  // ;
    ||| b == 0x3d  // =
    ||| b == 0x3f  // ?
    ||| b == 0x40  // @
    ||| b == 0x5b  // [
    ||| b == 0x5d  // ]
}

/// One byte of a path as it stands in a link.
pub open spec fn escaped_byte(b: u8) -> Seq<u8> {
    if is_escaped(b) {
        percent_triplet(b)
    } else {
        seq![b]
    }
}

/// A path as it stands in a link: byte by byte, in order.
pub open spec fn escaped(path: Seq<u8>) -> Seq<u8>
    decreases path.len(),
{
    if path.len() == 0 {
        Seq::empty()
    } else {
        escaped(path.drop_last()) + escaped_byte(path.last())
    }
}

/// Where the last segment of a path begins: behind its last slash, or at 0.
pub open spec fn name_start(path: Seq<u8>) -> int
    decreases path.len(),
{
    if path.len() == 0 {
        0
    } else if path.last() == 0x2f {
        path.len() as int
    } else {
        name_start(path.drop_last())
    }
}

/// The last segment of a path: the name that a listing shows.
pub open spec fn file_name(path: Seq<u8>) -> Seq<u8> {
    path.subrange(name_start(path), path.len() as int)
}

/// A path is hidden from listings when its name begins with a dot.
pub open spec fn is_hidden(path: Seq<u8>) -> bool {
    file_name(path).len() > 0 && file_name(path)[0] == 0x2e
}

/// The link line of an entry: `=> `, the escaped path, a space, the name and
/// a line feed.
pub open spec fn link_line(path: Seq<u8>) -> Seq<u8> {
    encode_utf8("=> "@) + escaped(path) + encode_utf8(" "@) + file_name(path) + encode_utf8("\n"@)
}

/// Whether a byte of a path is escaped in a link.
pub fn needs_escape(b: u8) -> (r: bool)
    ensures
        r == is_escaped(b),
{
    if b < 0x20 || b >= 0x7f {
        true
    } else {
        match b {
            0x20 | 0x21 | 0x23 | 0x24 | 0x26 | 0x27 | 0x28 | 0x29 | 0x2a | 0x2b | 0x2c => true,
            0x3a | 0x3b | 0x3d | 0x3f | 0x40 | 0x5b | 0x5d => true,
            _ => false,
        }
    }
}

/// Escapes a path for use in a link.
pub fn escape_path(path: &[u8]) -> (out: Vec<u8>)
    ensures
        out@ == escaped(path@),
{
    let mut out: Vec<u8> = Vec::new();
    let mut i: usize = 0;
    while i < path.len()
        invariant
            i <= path.len(),
            out@ == escaped(path@.take(i as int)),
        decreases path.len() - i,
    {
        let b: u8 = path[i];
        if needs_escape(b) {
            out.extend_from_slice(escape_byte(b).as_bytes());
        } else {
            out.push(b);
        }
        proof {
            let next = path@.take(i + 1);
            assert(next.drop_last() =~= path@.take(i as int));
            assert(next.last() == b);
            assert(out@ =~= escaped(next.drop_last()) + escaped_byte(b));
        }
        i += 1;
    }
    proof {
        assert(path@.take(i as int) =~= path@);
    }
    out
}

/// Finds where the last segment of a path begins.
pub fn name_offset(path: &[u8]) -> (start: usize)
    ensures
        start == name_start(path@),
        start <= path.len(),
        start == 0 || path@[start - 1] == 0x2f,
        forall|k: int| start <= k < path.len() ==> path@[k] != 0x2f,
{
    let mut i: usize = path.len();
    proof {
        assert(path@.take(i as int) =~= path@);
    }
    while i > 0 && path[i - 1] != 0x2f
        invariant
            i <= path.len(),
            name_start(path@) == name_start(path@.take(i as int)),
            forall|k: int| i <= k < path.len() ==> path@[k] != 0x2f,
        decreases i,
    {
        proof {
            assert(path@.take(i as int).drop_last() =~= path@.take(i - 1));
        }
        i -= 1;
    }
    i
}

/// Whether a path is hidden from listings.
pub fn hidden(path: &[u8]) -> (r: bool)
    ensures
        r == is_hidden(path@),
{
    let start = name_offset(path);
    start < path.len() && path[start] == 0x2e
}

/// Writes the link line of an entry.
pub fn make_link_line(path: &[u8]) -> (line: Vec<u8>)
    ensures
        line@ == link_line(path@),
{
    let start = name_offset(path);
    let mut line: Vec<u8> = Vec::new();
    line.extend_from_slice("=> ".as_bytes());
    let target = escape_path(path);
    line.extend_from_slice(target.as_slice());
    line.extend_from_slice(" ".as_bytes());
    let mut i: usize = start;
    while i < path.len()
        invariant
            start <= i <= path.len(),
            line@ == encode_utf8("=> "@) + escaped(path@) + encode_utf8(" "@) + path@.subrange(
                start as int,
                i as int,
            ),
        decreases path.len() - i,
    {
        line.push(path[i]);
        proof {
            assert(path@.subrange(start as int, i + 1) =~= path@.subrange(start as int, i as int)
                + seq![path@[i as int]]);
        }
        i += 1;
    }
    line.extend_from_slice("\n".as_bytes());
    line
}

/// The paths of a directory's entries, each as its UTF-8 bytes.
pub open spec fn paths(entries: Seq<String>) -> Seq<Seq<u8>> {
    entries.map_values(|entry: String| encode_utf8(entry@))
}

/// The link lines of a listing: one for each entry that is not hidden, in
/// descending order.
pub open spec fn sorted_lines(paths: Seq<Seq<u8>>) -> Seq<Seq<u8>>
    decreases paths.len(),
{
    if paths.len() == 0 {
        Seq::empty()
    } else if is_hidden(paths.last()) {
        sorted_lines(paths.drop_last())
    } else {
        insert_descending(sorted_lines(paths.drop_last()), link_line(paths.last()))
    }
}

/// All lines, one behind the other.
pub open spec fn concat(lines: Seq<Seq<u8>>) -> Seq<u8>
    decreases lines.len(),
{
    if lines.len() == 0 {
        Seq::empty()
    } else {
        concat(lines.drop_last()) + lines.last()
    }
}

/// The body of a directory listing: the header, a line that names the
/// directory, the link lines, and the footer.
pub open spec fn listing_text(
    header: Seq<char>,
    path: Seq<char>,
    paths: Seq<Seq<u8>>,
    footer: Seq<char>,
) -> Seq<u8> {
    encode_utf8(header) + encode_utf8("\n### Path: [ "@) + encode_utf8(path) + encode_utf8(" ]\n"@)
        + concat(sorted_lines(paths)) + encode_utf8("\n"@) + encode_utf8(footer)
}

/// Some entry that is not hidden has `line` as its link line.
pub open spec fn shows(paths: Seq<Seq<u8>>, line: Seq<u8>) -> bool {
    exists|i: int| 0 <= i < paths.len() && !is_hidden(#[trigger] paths[i]) && line == link_line(paths[i])
}

/// The link lines of a listing stand in descending order: they are the
/// lines in ascending order, read backwards.
pub proof fn lemma_listing_is_descending(paths: Seq<Seq<u8>>)
    ensures
        is_descending(sorted_lines(paths)),
        is_ascending(sorted_lines(paths).reverse()),
        sorted_lines(paths).len() <= paths.len(),
    decreases paths.len(),
{
    if paths.len() > 0 {
        lemma_listing_is_descending(paths.drop_last());
        if !is_hidden(paths.last()) {
            lemma_insert_keeps_descending(sorted_lines(paths.drop_last()), link_line(paths.last()));
        }
    }
    lemma_descending_is_reversed_ascending(sorted_lines(paths));
}

/// A listing holds the link line of every entry that is not hidden, and no
/// other line: a hidden entry is never shown.
pub proof fn lemma_listing_shows_visible_entries(paths: Seq<Seq<u8>>, line: Seq<u8>)
    ensures
        sorted_lines(paths).contains(line) <==> shows(paths, line),
    decreases paths.len(),
{
    if paths.len() > 0 {
        let rest = paths.drop_last();
        let last = paths.last();
        lemma_listing_shows_visible_entries(rest, line);
        let lines = sorted_lines(rest);
        if !is_hidden(last) {
            lemma_insert_at(lines, link_line(last));
            let p = crate::order::insert_at(lines, link_line(last));
            let out = sorted_lines(paths);
            assert(out == lines.insert(p, link_line(last)));
            if out.contains(line) {
                let k = choose|k: int| 0 <= k < out.len() && out[k] == line;
                if k < p {
                    assert(lines[k] == line);
                } else if k > p {
                    assert(lines[k - 1] == line);
                }
            }
            if lines.contains(line) {
                let k = choose|k: int| 0 <= k < lines.len() && lines[k] == line;
                if k < p {
                    assert(out[k] == line);
                } else {
                    assert(out[k + 1] == line);
                }
            }
            assert(out[p] == link_line(last));
            assert(out.contains(line) <==> (lines.contains(line) || line == link_line(last)));
        }
        if shows(rest, line) {
            let i = choose|i: int| 0 <= i < rest.len() && !is_hidden(#[trigger] rest[i]) && line == link_line(rest[i]);
            assert(paths[i] == rest[i]);
        }
        if shows(paths, line) {
            let i = choose|i: int| 0 <= i < paths.len() && !is_hidden(#[trigger] paths[i]) && line == link_line(paths[i]);
            if i < paths.len() - 1 {
                assert(paths[i] == rest[i]);
            }
        }
        if !is_hidden(last) && line == link_line(last) {
            assert(paths[paths.len() - 1] == last);
        }
    }
}

/// Writes the link lines of a directory's entries, in the order of a listing.
pub fn listing_lines(entries: &Vec<String>) -> (lines: Vec<Vec<u8>>)
    ensures
        rows(lines@) == sorted_lines(paths(entries@)),
{
    let mut lines: Vec<Vec<u8>> = Vec::new();
    let mut i: usize = 0;
    proof {
        assert(rows(lines@) =~= Seq::<Seq<u8>>::empty());
    }
    while i < entries.len()
        invariant
            i <= entries.len(),
            rows(lines@) == sorted_lines(paths(entries@).take(i as int)),
        decreases entries.len() - i,
    {
        let path = entries[i].as_str().as_bytes();
        proof {
            let next = paths(entries@).take(i + 1);
            assert(next.drop_last() =~= paths(entries@).take(i as int));
            assert(next.last() == path@);
        }
        if !hidden(path) {
            let line = make_link_line(path);
            insert_line(&mut lines, line);
        }
        i += 1;
    }
    proof {
        assert(paths(entries@).take(i as int) =~= paths(entries@));
    }
    lines
}

/// Writes the body of a directory listing.
pub fn listing_body(header: &str, path: &str, entries: &Vec<String>, footer: &str) -> (body: Vec<u8>)
    ensures
        body@ == listing_text(header@, path@, paths(entries@), footer@),
{
    let lines = listing_lines(entries);
    let mut body: Vec<u8> = Vec::new();
    body.extend_from_slice(header.as_bytes());
    body.extend_from_slice("\n### Path: [ ".as_bytes());
    body.extend_from_slice(path.as_bytes());
    body.extend_from_slice(" ]\n".as_bytes());
    let ghost front = body@;
    let mut i: usize = 0;
    while i < lines.len()
        invariant
            i <= lines.len(),
            body@ == front + concat(rows(lines@).take(i as int)),
        decreases lines.len() - i,
    {
        body.extend_from_slice(lines[i].as_slice());
        proof {
            let next = rows(lines@).take(i + 1);
            assert(next.drop_last() =~= rows(lines@).take(i as int));
            assert(next.last() == lines@[i as int]@);
            assert(body@ =~= front + concat(next));
        }
        i += 1;
    }
    proof {
        assert(rows(lines@).take(i as int) =~= rows(lines@));
    }
    body.extend_from_slice("\n".as_bytes());
    body.extend_from_slice(footer.as_bytes());
    body
}

/// An escaped path holds no byte that needs escaping: no space, no line
/// break and no byte outside ASCII, so the link's target ends where the line
/// says it does. A slash stays a slash.
pub proof fn lemma_escaped_is_link_safe(path: Seq<u8>)
    ensures
        forall|k: int| 0 <= k < escaped(path).len() ==> !is_escaped(#[trigger] escaped(path)[k]),
        escaped_byte(0x2f) == seq![0x2fu8],
        path.len() <= escaped(path).len() <= 3 * path.len(),
    decreases path.len(),
{
    if path.len() > 0 {
        lemma_escaped_is_link_safe(path.drop_last());
        let front = escaped(path.drop_last());
        let b = path.last();
        assert forall|k: int| 0 <= k < escaped(path).len() implies !is_escaped(
            #[trigger] escaped(path)[k],
        ) by {
            if k < front.len() {
                assert(escaped(path)[k] == front[k]);
            } else {
                assert(escaped(path)[k] == escaped_byte(b)[k - front.len()]);
            }
        }
    }
}

/// The link lines of the entries that are not hidden, in the order of the
/// entries.
pub open spec fn visible_lines(paths: Seq<Seq<u8>>) -> Seq<Seq<u8>>
    decreases paths.len(),
{
    if paths.len() == 0 {
        Seq::empty()
    } else if is_hidden(paths.last()) {
        visible_lines(paths.drop_last())
    } else {
        visible_lines(paths.drop_last()).push(link_line(paths.last()))
    }
}

/// A listing holds the link lines of the visible entries, each as often as
/// it occurs among them: sorting loses no line and adds none.
pub proof fn lemma_listing_is_permutation(paths: Seq<Seq<u8>>)
    ensures
        sorted_lines(paths).to_multiset() == visible_lines(paths).to_multiset(),
        sorted_lines(paths).len() == visible_lines(paths).len(),
    decreases paths.len(),
{
    if paths.len() > 0 {
        let rest = paths.drop_last();
        lemma_listing_is_permutation(rest);
        if !is_hidden(paths.last()) {
            let line = link_line(paths.last());
            lemma_insert_at(sorted_lines(rest), line);
            vstd::seq_lib::to_multiset_insert(
                sorted_lines(rest),
                crate::order::insert_at(sorted_lines(rest), line),
                line,
            );
            vstd::seq_lib::to_multiset_build(visible_lines(rest), line);
            assert(sorted_lines(paths).to_multiset() =~= visible_lines(paths).to_multiset());
        }
    }
}

/// A listing does not depend on the order in which the directory's entries
/// were read: the same visible entries give the same lines in the same
/// order.
pub proof fn lemma_listing_ignores_entry_order(first: Seq<Seq<u8>>, second: Seq<Seq<u8>>)
    requires
        visible_lines(first).to_multiset() == visible_lines(second).to_multiset(),
    ensures
        sorted_lines(first) == sorted_lines(second),
{
    lemma_listing_is_permutation(first);
    lemma_listing_is_permutation(second);
    lemma_listing_is_descending(first);
    lemma_listing_is_descending(second);
    lemma_descending_is_unique(sorted_lines(first), sorted_lines(second));
}

} // verus!
