//! How the lines of a text relate to its character positions: which line a
//! position falls on and at which column, and how the lines change when a
//! character other than a line feed is inserted.

use vstd::prelude::*;
use crate::line_edit::{char_pos, insert_at, lemma_boundary, lemma_byte_len_concat, on_boundary};
use crate::editor::{
    byte_len, cursor_byte, lemma_byte_len_monotone, utf8_width, lemma_line_end_monotone, lemma_line_start_prefix, lemma_lines_total, line_start, split_lines,
};

verus! {

/// The number of line feeds in a text.
pub open spec fn lf_count(s: Seq<char>) -> nat
    decreases s.len(),
{
    if s.len() == 0 {
        0
    } else {
        lf_count(s.drop_last()) + if s.last() == '\n' { 1nat } else { 0nat }
    }
}

/// The number of characters after the last line feed.
pub open spec fn col_chars(s: Seq<char>) -> nat
    decreases s.len(),
{
    if s.len() == 0 {
        0
    } else if s.last() == '\n' {
        0
    } else {
        col_chars(s.drop_last()) + 1
    }
}

/// There is one more line than there are line feeds, and the last line is
/// as long as the text after the last line feed.
pub proof fn lemma_lines_count(s: Seq<char>)
    ensures
        split_lines(s).len() == lf_count(s) + 1,
        split_lines(s).last().len() == col_chars(s),
    decreases s.len(),
{
    if s.len() > 0 {
        lemma_lines_count(s.drop_last());
    }
}

/// The lines of a prefix: those before the prefix's last line are lines of
/// the whole text, and its last line starts the whole text's line there.
pub proof fn lemma_prefix_lines(s: Seq<char>, k: int)
    requires
        0 <= k <= s.len(),
    ensures
        lf_count(s.take(k)) < split_lines(s).len(),
        col_chars(s.take(k)) <= split_lines(s)[lf_count(s.take(k)) as int].len(),
        split_lines(s.take(k)).len() == lf_count(s.take(k)) + 1,
        forall|i: int|
            0 <= i < lf_count(s.take(k)) ==> #[trigger] split_lines(s.take(k))[i] == split_lines(s)[i],
        split_lines(s.take(k))[lf_count(s.take(k)) as int] =~= split_lines(s)[lf_count(s.take(k)) as int].take(
            col_chars(s.take(k)) as int,
        ),
    decreases s.len(),
{
    lemma_lines_count(s.take(k));
    lemma_lines_count(s);
    if k == s.len() {
        assert(s.take(k) =~= s);
    } else {
        let t = s.drop_last();
        assert(t.take(k) =~= s.take(k));
        lemma_prefix_lines(t, k);
        lemma_lines_count(t);
    }
}

/// The byte offset of a character position: the start of its line and the
/// bytes of its line before it.
pub proof fn lemma_position_bytes(s: Seq<char>, k: int)
    requires
        0 <= k <= s.len(),
    ensures
        byte_len(s.take(k)) == line_start(split_lines(s), lf_count(s.take(k)))
            + byte_len(split_lines(s)[lf_count(s.take(k)) as int].take(col_chars(s.take(k)) as int)),
{
    let p = s.take(k);
    lemma_prefix_lines(s, k);
    lemma_lines_total(p);
    let l = lf_count(p);
    lemma_line_start_prefix(split_lines(p), split_lines(s), l);
}

/// Inserting a character other than a line feed changes only the line it
/// goes into, where it is inserted at its column.
pub proof fn lemma_insert_lines(s: Seq<char>, k: int, c: char)
    requires
        0 <= k <= s.len(),
        c != '\n',
    ensures
        split_lines(insert_at(s, k, c)) =~= split_lines(s).update(
            lf_count(s.take(k)) as int,
            insert_at(split_lines(s)[lf_count(s.take(k)) as int], col_chars(s.take(k)) as int, c),
        ),
    decreases s.len(),
{
    let t = insert_at(s, k, c);
    let y = split_lines(s);
    let l = lf_count(s.take(k)) as int;
    let o = col_chars(s.take(k)) as int;
    lemma_prefix_lines(s, k);
    lemma_lines_count(s);
    if k == s.len() {
        assert(s.take(k) =~= s);
        assert(t.drop_last() =~= s);
        assert(t.last() == c);
        assert(insert_at(y[l], o, c) =~= y[l].push(c));
    } else {
        let u = s.drop_last();
        let d = s.last();
        assert(u.take(k) =~= s.take(k));
        assert(t.drop_last() =~= insert_at(u, k, c));
        assert(t.last() == d);
        lemma_insert_lines(u, k, c);
        lemma_prefix_lines(u, k);
        lemma_lines_count(u);
        let yu = split_lines(u);
        let x = yu.update(l, insert_at(yu[l], o, c));
        assert(split_lines(insert_at(u, k, c)) == x);
        if d == '\n' {
            assert(split_lines(t) == x.push(Seq::<char>::empty()));
            assert(y == yu.push(Seq::<char>::empty()));
        } else {
            assert(split_lines(t) == x.update(x.len() - 1, x.last().push(d)));
            assert(y == yu.update(yu.len() - 1, yu.last().push(d)));
            if l == yu.len() - 1 {
                assert(insert_at(yu[l], o, c).push(d) =~= insert_at(yu[l].push(d), o, c));
            }
        }
    }
}

/// The cursor's character position lies on the cursor's line, at the
/// column (clamped to the line) it shows.
pub proof fn lemma_cursor_position(s: Seq<char>, line: nat, col: nat)
    requires
        on_boundary(s, cursor_byte(s, line, col)),
        line < split_lines(s).len(),
    ensures
        lf_count(s.take(char_pos(s, cursor_byte(s, line, col)))) == line,
        byte_len(split_lines(s)[line as int].take(col_chars(s.take(char_pos(s, cursor_byte(s, line, col)))) as int))
            == if col < byte_len(split_lines(s)[line as int]) {
            col
        } else {
            byte_len(split_lines(s)[line as int])
        },
{
    let y = split_lines(s);
    let b = cursor_byte(s, line, col);
    lemma_boundary(s, b);
    let k = char_pos(s, b);
    lemma_position_bytes(s, k);
    lemma_prefix_lines(s, k);
    let l = lf_count(s.take(k));
    let o = col_chars(s.take(k)) as int;
    let yl = y[l as int];
    lemma_byte_len_monotone(yl, o, yl.len() as int);
    assert(yl.take(yl.len() as int) =~= yl);
    if l < line {
        lemma_line_end_monotone(y, l, line);
    } else if l > line {
        lemma_line_end_monotone(y, line, l);
    }
}

/// Byte length of a text with one character inserted.
pub proof fn lemma_insert_bytes(s: Seq<char>, k: int, c: char)
    requires
        0 <= k <= s.len(),
    ensures
        byte_len(insert_at(s, k, c)) == byte_len(s) + utf8_width(c),
{
    let one = seq![c];
    assert(s =~= s.take(k) + s.skip(k));
    lemma_byte_len_concat(s.take(k), s.skip(k));
    lemma_byte_len_concat(s.take(k) + one, s.skip(k));
    lemma_byte_len_concat(s.take(k), one);
    assert(one.drop_last() =~= Seq::<char>::empty());
    assert(one.last() == c);
    assert(byte_len(one) == byte_len(one.drop_last()) + utf8_width(one.last()));
    assert(byte_len(Seq::<char>::empty()) == 0);
    assert(insert_at(s, k, c) == (s.take(k) + one) + s.skip(k));
}

/// After a one-byte character other than a line feed is inserted at the
/// cursor, the cursor one column further sits one byte further.
pub proof fn lemma_insert_cursor(s: Seq<char>, line: nat, col: nat, c: char)
    requires
        on_boundary(s, cursor_byte(s, line, col)),
        c != '\n',
        utf8_width(c) == 1,
    ensures
        cursor_byte(insert_at(s, char_pos(s, cursor_byte(s, line, col)), c), line, col + 1)
            == cursor_byte(s, line, col) + 1,
{
    let y = split_lines(s);
    let b = cursor_byte(s, line, col);
    lemma_boundary(s, b);
    let k = char_pos(s, b);
    let t = insert_at(s, k, c);
    lemma_insert_lines(s, k, c);
    lemma_prefix_lines(s, k);
    lemma_insert_bytes(s, k, c);
    let l = lf_count(s.take(k)) as int;
    let o = col_chars(s.take(k)) as int;
    let yt = split_lines(t);
    if line < y.len() {
        lemma_cursor_position(s, line, col);
        assert(l == line);
        lemma_line_start_prefix(yt, y, line);
        lemma_insert_bytes(y[l], o, c);
    } else {
        lemma_lines_total(s);
        lemma_line_end_monotone(y, l as nat, (y.len() - 1) as nat);
    }
}

} // verus!
