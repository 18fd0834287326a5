//! Editing a one-line (or few-line) text input whose cursor is a byte
//! offset: typing, deleting on either side, moving by characters, and
//! pasting.

use vstd::prelude::*;
use crate::editor::{
    byte_len, bytes_of, char_at_byte, char_at_byte_from, find_char_at_byte, lemma_byte_len_monotone,
    lemma_byte_len_take, utf8_width};
use crate::text::{chars_of, push_char, string_from_chars};

verus! {

broadcast use vstd::string::group_string_axioms;

/// How many newlines an input may hold: up to ten lines.
pub const MAX_INPUT_NEWLINES: usize = 9;

/// `s` with `c` inserted before position `k`.
pub open spec fn insert_at(s: Seq<char>, k: int, c: char) -> Seq<char> {
    s.take(k) + seq![c] + s.skip(k)
}

/// `s` without the character at position `k`.
pub open spec fn remove_at(s: Seq<char>, k: int) -> Seq<char> {
    s.take(k) + s.skip(k + 1)
}

/// The cursor falls on a character boundary of the text.
pub open spec fn on_boundary(s: Seq<char>, cursor: nat) -> bool {
    char_at_byte(s, cursor) is Some
}

/// The character position of a cursor on a boundary.
pub open spec fn char_pos(s: Seq<char>, cursor: nat) -> int {
    char_at_byte(s, cursor)->0 as int
}

/// The number of line feeds in a text.
pub open spec fn newline_count(s: Seq<char>) -> nat {
    s.filter(|c: char| c == '\n').len()
}

/// Control characters: U+0000 to U+001F and U+007F to U+009F.
pub open spec fn is_control(c: char) -> bool {
    (c as u32) < 0x20 || (0x7f <= (c as u32) && (c as u32) <= 0x9f)
}

/// The text and cursor after typing `c`.
pub open spec fn typed(s: Seq<char>, cursor: nat, c: char) -> (Seq<char>, nat) {
    (insert_at(s, char_pos(s, cursor), c), cursor + utf8_width(c))
}

/// The text and cursor after a line feed is asked for: inserted while the
/// text holds fewer than the limit of line feeds.
pub open spec fn newline_typed(s: Seq<char>, cursor: nat) -> (Seq<char>, nat) {
    if newline_count(s) < MAX_INPUT_NEWLINES {
        typed(s, cursor, '\n')
    } else {
        (s, cursor)
    }
}

/// The text and cursor after one pasted character: a line feed as above,
/// a control character dropped, anything else typed.
pub open spec fn paste_step(s: Seq<char>, cursor: nat, c: char) -> (Seq<char>, nat) {
    if c == '\n' {
        newline_typed(s, cursor)
    } else if is_control(c) {
        (s, cursor)
    } else {
        typed(s, cursor, c)
    }
}

/// The text and cursor after pasting `text`, one character after another.
pub open spec fn pasted(s: Seq<char>, cursor: nat, text: Seq<char>) -> (Seq<char>, nat)
    decreases text.len(),
{
    if text.len() == 0 {
        (s, cursor)
    } else {
        let (s1, c1) = pasted(s, cursor, text.drop_last());
        paste_step(s1, c1, text.last())
    }
}

/// The text and cursor after backspace: the character before the cursor
/// goes.
pub open spec fn backspaced(s: Seq<char>, cursor: nat) -> (Seq<char>, nat) {
    if cursor > 0 {
        let k = char_pos(s, cursor);
        (remove_at(s, k - 1), (cursor - utf8_width(s[k - 1])) as nat)
    } else {
        (s, cursor)
    }
}

/// The text after delete: the character at the cursor goes.
pub open spec fn deleted(s: Seq<char>, cursor: nat) -> Seq<char> {
    if cursor < byte_len(s) {
        remove_at(s, char_pos(s, cursor))
    } else {
        s
    }
}

/// The cursor one character to the left.
pub open spec fn moved_left(s: Seq<char>, cursor: nat) -> nat {
    if cursor > 0 {
        (cursor - utf8_width(s[char_pos(s, cursor) - 1])) as nat
    } else {
        cursor
    }
}

/// The cursor one character to the right.
pub open spec fn moved_right(s: Seq<char>, cursor: nat) -> nat {
    if cursor < byte_len(s) {
        cursor + utf8_width(s[char_pos(s, cursor)])
    } else {
        cursor
    }
}

/// The search from `j` finds the position `k` whose prefix has `b` bytes.
proof fn lemma_search_finds(s: Seq<char>, k: nat, j: nat)
    requires
        j <= k <= s.len(),
    ensures
        char_at_byte_from(s, byte_len(s.take(k as int)), j) == Some(k),
    decreases k - j,
{
    if j < k {
        lemma_byte_len_monotone(s, j as int, k as int);
        lemma_search_finds(s, k, j + 1);
    }
}

/// A position is found exactly at the byte length of its prefix.
pub proof fn lemma_char_at_prefix(s: Seq<char>, k: nat)
    requires
        k <= s.len(),
    ensures
        char_at_byte(s, byte_len(s.take(k as int))) == Some(k),
{
    lemma_search_finds(s, k, 0);
}

/// What the search finds has a prefix of the byte length looked for.
proof fn lemma_search_found(s: Seq<char>, b: nat, j: nat)
    ensures
        char_at_byte_from(s, b, j) matches Some(k) ==> k <= s.len() && byte_len(s.take(k as int)) == b,
    decreases s.len() - j,
{
    if j <= s.len() && byte_len(s.take(j as int)) != b && j < s.len() {
        lemma_search_found(s, b, j + 1);
    }
}

/// A cursor on a boundary is the byte length of the text before it.
pub proof fn lemma_boundary(s: Seq<char>, cursor: nat)
    requires
        on_boundary(s, cursor),
    ensures
        0 <= char_pos(s, cursor) <= s.len(),
        byte_len(s.take(char_pos(s, cursor))) == cursor,
        cursor <= byte_len(s),
{
    lemma_search_found(s, cursor, 0);
    lemma_byte_len_monotone(s, char_pos(s, cursor), s.len() as int);
    assert(s.take(s.len() as int) =~= s);
}

/// Byte length adds up over concatenation.
pub proof fn lemma_byte_len_concat(a: Seq<char>, b: Seq<char>)
    ensures
        byte_len(a + b) == byte_len(a) + byte_len(b),
    decreases b.len(),
{
    if b.len() > 0 {
        assert((a + b).drop_last() =~= a + b.drop_last());
        lemma_byte_len_concat(a, b.drop_last());
    } else {
        assert(a + b =~= a);
    }
}

/// The bytes of a text split at a position.
proof fn lemma_byte_len_split(s: Seq<char>, k: int)
    requires
        0 <= k <= s.len(),
    ensures
        byte_len(s) == byte_len(s.take(k)) + byte_len(s.skip(k)),
{
    assert(s =~= s.take(k) + s.skip(k));
    lemma_byte_len_concat(s.take(k), s.skip(k));
}

/// Facts about typing `c` at a boundary.
pub(crate) proof fn lemma_typed(s: Seq<char>, cursor: nat, c: char)
    requires
        on_boundary(s, cursor),
    ensures
        on_boundary(typed(s, cursor, c).0, typed(s, cursor, c).1),
        char_pos(typed(s, cursor, c).0, typed(s, cursor, c).1) == char_pos(s, cursor) + 1,
        byte_len(typed(s, cursor, c).0) == byte_len(s) + utf8_width(c),
{
    lemma_boundary(s, cursor);
    let k = char_pos(s, cursor);
    let t = insert_at(s, k, c);
    assert(t.take(k + 1) =~= s.take(k).push(c));
    assert(t.take(k + 1).drop_last() =~= s.take(k));
    lemma_char_at_prefix(t, (k + 1) as nat);
    assert(t =~= (s.take(k) + seq![c]) + s.skip(k));
    lemma_byte_len_concat(s.take(k) + seq![c], s.skip(k));
    assert((s.take(k) + seq![c]).drop_last() =~= s.take(k));
    lemma_byte_len_split(s, k);
}

/// Facts about removing the character at `k`.
pub(crate) proof fn lemma_removed(s: Seq<char>, k: int)
    requires
        0 <= k < s.len(),
    ensures
        byte_len(remove_at(s, k)) + utf8_width(s[k]) == byte_len(s),
        remove_at(s, k).take(k) =~= s.take(k),
{
    lemma_byte_len_split(s, k);
    lemma_byte_len_split(s, k + 1);
    lemma_byte_len_take(s, k);
    assert(s.skip(k) =~= seq![s[k]] + s.skip(k + 1));
    lemma_byte_len_concat(seq![s[k]], s.skip(k + 1));
    assert(seq![s[k]].drop_last() =~= Seq::<char>::empty());
    lemma_byte_len_concat(s.take(k), s.skip(k + 1));
    assert(s.take(k + 1).take(k) =~= s.take(k));
}

/// The position of the cursor in a character vector.
fn cursor_index(v: &Vec<char>, cursor: usize) -> (k: usize)
    requires
        on_boundary(v@, cursor as nat),
        byte_len(v@) < usize::MAX,
    ensures
        k as int == char_pos(v@, cursor as nat),
        k <= v@.len(),
{
    proof {
        lemma_boundary(v@, cursor as nat);
    }
    match find_char_at_byte(v, cursor) {
        Some(k) => k,
        None => 0,
    }
}

/// The text with `c` inserted at character position `k`.
fn inserted_string(v: &Vec<char>, k: usize, c: char) -> (r: String)
    requires
        k <= v@.len(),
    ensures
        r@ == insert_at(v@, k as int, c),
{
    let mut r = string_from_chars(v, 0, k);
    push_char(&mut r, c);
    let rest = string_from_chars(v, k, v.len());
    r.append(rest.as_str());
    assert(v@.subrange(0, k as int) =~= v@.take(k as int));
    assert(v@.subrange(k as int, v@.len() as int) =~= v@.skip(k as int));
    r
}

/// The text without the character at position `k`.
fn removed_string(v: &Vec<char>, k: usize) -> (r: String)
    requires
        k < v@.len(),
    ensures
        r@ == remove_at(v@, k as int),
{
    assert(k < v.len());
    let mut r = string_from_chars(v, 0, k);
    let rest = string_from_chars(v, k + 1, v.len());
    r.append(rest.as_str());
    assert(v@.subrange(0, k as int) =~= v@.take(k as int));
    assert(v@.subrange(k + 1, v@.len() as int) =~= v@.skip(k + 1));
    r
}

/// The number of line feeds of a character vector.
pub(crate) fn count_newlines(v: &Vec<char>) -> (n: usize)
    ensures
        n == newline_count(v@),
{
    let mut n: usize = 0;
    let mut i: usize = 0;
    while i < v.len()
        invariant
            i <= v@.len(),
            n == newline_count(v@.take(i as int)),
            n <= i,
        decreases v@.len() - i,
    {
        proof {
            assert(v@.take(i + 1).drop_last() =~= v@.take(i as int));
            reveal_with_fuel(Seq::filter, 1);
        }
        if v[i] == '\n' {
            n = n + 1;
        }
        i = i + 1;
    }
    assert(v@.take(i as int) =~= v@);
    n
}

/// Type `c` at the cursor.
pub fn type_char(buf: &mut String, cursor: &mut usize, c: char)
    requires
        on_boundary(old(buf)@, *old(cursor) as nat),
        byte_len(old(buf)@) + 4 < usize::MAX,
    ensures
        (final(buf)@, *final(cursor) as nat) == typed(old(buf)@, *old(cursor) as nat, c),
        on_boundary(final(buf)@, *final(cursor) as nat),
        byte_len(final(buf)@) == byte_len(old(buf)@) + utf8_width(c),
{
    let v = chars_of(buf.as_str());
    let k = cursor_index(&v, *cursor);
    proof {
        lemma_typed(v@, *cursor as nat, c);
        lemma_boundary(v@, *cursor as nat);
    }
    *buf = inserted_string(&v, k, c);
    *cursor = *cursor + crate::editor::char_width(c);
}

/// Type a line feed at the cursor unless the text already holds the
/// limit of line feeds.
pub fn type_newline(buf: &mut String, cursor: &mut usize)
    requires
        on_boundary(old(buf)@, *old(cursor) as nat),
        byte_len(old(buf)@) + 4 < usize::MAX,
    ensures
        (final(buf)@, *final(cursor) as nat) == newline_typed(old(buf)@, *old(cursor) as nat),
        on_boundary(final(buf)@, *final(cursor) as nat),
        byte_len(final(buf)@) <= byte_len(old(buf)@) + 1,
{
    let v = chars_of(buf.as_str());
    if count_newlines(&v) < MAX_INPUT_NEWLINES {
        type_char(buf, cursor, '\n');
    }
}

/// Delete the character before the cursor.
pub fn backspace(buf: &mut String, cursor: &mut usize)
    requires
        on_boundary(old(buf)@, *old(cursor) as nat),
        byte_len(old(buf)@) < usize::MAX,
    ensures
        (final(buf)@, *final(cursor) as nat) == backspaced(old(buf)@, *old(cursor) as nat),
        on_boundary(final(buf)@, *final(cursor) as nat),
        byte_len(final(buf)@) <= byte_len(old(buf)@),
{
    if *cursor > 0 {
        let v = chars_of(buf.as_str());
        let k = cursor_index(&v, *cursor);
        proof {
            lemma_boundary(v@, *cursor as nat);
            if k == 0 {
                assert(v@.take(0) =~= Seq::<char>::empty());
            }
        }
        assert(k > 0);
        let w = crate::editor::char_width(v[k - 1]);
        proof {
            lemma_byte_len_take(v@, k - 1);
            lemma_removed(v@, k - 1);
            lemma_char_at_prefix(remove_at(v@, k - 1), (k - 1) as nat);
        }
        *buf = removed_string(&v, k - 1);
        *cursor = *cursor - w;
    }
}

/// Delete the character at the cursor.
pub fn delete_forward(buf: &mut String, cursor: usize)
    requires
        on_boundary(old(buf)@, cursor as nat),
        byte_len(old(buf)@) < usize::MAX,
    ensures
        final(buf)@ == deleted(old(buf)@, cursor as nat),
        on_boundary(final(buf)@, cursor as nat),
        byte_len(final(buf)@) <= byte_len(old(buf)@),
{
    let v = chars_of(buf.as_str());
    let n = bytes_of(&v);
    if cursor < n {
        let k = cursor_index(&v, cursor);
        proof {
            lemma_boundary(v@, cursor as nat);
            if k == v@.len() {
                assert(v@.take(k as int) =~= v@);
            }
        }
        assert(k < v@.len());
        proof {
            lemma_removed(v@, k as int);
            lemma_char_at_prefix(remove_at(v@, k as int), k as nat);
        }
        *buf = removed_string(&v, k);
    }
}

/// The cursor moved one character to the left.
pub fn cursor_left(buf: &String, cursor: usize) -> (r: usize)
    requires
        on_boundary(buf@, cursor as nat),
        byte_len(buf@) < usize::MAX,
    ensures
        r == moved_left(buf@, cursor as nat),
        on_boundary(buf@, r as nat),
{
    if cursor == 0 {
        return 0;
    }
    let v = chars_of(buf.as_str());
    let k = cursor_index(&v, cursor);
    proof {
        lemma_boundary(v@, cursor as nat);
        if k == 0 {
            assert(v@.take(0) =~= Seq::<char>::empty());
        }
        lemma_byte_len_take(v@, k - 1);
        lemma_char_at_prefix(v@, (k - 1) as nat);
    }
    cursor - crate::editor::char_width(v[k - 1])
}

/// The cursor moved one character to the right.
pub fn cursor_right(buf: &String, cursor: usize) -> (r: usize)
    requires
        on_boundary(buf@, cursor as nat),
        byte_len(buf@) < usize::MAX,
    ensures
        r == moved_right(buf@, cursor as nat),
        on_boundary(buf@, r as nat),
{
    let v = chars_of(buf.as_str());
    let n = bytes_of(&v);
    if cursor >= n {
        return cursor;
    }
    let k = cursor_index(&v, cursor);
    proof {
        lemma_boundary(v@, cursor as nat);
        if k == v@.len() {
            assert(v@.take(k as int) =~= v@);
        }
        lemma_byte_len_take(v@, k as int);
        lemma_byte_len_monotone(v@, k + 1, v@.len() as int);
        assert(v@.take(v@.len() as int) =~= v@);
        lemma_char_at_prefix(v@, (k + 1) as nat);
    }
    cursor + crate::editor::char_width(v[k])
}

/// The byte length of a text, where the cursor goes on End.
pub fn end_of(buf: &String) -> (r: usize)
    requires
        byte_len(buf@) < usize::MAX,
    ensures
        r == byte_len(buf@),
        on_boundary(buf@, r as nat),
{
    let v = chars_of(buf.as_str());
    proof {
        assert(v@.take(v@.len() as int) =~= v@);
        lemma_char_at_prefix(v@, v@.len());
    }
    bytes_of(&v)
}

/// The start of every text is a boundary.
pub proof fn lemma_start_boundary(s: Seq<char>)
    ensures
        on_boundary(s, 0),
{
    assert(s.take(0) =~= Seq::<char>::empty());
    lemma_char_at_prefix(s, 0);
}

/// Paste `text` at the cursor: line feeds as typed newlines, control
/// characters dropped.
pub fn paste(buf: &mut String, cursor: &mut usize, text: &str)
    requires
        on_boundary(old(buf)@, *old(cursor) as nat),
        byte_len(old(buf)@) + 4 * text@.len() + 4 < usize::MAX,
    ensures
        (final(buf)@, *final(cursor) as nat) == pasted(old(buf)@, *old(cursor) as nat, text@),
        on_boundary(final(buf)@, *final(cursor) as nat),
{
    let t = chars_of(text);
    let mut i: usize = 0;
    assert(t@.take(0) =~= Seq::<char>::empty());
    while i < t.len()
        invariant
            i <= t@.len(),
            t@ == text@,
            on_boundary(buf@, *cursor as nat),
            (buf@, *cursor as nat) == pasted(old(buf)@, *old(cursor) as nat, t@.take(i as int)),
            byte_len(buf@) <= byte_len(old(buf)@) + 4 * i,
            byte_len(old(buf)@) + 4 * t@.len() + 4 < usize::MAX,
        decreases t@.len() - i,
    {
        let c = t[i];
        proof {
            assert(t@.take(i + 1).drop_last() =~= t@.take(i as int));
            assert(t@.take(i + 1).last() == c);
            assert(4 * i + 4 <= 4 * t@.len()) by (nonlinear_arith)
                requires
                    i < t@.len(),
            ;
        }
        if c == '\n' {
            type_newline(buf, cursor);
        } else if !control_char(c) {
            type_char(buf, cursor, c);
        }
        proof {
            assert(utf8_width(c) <= 4);
        }
        i = i + 1;
    }
    assert(t@.take(i as int) =~= text@);
}

/// Whether a character is a control character.
pub fn control_char(c: char) -> (r: bool)
    ensures
        r == is_control(c),
{
    let u = c as u32;
    u < 0x20 || (0x7f <= u && u <= 0x9f)
}

} // verus!
