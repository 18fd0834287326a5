//! The context-file editor: a text buffer with a line/column cursor and a
//! scroll offset. Columns and positions are counted in UTF-8 bytes.

use vstd::prelude::*;
use crate::text::{chars_of, push_char, string_from_chars};

verus! {

broadcast use vstd::string::group_string_axioms;

/// Number of bytes of the UTF-8 encoding of a character.
pub open spec fn utf8_width(c: char) -> nat {
    let u = c as u32;
    if u < 0x80 {
        1
    } else if u < 0x800 {
        2
    } else if u < 0x10000 {
        3
    } else {
        4
    }
}

/// Number of bytes of the UTF-8 encoding of a text.
pub open spec fn byte_len(s: Seq<char>) -> nat
    decreases s.len(),
{
    if s.len() == 0 {
        0
    } else {
        byte_len(s.drop_last()) + utf8_width(s.last())
    }
}

/// The lines of a text: the pieces between line feeds (there is always at
/// least one).
pub open spec fn split_lines(s: Seq<char>) -> Seq<Seq<char>>
    decreases s.len(),
{
    if s.len() == 0 {
        seq![Seq::<char>::empty()]
    } else {
        let rest = split_lines(s.drop_last());
        if s.last() == '\n' {
            rest.push(Seq::<char>::empty())
        } else {
            rest.update(rest.len() - 1, rest.last().push(s.last()))
        }
    }
}

/// Byte offset at which line `k` starts.
pub open spec fn line_start(lines: Seq<Seq<char>>, k: nat) -> nat
    decreases k,
{
    if k == 0 {
        0
    } else {
        line_start(lines, (k - 1) as nat) + byte_len(lines[k - 1]) + 1
    }
}

/// Byte offset of the cursor: within its line, clamped to the line's end;
/// past the last line, the end of the text.
pub open spec fn cursor_byte(s: Seq<char>, line: nat, col: nat) -> nat {
    let lines = split_lines(s);
    if line < lines.len() {
        line_start(lines, line) + if col < byte_len(lines[line as int]) {
            col
        } else {
            byte_len(lines[line as int])
        }
    } else {
        byte_len(s)
    }
}

/// The character position whose byte offset is `b`, searching from `k`.
pub open spec fn char_at_byte_from(s: Seq<char>, b: nat, k: nat) -> Option<nat>
    decreases s.len() - k,
{
    if k > s.len() {
        None
    } else if byte_len(s.take(k as int)) == b {
        Some(k)
    } else if k == s.len() {
        None
    } else {
        char_at_byte_from(s, b, k + 1)
    }
}

/// The character position whose byte offset is `b`, if `b` falls on a
/// character boundary.
pub open spec fn char_at_byte(s: Seq<char>, b: nat) -> Option<nat> {
    char_at_byte_from(s, b, 0)
}

/// The number of bytes of the UTF-8 encoding of `c`.
pub fn char_width(c: char) -> (w: usize)
    ensures
        w == utf8_width(c),
{
    let u = c as u32;
    if u < 0x80 {
        1
    } else if u < 0x800 {
        2
    } else if u < 0x10000 {
        3
    } else {
        4
    }
}

pub(crate) proof fn lemma_byte_len_take(s: Seq<char>, k: int)
    requires
        0 <= k < s.len(),
    ensures
        byte_len(s.take(k + 1)) == byte_len(s.take(k)) + utf8_width(s[k]),
{
    assert(s.take(k + 1).drop_last() == s.take(k));
}

pub(crate) proof fn lemma_byte_len_monotone(s: Seq<char>, j: int, k: int)
    requires
        0 <= j <= k <= s.len(),
    ensures
        byte_len(s.take(j)) + (k - j) <= byte_len(s.take(k)),
    decreases k - j,
{
    if j < k {
        lemma_byte_len_monotone(s, j, k - 1);
        lemma_byte_len_take(s, k - 1);
    }
}

/// The lines of a text, as character vectors.
fn lines_of(v: &Vec<char>) -> (r: Vec<Vec<char>>)
    ensures
        r@.map_values(|l: Vec<char>| l@) == split_lines(v@),
        r@.len() >= 1,
{
    let mut r: Vec<Vec<char>> = Vec::new();
    r.push(Vec::new());
    let mut i: usize = 0;
    assert(v@.take(0) =~= Seq::<char>::empty());
    assert(r@.map_values(|l: Vec<char>| l@) =~= split_lines(v@.take(0)));
    while i < v.len()
        invariant
            i <= v.len(),
            r@.len() >= 1,
            r@.map_values(|l: Vec<char>| l@) == split_lines(v@.take(i as int)),
        decreases v.len() - i,
    {
        let c = v[i];
        let ghost prev = r@.map_values(|l: Vec<char>| l@);
        assert(v@.take(i + 1).drop_last() == v@.take(i as int));
        assert(v@.take(i + 1).last() == c);
        if c == '\n' {
            r.push(Vec::new());
            assert(r@.map_values(|l: Vec<char>| l@) =~= prev.push(Seq::<char>::empty()));
        } else {
            let last = r.len() - 1;
            let mut line = r.remove(last);
            line.push(c);
            let ghost lv = line@;
            r.push(line);
            assert(lv == prev.last().push(c));
            assert(r@.map_values(|l: Vec<char>| l@) =~= prev.update(prev.len() - 1, prev.last().push(c)));
        }
        i = i + 1;
    }
    assert(v@.take(i as int) == v@);
    r
}

/// Byte length of a character vector.
pub(crate) fn bytes_of(v: &Vec<char>) -> (n: usize)
    requires
        byte_len(v@) < usize::MAX,
    ensures
        n == byte_len(v@),
{
    let mut n: usize = 0;
    let mut i: usize = 0;
    while i < v.len()
        invariant
            i <= v.len(),
            byte_len(v@) < usize::MAX,
            n == byte_len(v@.take(i as int)),
        decreases v.len() - i,
    {
        proof {
            lemma_byte_len_take(v@, i as int);
            lemma_byte_len_monotone(v@, i + 1, v@.len() as int);
            assert(v@.take(v@.len() as int) == v@);
        }
        n = n + char_width(v[i]);
        i = i + 1;
    }
    assert(v@.take(i as int) == v@);
    n
}


/// Line starts only look at the lines before.
pub(crate) proof fn lemma_line_start_prefix(a: Seq<Seq<char>>, b: Seq<Seq<char>>, k: nat)
    requires
        k <= a.len(),
        k <= b.len(),
        forall|i: int| 0 <= i < k ==> a[i] == b[i],
    ensures
        line_start(a, k) == line_start(b, k),
    decreases k,
{
    if k > 0 {
        lemma_line_start_prefix(a, b, (k - 1) as nat);
    }
}

/// The last line ends where the text ends.
pub(crate) proof fn lemma_lines_total(s: Seq<char>)
    ensures
        split_lines(s).len() >= 1,
        line_start(split_lines(s), (split_lines(s).len() - 1) as nat) + byte_len(split_lines(s).last())
            == byte_len(s),
    decreases s.len(),
{
    if s.len() > 0 {
        let t = s.drop_last();
        lemma_lines_total(t);
        let lt = split_lines(t);
        let ls = split_lines(s);
        let n = lt.len();
        if s.last() == '\n' {
            assert(ls == lt.push(Seq::<char>::empty()));
            lemma_line_start_prefix(ls, lt, (n - 1) as nat);
            assert(line_start(ls, n as nat) == line_start(ls, (n - 1) as nat) + byte_len(ls[n - 1]) + 1);
            assert(byte_len(Seq::<char>::empty()) == 0);
        } else {
            assert(ls == lt.update(n - 1, lt.last().push(s.last())));
            lemma_line_start_prefix(ls, lt, (n - 1) as nat);
            assert(lt.last().push(s.last()).drop_last() == lt.last());
        }
    }
}

/// Earlier lines end no later than later ones.
pub(crate) proof fn lemma_line_end_monotone(lines: Seq<Seq<char>>, j: nat, k: nat)
    requires
        j <= k < lines.len(),
    ensures
        line_start(lines, j) + byte_len(lines[j as int]) <= line_start(lines, k) + byte_len(lines[k as int]),
        j < k ==> line_start(lines, j) + byte_len(lines[j as int]) + 1 <= line_start(lines, k),
    decreases k - j,
{
    if j < k {
        lemma_line_end_monotone(lines, j, (k - 1) as nat);
    }
}

/// Every line ends within the text.
pub(crate) proof fn lemma_line_within(s: Seq<char>, k: nat)
    requires
        k < split_lines(s).len(),
    ensures
        line_start(split_lines(s), k) + byte_len(split_lines(s)[k as int]) <= byte_len(s),
{
    lemma_lines_total(s);
    lemma_line_end_monotone(split_lines(s), k, (split_lines(s).len() - 1) as nat);
}

/// Byte length of line `k`, or 0 past the last line.
pub open spec fn line_bytes(s: Seq<char>, k: nat) -> nat {
    if k < split_lines(s).len() {
        byte_len(split_lines(s)[k as int])
    } else {
        0
    }
}

/// State for editing a single context file.
#[derive(Debug, Clone, PartialEq, Eq)]
pub struct EditContextFileState {
    pub agent_id: String,
    pub filename: String,
    pub content: String,
    pub cursor_line: usize,
    pub cursor_col: usize,
    pub scroll_offset: usize,
    pub is_dirty: bool,
    pub is_loading: bool,
    pub is_new_file: bool,
}

/// Whether a character can be inserted at the cursor: its byte offset falls
/// on a character boundary.
pub open spec fn can_insert(s: EditContextFileState) -> bool {
    char_at_byte(s.content@, cursor_byte(s.content@, s.cursor_line as nat, s.cursor_col as nat)) is Some
}

/// Whether backspace at the cursor is well defined: at the very start it
/// does nothing; otherwise the cursor's offset falls on a character
/// boundary, and the cursor line (for a removed line feed) or column (for
/// another character) can step back.
pub open spec fn can_delete(s: EditContextFileState) -> bool {
    let text = s.content@;
    let b = cursor_byte(text, s.cursor_line as nat, s.cursor_col as nat);
    (s.cursor_col == 0 && s.cursor_line == 0) || b == 0 || match char_at_byte(text, b) {
        Some(k) => if text[k - 1] == '\n' { s.cursor_line >= 1 } else { s.cursor_col >= 1 },
        None => false,
    }
}

/// The editor after the cursor moved up a line, its column kept within
/// the line; on the first line nothing changes.
pub open spec fn moved_up(b: EditContextFileState, a: EditContextFileState) -> bool {
    if b.cursor_line > 0 {
        let w = line_bytes(b.content@, (b.cursor_line - 1) as nat);
        a == (EditContextFileState {
            cursor_line: (b.cursor_line - 1) as usize,
            cursor_col: if b.cursor_col < w { b.cursor_col } else { w as usize },
            ..b
        })
    } else {
        a == b
    }
}

/// The editor after the cursor moved down a line, if there is one, its
/// column kept within the line.
pub open spec fn moved_down(b: EditContextFileState, a: EditContextFileState) -> bool {
    if b.cursor_line + 1 < split_lines(b.content@).len() {
        let w = line_bytes(b.content@, (b.cursor_line + 1) as nat);
        a == (EditContextFileState {
            cursor_line: (b.cursor_line + 1) as usize,
            cursor_col: if b.cursor_col < w { b.cursor_col } else { w as usize },
            ..b
        })
    } else {
        a == b
    }
}

/// The editor after the cursor moved left; from the start of a line it goes
/// to the end of the previous one.
pub open spec fn moved_back(b: EditContextFileState, a: EditContextFileState) -> bool {
    if b.cursor_col > 0 {
        a == (EditContextFileState { cursor_col: (b.cursor_col - 1) as usize, ..b })
    } else if b.cursor_line > 0 {
        a == (EditContextFileState {
            cursor_line: (b.cursor_line - 1) as usize,
            cursor_col: line_bytes(b.content@, (b.cursor_line - 1) as nat) as usize,
            ..b
        })
    } else {
        a == b
    }
}

/// The editor after the cursor moved right; from the end of a line it goes
/// to the start of the next one, if there is one.
pub open spec fn moved_forward(b: EditContextFileState, a: EditContextFileState) -> bool {
    if b.cursor_col < line_bytes(b.content@, b.cursor_line as nat) {
        a == (EditContextFileState { cursor_col: (b.cursor_col + 1) as usize, ..b })
    } else if b.cursor_line + 1 < split_lines(b.content@).len() {
        a == (EditContextFileState { cursor_line: (b.cursor_line + 1) as usize, cursor_col: 0, ..b })
    } else {
        a == b
    }
}

/// The editor scrolled so that the cursor line is among the `n` lines
/// shown.
pub open spec fn scrolled_to_cursor(b: EditContextFileState, a: EditContextFileState, n: nat) -> bool {
    a == (EditContextFileState {
        scroll_offset: if n == 0 {
            b.scroll_offset
        } else if b.cursor_line < b.scroll_offset {
            b.cursor_line
        } else if b.cursor_line >= b.scroll_offset + n {
            (b.cursor_line - n + 1) as usize
        } else {
            b.scroll_offset
        },
        ..b
    })
}

/// The editor after `c` is inserted at the cursor: a line feed starts a new
/// line, anything else moves the cursor one column on.
pub open spec fn char_inserted(b: EditContextFileState, a: EditContextFileState, c: char) -> bool {
    let k = char_at_byte(b.content@, cursor_byte(b.content@, b.cursor_line as nat, b.cursor_col as nat))->0 as int;
    &&& a.content@ =~= b.content@.take(k) + seq![c] + b.content@.skip(k)
    &&& c == '\n' ==> a.cursor_line == b.cursor_line + 1 && a.cursor_col == 0
    &&& c != '\n' ==> a.cursor_line == b.cursor_line && a.cursor_col == b.cursor_col + 1
    &&& a.is_dirty
    &&& a.agent_id == b.agent_id
    &&& a.filename == b.filename
    &&& a.scroll_offset == b.scroll_offset
    &&& a.is_loading == b.is_loading
    &&& a.is_new_file == b.is_new_file
}

/// The editor after backspace: at the very start nothing changes; else the
/// character before the cursor goes, and removing a line feed puts the
/// cursor at the end of the joined line.
pub open spec fn char_deleted(b: EditContextFileState, a: EditContextFileState) -> bool {
    let text = b.content@;
    let pos = cursor_byte(text, b.cursor_line as nat, b.cursor_col as nat);
    if (b.cursor_col == 0 && b.cursor_line == 0) || pos == 0 {
        a == b
    } else {
        let k = char_at_byte(text, pos)->0 as int;
        let ch = text[k - 1];
        let new_text = text.take(k - 1) + text.skip(k);
        &&& a.content@ =~= new_text
        &&& a.is_dirty
        &&& if ch == '\n' {
            &&& a.cursor_line == b.cursor_line - 1
            &&& a.cursor_col == line_bytes(new_text, (b.cursor_line - 1) as nat)
        } else {
            &&& a.cursor_line == b.cursor_line
            &&& a.cursor_col == b.cursor_col - 1
        }
        &&& a.agent_id == b.agent_id
        &&& a.filename == b.filename
        &&& a.scroll_offset == b.scroll_offset
        &&& a.is_loading == b.is_loading
        &&& a.is_new_file == b.is_new_file
    }
}

pub(crate) fn find_char_at_byte(v: &Vec<char>, b: usize) -> (r: Option<usize>)
    requires
        byte_len(v@) < usize::MAX,
    ensures
        match r {
            Some(k) => char_at_byte(v@, b as nat) == Some(k as nat),
            None => char_at_byte(v@, b as nat) is None,
        },
{
    let mut acc: usize = 0;
    let mut k: usize = 0;
    assert(v@.take(0) =~= Seq::<char>::empty());
    while k < v.len()
        invariant
            k <= v.len(),
            byte_len(v@) < usize::MAX,
            acc == byte_len(v@.take(k as int)),
            char_at_byte(v@, b as nat) == char_at_byte_from(v@, b as nat, k as nat),
        decreases v.len() - k,
    {
        if acc == b {
            return Some(k);
        }
        proof {
            lemma_byte_len_take(v@, k as int);
            lemma_byte_len_monotone(v@, k + 1, v@.len() as int);
            assert(v@.take(v@.len() as int) == v@);
        }
        acc = acc + char_width(v[k]);
        k = k + 1;
    }
    if acc == b {
        Some(k)
    } else {
        None
    }
}

impl EditContextFileState {
    /// An editor on a file's content, cursor at the top; an empty content
    /// is a new file.
    pub fn new(agent_id: String, filename: String, content: String) -> (s: EditContextFileState)
        ensures
            s.agent_id == agent_id,
            s.filename == filename,
            s.content == content,
            s.cursor_line == 0,
            s.cursor_col == 0,
            s.scroll_offset == 0,
            !s.is_dirty,
            !s.is_loading,
            s.is_new_file == (content@.len() == 0),
    {
        let is_new_file = content.as_str().is_empty();
        EditContextFileState {
            agent_id,
            filename,
            content,
            cursor_line: 0,
            cursor_col: 0,
            scroll_offset: 0,
            is_dirty: false,
            is_loading: false,
            is_new_file,
        }
    }

    /// The lines of the content.
    pub fn lines(&self) -> (r: Vec<String>)
        ensures
            r@.map_values(|l: String| l@) == split_lines(self.content@),
    {
        let v = chars_of(self.content.as_str());
        let ls = lines_of(&v);
        let mut r: Vec<String> = Vec::new();
        let mut i: usize = 0;
        while i < ls.len()
            invariant
                i <= ls.len(),
                ls@.map_values(|l: Vec<char>| l@) == split_lines(self.content@),
                r@.map_values(|l: String| l@) == ls@.take(i as int).map_values(|l: Vec<char>| l@),
            decreases ls.len() - i,
        {
            let line = string_from_chars(&ls[i], 0, ls[i].len());
            assert(ls[i as int]@.subrange(0, ls[i as int]@.len() as int) == ls[i as int]@);
            let ghost before = r@;
            r.push(line);
            assert(r@.map_values(|l: String| l@) =~= before.map_values(|l: String| l@).push(ls@[i as int]@));
            assert(ls@.take(i + 1).map_values(|l: Vec<char>| l@) =~= ls@.take(i as int).map_values(|l: Vec<char>| l@).push(ls@[i as int]@));
            i = i + 1;
        }
        assert(ls@.take(i as int) == ls@);
        r
    }

    /// Total number of lines.
    pub fn line_count(&self) -> (n: usize)
        ensures
            n == split_lines(self.content@).len(),
    {
        let v = chars_of(self.content.as_str());
        lines_of(&v).len()
    }

    /// Byte length of line `k` of the content (0 past the last line).
    pub(crate) fn line_len(&self, k: usize) -> (n: usize)
        requires
            byte_len(self.content@) < usize::MAX,
        ensures
            n == line_bytes(self.content@, k as nat),
    {
        let v = chars_of(self.content.as_str());
        let ls = lines_of(&v);
        if k < ls.len() {
            proof {
                lemma_line_within(self.content@, k as nat);
                assert(ls@[k as int]@ == split_lines(self.content@)[k as int]);
            }
            bytes_of(&ls[k])
        } else {
            0
        }
    }

    /// Byte offset of the cursor in the content.
    pub fn cursor_byte_position(&self) -> (b: usize)
        requires
            byte_len(self.content@) < usize::MAX,
        ensures
            b == cursor_byte(self.content@, self.cursor_line as nat, self.cursor_col as nat),
    {
        let v = chars_of(self.content.as_str());
        let ls = lines_of(&v);
        let ghost lines = split_lines(self.content@);
        let mut pos: usize = 0;
        let mut i: usize = 0;
        while i < ls.len()
            invariant
                i <= ls.len(),
                ls@.map_values(|l: Vec<char>| l@) == lines,
                lines == split_lines(self.content@),
                v@ == self.content@,
                byte_len(self.content@) < usize::MAX,
                i < ls.len() ==> pos == line_start(lines, i as nat),
                i <= self.cursor_line,
            decreases ls.len() - i,
        {
            proof {
                lemma_line_within(self.content@, i as nat);
                assert(ls@[i as int]@ == lines[i as int]);
            }
            let n = bytes_of(&ls[i]);
            if i == self.cursor_line {
                return pos + if self.cursor_col < n { self.cursor_col } else { n };
            }
            if i + 1 < ls.len() {
                proof {
                    lemma_line_within(self.content@, (i + 1) as nat);
                    lemma_line_end_monotone(lines, i as nat, (i + 1) as nat);
                }
                pos = pos + n + 1;
            }
            i = i + 1;
        }
        bytes_of(&v)
    }

    /// Insert a character at the cursor; a line feed starts a new line.
    pub fn insert_char(&mut self, c: char)
        requires
            can_insert(*old(self)),
            byte_len(old(self).content@) < usize::MAX,
            c == '\n' ==> old(self).cursor_line < usize::MAX,
            c != '\n' ==> old(self).cursor_col < usize::MAX,
        ensures
            char_inserted(*old(self), *final(self), c),
            utf8_width(c) == 1 && old(self).cursor_line < split_lines(old(self).content@).len()
                ==> can_delete(*final(self)),
    {
        let ghost before = *self;
        let b = self.cursor_byte_position();
        let v = chars_of(self.content.as_str());
        let k = match find_char_at_byte(&v, b) {
            Some(k) => k,
            None => {
                return;
            },
        };
        assert(k <= v.len()) by {
            lemma_char_at_byte_in_range(v@, b as nat, 0);
        }
        let mut text = string_from_chars(&v, 0, k);
        push_char(&mut text, c);
        let rest = string_from_chars(&v, k, v.len());
        text.append(rest.as_str());
        assert(v@.subrange(0, k as int) == v@.take(k as int));
        assert(v@.subrange(k as int, v@.len() as int) == v@.skip(k as int));
        self.content = text;
        if c == '\n' {
            self.cursor_line = self.cursor_line + 1;
            self.cursor_col = 0;
        } else {
            self.cursor_col = self.cursor_col + 1;
        }
        self.is_dirty = true;
        proof {
            if utf8_width(c) == 1 && before.cursor_line < split_lines(before.content@).len() {
                crate::laws::lemma_editor_type_allows_backspace(before, *self, c);
            }
        }
    }
}

impl EditContextFileState {
    /// Delete the character before the cursor (backspace). Removing a line
    /// feed moves the cursor to the end of the previous line.
    pub fn delete_char(&mut self)
        requires
            can_delete(*old(self)),
            byte_len(old(self).content@) < usize::MAX,
        ensures
            char_deleted(*old(self), *final(self)),
    {
        if self.cursor_col == 0 && self.cursor_line == 0 {
            return;
        }
        let b = self.cursor_byte_position();
        if b == 0 {
            return;
        }
        let v = chars_of(self.content.as_str());
        let k = match find_char_at_byte(&v, b) {
            Some(k) => k,
            None => {
                return;
            },
        };
        assert(k <= v.len()) by {
            lemma_char_at_byte_in_range(v@, b as nat, 0);
        }
        assert(k >= 1) by {
            assert(v@.take(0) =~= Seq::<char>::empty());
            assert(byte_len(v@.take(0)) == 0);
            lemma_char_at_byte_in_range(v@, b as nat, 1);
        }
        let ch = v[k - 1];
        let mut text = string_from_chars(&v, 0, k - 1);
        let rest = string_from_chars(&v, k, v.len());
        text.append(rest.as_str());
        assert(v@.subrange(0, k - 1) == v@.take(k - 1));
        assert(v@.subrange(k as int, v@.len() as int) == v@.skip(k as int));
        proof {
            lemma_byte_len_remove(v@, k - 1);
        }
        self.content = text;
        if ch == '\n' {
            self.cursor_line = self.cursor_line - 1;
            self.cursor_col = self.line_len(self.cursor_line);
        } else {
            self.cursor_col = self.cursor_col - 1;
        }
        self.is_dirty = true;
    }

    /// Move the cursor up a line, keeping the column within the line.
    pub fn cursor_up(&mut self)
        requires
            byte_len(old(self).content@) < usize::MAX,
        ensures
            moved_up(*old(self), *final(self)),
    {
        if self.cursor_line > 0 {
            self.cursor_line = self.cursor_line - 1;
            let line_len = self.line_len(self.cursor_line);
            if line_len < self.cursor_col {
                self.cursor_col = line_len;
            }
        }
    }

    /// Move the cursor down a line (if there is one), keeping the column
    /// within the line.
    pub fn cursor_down(&mut self)
        requires
            byte_len(old(self).content@) < usize::MAX,
            old(self).cursor_line < usize::MAX,
        ensures
            moved_down(*old(self), *final(self)),
    {
        if self.cursor_line + 1 < self.line_count() {
            self.cursor_line = self.cursor_line + 1;
            let line_len = self.line_len(self.cursor_line);
            if line_len < self.cursor_col {
                self.cursor_col = line_len;
            }
        }
    }

    /// Move the cursor left; from the start of a line, to the end of the
    /// previous one.
    pub fn cursor_left(&mut self)
        requires
            byte_len(old(self).content@) < usize::MAX,
        ensures
            moved_back(*old(self), *final(self)),
    {
        if self.cursor_col > 0 {
            self.cursor_col = self.cursor_col - 1;
        } else if self.cursor_line > 0 {
            self.cursor_line = self.cursor_line - 1;
            self.cursor_col = self.line_len(self.cursor_line);
        }
    }

    /// Move the cursor right; from the end of a line, to the start of the
    /// next one (if there is one).
    pub fn cursor_right(&mut self)
        requires
            byte_len(old(self).content@) < usize::MAX,
            old(self).cursor_line < usize::MAX,
        ensures
            moved_forward(*old(self), *final(self)),
    {
        let line_len = self.line_len(self.cursor_line);
        if self.cursor_col < line_len {
            self.cursor_col = self.cursor_col + 1;
        } else if self.cursor_line + 1 < self.line_count() {
            self.cursor_line = self.cursor_line + 1;
            self.cursor_col = 0;
        }
    }

    /// Scroll so that the cursor line is among the `visible_lines` shown.
    pub fn ensure_cursor_visible(&mut self, visible_lines: usize)
        requires
            old(self).scroll_offset + visible_lines <= usize::MAX,
        ensures
            scrolled_to_cursor(*old(self), *final(self), visible_lines as nat),
            visible_lines > 0 ==> final(self).scroll_offset <= final(self).cursor_line < final(self).scroll_offset + visible_lines,
    {
        if visible_lines == 0 {
            return;
        }
        if self.cursor_line < self.scroll_offset {
            self.scroll_offset = self.cursor_line;
        } else if self.cursor_line >= self.scroll_offset + visible_lines {
            self.scroll_offset = self.cursor_line - visible_lines + 1;
        }
    }
}

/// Removing a character shortens the text's byte length.
proof fn lemma_byte_len_remove(s: Seq<char>, i: int)
    requires
        0 <= i < s.len(),
    ensures
        byte_len(s.take(i) + s.skip(i + 1)) <= byte_len(s),
    decreases s.len(),
{
    let r = s.take(i) + s.skip(i + 1);
    if i == s.len() - 1 {
        assert(r =~= s.drop_last());
    } else {
        let t = s.drop_last();
        lemma_byte_len_remove(t, i);
        assert(r.drop_last() =~= t.take(i) + t.skip(i + 1));
        assert(r.last() == s.last());
    }
}

/// A position found by the search lies within the text.
pub(crate) proof fn lemma_char_at_byte_in_range(s: Seq<char>, b: nat, k: nat)
    ensures
        char_at_byte_from(s, b, k) matches Some(j) ==> j <= s.len() && k <= j,
    decreases s.len() - k,
{
    if k <= s.len() && byte_len(s.take(k as int)) != b && k < s.len() {
        lemma_char_at_byte_in_range(s, b, k + 1);
    }
}

} // verus!
