//! The editable text buffer and the cursor that tracks a position in it.

use vstd::prelude::*;

verus! {

/// The content after an in-range insertion: the prefix up to `position`,
/// then `text`, then the rest of the original content.
pub open spec fn spec_insert(content: Seq<char>, position: int, text: Seq<char>) -> Seq<char> {
    content.subrange(0, position) + text + content.subrange(position, content.len() as int)
}

/// The content after deleting the half-open range `[start, end)`.
pub open spec fn spec_delete(content: Seq<char>, start: int, end: int) -> Seq<char> {
    content.subrange(0, start) + content.subrange(end, content.len() as int)
}

/// Inserting `text` at `position` and then deleting the same range gives
/// back the original content, for every in-range `position`.
pub proof fn lemma_insert_delete_roundtrip(content: Seq<char>, position: int, text: Seq<char>)
    requires
        0 <= position <= content.len(),
    ensures
        spec_delete(spec_insert(content, position, text), position, position + text.len())
            == content,
{
    assert(spec_delete(spec_insert(content, position, text), position, position + text.len())
        =~= content);
}

/// One editable text blob, its optional file association, and whether it
/// has been changed since the last successful save.
pub struct Buffer {
    pub content: String,
    pub file_path: Option<String>,
    pub modified: bool,
}

impl Buffer {
    /// An empty buffer with no file association.
    pub fn new() -> (buffer: Buffer)
        ensures
            buffer.content@ == Seq::<char>::empty(),
            buffer.file_path is None,
            !buffer.modified,
    {
        Buffer { content: String::new(), file_path: None, modified: false }
    }

    /// A buffer over text that the caller has already read from `path`.
    /// Reading the file itself is input work and happens outside the
    /// library; this records the association and starts unmodified.
    pub fn from_file(path: String, content: String) -> (buffer: Buffer)
        ensures
            buffer.content@ == content@,
            buffer.file_path == Some(path),
            !buffer.modified,
    {
        Buffer { content, file_path: Some(path), modified: false }
    }

    /// Splices `text` into the content at `position` and marks the buffer
    /// modified. A `position` past the end of the content is ignored and
    /// leaves the buffer exactly as it was.
    pub fn insert(&mut self, position: usize, text: &str)
        ensures
            position <= old(self).content@.len() ==> {
                &&& final(self).content@ == spec_insert(
                    old(self).content@,
                    position as int,
                    text@,
                )
                &&& final(self).modified
                &&& final(self).file_path == old(self).file_path
            },
            position > old(self).content@.len() ==> *final(self) == *old(self),
    {
        let len = self.content.as_str().unicode_len();
        if position <= len {
            let mut new_content = String::from_str(self.content.as_str().substring_char(
                0,
                position,
            ));
            new_content.append(text);
            new_content.append(self.content.as_str().substring_char(position, len));
            self.content = new_content;
            self.modified = true;
        }
    }

    /// Removes the half-open range `[start, end)` and marks the buffer
    /// modified. Unless `start < end <= len(content)`, the request is
    /// ignored and the buffer is left exactly as it was.
    pub fn delete(&mut self, start: usize, end: usize)
        ensures
            start < end && end <= old(self).content@.len() ==> {
                &&& final(self).content@ == spec_delete(
                    old(self).content@,
                    start as int,
                    end as int,
                )
                &&& final(self).modified
                &&& final(self).file_path == old(self).file_path
            },
            !(start < end && end <= old(self).content@.len()) ==> *final(self) == *old(self),
    {
        let len = self.content.as_str().unicode_len();
        if start < end && end <= len {
            let mut new_content = String::from_str(self.content.as_str().substring_char(0, start));
            new_content.append(self.content.as_str().substring_char(end, len));
            self.content = new_content;
            self.modified = true;
        }
    }

    /// Clears the modified flag and touches nothing else. The save path
    /// calls this once the content has been written to the associated
    /// file; on a failed write it is not called and the buffer keeps its
    /// state, modified flag included.
    pub fn mark_saved(&mut self)
        ensures
            final(self).content == old(self).content,
            final(self).file_path == old(self).file_path,
            !final(self).modified,
    {
        self.modified = false;
    }
}

/// How many line breaks the sequence holds.
pub open spec fn count_newlines(s: Seq<char>) -> nat
    decreases s.len(),
{
    if s.len() == 0 {
        0
    } else {
        count_newlines(s.drop_last()) + if s.last() == '\n' {
            1nat
        } else {
            0nat
        }
    }
}

/// Whether the sequence holds a line break at all.
pub open spec fn has_newline(s: Seq<char>) -> bool {
    exists|i: int| 0 <= i < s.len() && s[i] == '\n'
}

/// The index of the last line break, or -1 when there is none.
pub open spec fn last_newline(s: Seq<char>) -> int
    decreases s.len(),
{
    if s.len() == 0 {
        -1
    } else if s.last() == '\n' {
        s.len() - 1
    } else {
        last_newline(s.drop_last())
    }
}

/// The column derived from the content prefix before the cursor: the
/// prefix length minus one past the last line break, or the full prefix
/// length when the prefix holds no line break.
pub open spec fn spec_column(prefix: Seq<char>) -> int {
    if has_newline(prefix) {
        prefix.len() - last_newline(prefix) - 1
    } else {
        prefix.len() as int
    }
}

proof fn lemma_count_newlines_push(s: Seq<char>, c: char)
    ensures
        count_newlines(s.push(c)) == count_newlines(s) + if c == '\n' {
            1nat
        } else {
            0nat
        },
{
    assert(s.push(c).drop_last() =~= s);
}

proof fn lemma_column_push(s: Seq<char>, c: char)
    ensures
        c == '\n' ==> spec_column(s.push(c)) == 0,
        c != '\n' ==> spec_column(s.push(c)) == spec_column(s) + 1,
{
    let t = s.push(c);
    assert(t.drop_last() =~= s);
    if c == '\n' {
        assert(t[s.len() as int] == '\n');
        assert(has_newline(t));
    } else {
        if has_newline(s) {
            let i = choose|i: int| 0 <= i < s.len() && s[i] == '\n';
            assert(t[i] == '\n');
            assert(has_newline(t));
        }
        if has_newline(t) {
            let i = choose|i: int| 0 <= i < t.len() && t[i] == '\n';
            assert(i < s.len());
            assert(s[i] == '\n');
            assert(has_newline(s));
        }
    }
}

proof fn lemma_remove_insert(s: Seq<Buffer>, i: int, v: Buffer)
    requires
        0 <= i < s.len(),
    ensures
        s.remove(i).insert(i, v) == s.update(i, v),
{
    assert(s.remove(i).insert(i, v) =~= s.update(i, v));
}

/// A single insertion cursor: the absolute offset is the source of truth,
/// and line and column are recomputed from it and the content together.
#[derive(Clone, Copy, Debug, PartialEq, Eq, Structural)]
pub struct Cursor {
    pub position: usize,
    pub line: usize,
    pub column: usize,
}

impl Default for Cursor {
    fn default() -> (cursor: Cursor)
        ensures
            cursor.position == 0,
            cursor.line == 0,
            cursor.column == 0,
    {
        Cursor { position: 0, line: 0, column: 0 }
    }
}

/// The buffers under edit, the index of the active one, and the cursor
/// into the active buffer.
pub struct Editor {
    pub buffers: Vec<Buffer>,
    pub active_buffer: usize,
    pub cursor: Cursor,
}

impl Editor {
    /// There is a buffer at the active index.
    pub open spec fn has_active(self) -> bool {
        self.active_buffer < self.buffers@.len()
    }

    /// The content of the active buffer.
    pub open spec fn active_content(self) -> Seq<char> {
        self.buffers@[self.active_buffer as int].content@
    }

    /// One empty unnamed buffer, active, with the cursor at the origin.
    pub fn new() -> (editor: Editor)
        ensures
            editor.buffers@.len() == 1,
            editor.buffers@[0].content@ == Seq::<char>::empty(),
            editor.buffers@[0].file_path is None,
            !editor.buffers@[0].modified,
            editor.active_buffer == 0,
            editor.cursor == (Cursor { position: 0, line: 0, column: 0 }),
    {
        Editor {
            buffers: vec![Buffer::new()],
            active_buffer: 0,
            cursor: Cursor { position: 0, line: 0, column: 0 },
        }
    }

    /// Adds a buffer over text the caller has read from `path` and makes
    /// it the active one. The cursor is left where it was.
    pub fn open_file(&mut self, path: String, content: String)
        ensures
            final(self).buffers@.len() == old(self).buffers@.len() + 1,
            forall|j: int| #![auto]
                0 <= j < old(self).buffers@.len() ==> final(self).buffers@[j] == old(
                    self,
                ).buffers@[j],
            final(self).buffers@.last().content@ == content@,
            final(self).buffers@.last().file_path == Some(path),
            !final(self).buffers@.last().modified,
            final(self).active_buffer == old(self).buffers@.len(),
            final(self).cursor == old(self).cursor,
    {
        let buffer = Buffer::from_file(path, content);
        self.buffers.push(buffer);
        self.active_buffer = self.buffers.len() - 1;
    }

    /// The active buffer, or nothing when the active index is out of
    /// range.
    pub fn get_active_buffer(&self) -> (buffer: Option<&Buffer>)
        ensures
            match buffer {
                Some(b) => self.has_active() && *b == self.buffers@[self.active_buffer as int],
                None => !self.has_active(),
            },
    {
        if self.active_buffer < self.buffers.len() {
            Some(&self.buffers[self.active_buffer])
        } else {
            None
        }
    }

    /// Moves the cursor to `position` in the active buffer and recomputes
    /// line and column from the content prefix before it: the line is the
    /// number of line breaks in the prefix, the column the distance past
    /// the last of them (or the whole prefix length when it has none). A
    /// `position` past the end of the content, or a missing active
    /// buffer, leaves the cursor untouched.
    pub fn move_cursor(&mut self, position: usize)
        ensures
            final(self).buffers == old(self).buffers,
            final(self).active_buffer == old(self).active_buffer,
            old(self).has_active() && position <= old(self).active_content().len() ==> ({
                let prefix = old(self).active_content().subrange(0, position as int);
                &&& final(self).cursor.position == position
                &&& final(self).cursor.line == count_newlines(prefix)
                &&& final(self).cursor.column == spec_column(prefix)
            }),
            !(old(self).has_active() && position <= old(self).active_content().len())
                ==> final(self).cursor == old(self).cursor,
    {
        let ab = self.active_buffer;
        if ab >= self.buffers.len() {
            return ;
        }
        let content = self.buffers[ab].content.clone();
        let content_len = content.as_str().unicode_len();
        if position > content_len {
            return ;
        }
        let mut line: usize = 0;
        let mut column: usize = 0;
        let mut i: usize = 0;
        while i < position
            invariant
                i <= position,
                position <= content@.len(),
                content@ == old(self).active_content(),
                line <= i,
                column <= i,
                line == count_newlines(content@.subrange(0, i as int)),
                column == spec_column(content@.subrange(0, i as int)),
            decreases position - i,
        {
            let c = content.as_str().get_char(i);
            proof {
                let pre = content@.subrange(0, i as int);
                lemma_count_newlines_push(pre, content@[i as int]);
                lemma_column_push(pre, content@[i as int]);
                assert(content@.subrange(0, i as int + 1) =~= pre.push(content@[i as int]));
            }
            if c == '\n' {
                line = line + 1;
                column = 0;
            } else {
                column = column + 1;
            }
            i = i + 1;
        }
        self.cursor = Cursor { position, line, column };
    }

    /// Inserts `text` into the active buffer at the cursor. Only when the
    /// buffer actually grew does the cursor advance to the end of the
    /// inserted text, so an out-of-range insertion (and an empty `text`)
    /// leaves the cursor where it was.
    pub fn insert_text(&mut self, text: &str)
        ensures
            !old(self).has_active() ==> *final(self) == *old(self),
            old(self).has_active() ==> ({
                let ab = old(self).active_buffer as int;
                let content = old(self).active_content();
                let position = old(self).cursor.position;
                &&& final(self).active_buffer == old(self).active_buffer
                &&& final(self).buffers@.len() == old(self).buffers@.len()
                &&& forall|j: int| #![auto]
                    0 <= j < old(self).buffers@.len() && j != ab ==> final(self).buffers@[j] == old(
                        self,
                    ).buffers@[j]
                &&& position <= content.len() ==> ({
                    let new_content = spec_insert(content, position as int, text@);
                    &&& final(self).buffers@[ab].content@ == new_content
                    &&& final(self).buffers@[ab].modified
                    &&& final(self).buffers@[ab].file_path == old(self).buffers@[ab].file_path
                    &&& text@.len() > 0 ==> ({
                        let prefix = new_content.subrange(0, position + text@.len());
                        &&& final(self).cursor.position == position + text@.len()
                        &&& final(self).cursor.line == count_newlines(prefix)
                        &&& final(self).cursor.column == spec_column(prefix)
                    })
                    &&& text@.len() == 0 ==> final(self).cursor == old(self).cursor
                })
                &&& position > content.len() ==> ({
                    &&& final(self).buffers@[ab] == old(self).buffers@[ab]
                    &&& final(self).cursor == old(self).cursor
                })
            }),
    {
        let position = self.cursor.position;
        let ab = self.active_buffer;
        if ab < self.buffers.len() {
            let mut buffer = self.buffers.remove(ab);
            let old_len = buffer.content.as_str().unicode_len();
            buffer.insert(position, text);
            let new_len = buffer.content.as_str().unicode_len();
            let grew = new_len > old_len;
            proof {
                lemma_remove_insert(old(self).buffers@, ab as int, buffer);
            }
            self.buffers.insert(ab, buffer);
            if grew {
                let text_len = text.unicode_len();
                self.move_cursor(position + text_len);
            }
        }
    }

    /// Deletes up to `count` characters before the cursor from the active
    /// buffer and moves the cursor to the start of the removed range.
    pub fn delete_text(&mut self, count: usize)
        ensures
            !old(self).has_active() ==> *final(self) == *old(self),
            old(self).has_active() ==> ({
                let ab = old(self).active_buffer as int;
                let content = old(self).active_content();
                let position = old(self).cursor.position;
                let start = if count > position {
                    0int
                } else {
                    position - count
                };
                &&& final(self).active_buffer == old(self).active_buffer
                &&& final(self).buffers@.len() == old(self).buffers@.len()
                &&& forall|j: int| #![auto]
                    0 <= j < old(self).buffers@.len() && j != ab ==> final(self).buffers@[j] == old(
                        self,
                    ).buffers@[j]
                &&& (start < position && position <= content.len()) ==> ({
                    let new_content = spec_delete(content, start, position as int);
                    let prefix = new_content.subrange(0, start);
                    &&& final(self).buffers@[ab].content@ == new_content
                    &&& final(self).buffers@[ab].modified
                    &&& final(self).buffers@[ab].file_path == old(self).buffers@[ab].file_path
                    &&& final(self).cursor.position == start
                    &&& final(self).cursor.line == count_newlines(prefix)
                    &&& final(self).cursor.column == spec_column(prefix)
                })
                &&& !(start < position && position <= content.len()) ==> ({
                    let prefix = content.subrange(0, start);
                    &&& final(self).buffers@[ab] == old(self).buffers@[ab]
                    &&& start <= content.len() ==> ({
                        &&& final(self).cursor.position == start
                        &&& final(self).cursor.line == count_newlines(prefix)
                        &&& final(self).cursor.column == spec_column(prefix)
                    })
                    &&& start > content.len() ==> final(self).cursor == old(self).cursor
                })
            }),
    {
        let position = self.cursor.position;
        let start: usize = if count > position {
            0
        } else {
            position - count
        };
        let ab = self.active_buffer;
        if ab < self.buffers.len() {
            let mut buffer = self.buffers.remove(ab);
            buffer.delete(start, position);
            proof {
                lemma_remove_insert(old(self).buffers@, ab as int, buffer);
            }
            self.buffers.insert(ab, buffer);
            self.move_cursor(start);
        }
    }
}

} // verus!
