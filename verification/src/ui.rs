//! Per-frame layout decisions: which lines of the active buffer are
//! drawn, and the viewport bookkeeping for resize events.
//!
//! The caller clears the screen, draws the title, then walks the lines
//! returned here, one text run per line at a fixed horizontal offset and
//! a fixed vertical pitch. Resizing only updates the stored pixel
//! dimensions: content is never reflowed.

use crate::editor::Editor;
use vstd::prelude::*;

verus! {

/// The content split on line breaks: one more line than there are
/// breaks, each line free of `'\n'`, in content order.
pub open spec fn spec_lines(s: Seq<char>) -> Seq<Seq<char>>
    decreases s.len(),
{
    if s.len() == 0 {
        seq![Seq::<char>::empty()]
    } else {
        let rest = spec_lines(s.drop_last());
        if s.last() == '\n' {
            rest.push(Seq::<char>::empty())
        } else {
            rest.update(rest.len() - 1, rest.last().push(s.last()))
        }
    }
}

/// Splits `s` on `'\n'` into the lines a frame draws.
pub fn split_lines(s: &str) -> (lines: Vec<String>)
    ensures
        lines.deep_view() == spec_lines(s@),
{
    let len = s.unicode_len();
    let mut lines: Vec<String> = Vec::new();
    let mut start: usize = 0;
    let mut i: usize = 0;
    proof {
        assert(s@.subrange(0, 0) =~= Seq::<char>::empty());
        assert(lines.deep_view() =~~= Seq::<Seq<char>>::empty());
        assert(lines.deep_view().push(s@.subrange(0, 0)) =~~= seq![Seq::<char>::empty()]);
    }
    while i < len
        invariant
            start <= i <= len,
            len == s@.len(),
            spec_lines(s@.subrange(0, i as int)) == lines.deep_view().push(
                s@.subrange(start as int, i as int),
            ),
        decreases len - i,
    {
        let c = s.get_char(i);
        if c == '\n' {
            let ghost previous = lines.deep_view();
            let line = String::from_str(s.substring_char(start, i));
            lines.push(line);
            proof {
                assert(lines.deep_view() =~~= previous.push(s@.subrange(start as int, i as int)));
                let t = s@.subrange(0, i as int + 1);
                assert(t.drop_last() =~= s@.subrange(0, i as int));
                assert(t.last() == '\n');
                assert(s@.subrange(i as int + 1, i as int + 1) =~= Seq::<char>::empty());
            }
            start = i + 1;
        } else {
            proof {
                let t = s@.subrange(0, i as int + 1);
                assert(t.drop_last() =~= s@.subrange(0, i as int));
                assert(t.last() == s@[i as int]);
                let rest = spec_lines(s@.subrange(0, i as int));
                let current = s@.subrange(start as int, i as int);
                assert(rest.last() == current);
                assert(rest.update(rest.len() - 1, current.push(s@[i as int])) =~~= lines.deep_view(
                ).push(current.push(s@[i as int])));
                assert(current.push(s@[i as int]) =~= s@.subrange(start as int, i as int + 1));
            }
        }
        i = i + 1;
    }
    let line = String::from_str(s.substring_char(start, len));
    let ghost previous = lines.deep_view();
    lines.push(line);
    proof {
        assert(s@.subrange(0, len as int) =~= s@);
        assert(lines.deep_view() =~~= previous.push(s@.subrange(start as int, len as int)));
    }
    lines
}

/// The lines of the active buffer, in drawing order; nothing when the
/// active index has no buffer.
pub fn visible_lines(editor: &Editor) -> (lines: Vec<String>)
    ensures
        editor.has_active() ==> lines.deep_view() == spec_lines(editor.active_content()),
        !editor.has_active() ==> lines@.len() == 0,
{
    match editor.get_active_buffer() {
        Some(buffer) => split_lines(buffer.content.as_str()),
        None => Vec::new(),
    }
}

/// The pixel rectangle the frame is drawn into.
pub struct Viewport {
    pub width: u32,
    pub height: u32,
}

impl Viewport {
    /// A viewport over the given pixel dimensions.
    pub fn new(width: u32, height: u32) -> (viewport: Viewport)
        ensures
            viewport.width == width,
            viewport.height == height,
    {
        Viewport { width, height }
    }

    /// Takes a framebuffer-resize event: the stored dimensions become the
    /// new ones, and nothing else changes anywhere.
    pub fn resize(&mut self, width: u32, height: u32)
        ensures
            final(self).width == width,
            final(self).height == height,
    {
        self.width = width;
        self.height = height;
    }

    /// Reacts to one window event. Only two kinds matter: an escape-key
    /// press asks for termination, and a framebuffer resize becomes the
    /// viewport's new dimensions. Everything else is ignored.
    pub fn react(&mut self, event: InputEvent) -> (close: bool)
        ensures
            close == (event is EscapePressed),
            event matches InputEvent::Resized { width, height } ==> final(self).width == width
                && final(self).height == height,
            !(event is Resized) ==> *final(self) == *old(self),
    {
        match event {
            InputEvent::EscapePressed => true,
            InputEvent::Resized { width, height } => {
                self.resize(width, height);
                false
            },
            InputEvent::Other => false,
        }
    }
}

/// A window event as the core sees it, already stripped of everything
/// the window system adds.
#[derive(Clone, Copy, Debug)]
pub enum InputEvent {
    EscapePressed,
    Resized { width: u32, height: u32 },
    Other,
}

} // verus!
