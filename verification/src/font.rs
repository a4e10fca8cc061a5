//! The glyph table behind the font renderer.
//!
//! The rasterizer and the GPU live outside the library: the caller
//! rasterizes one glyph per character of the fixed printable range,
//! uploads each bitmap as a texture, and hands the table of handles and
//! metrics in here. The library owns the table from then on: it answers
//! lookups, turns a line of text into the exact sequence of glyphs to
//! draw, and on teardown returns every handle it holds, each exactly
//! once, so the caller can release them.

use vstd::prelude::*;

verus! {

/// The first character of the cached range.
pub const FIRST_CHAR: u32 = 32;

/// One past the last character of the cached range.
pub const END_CHAR: u32 = 128;

/// How many characters the cache holds.
pub const GLYPH_COUNT: usize = 96;

/// Whether the cache has a glyph for `c`.
pub open spec fn spec_in_range(c: char) -> bool {
    FIRST_CHAR <= (c as u32) && (c as u32) < END_CHAR
}

/// One rasterized character: its texture handle, pixel size, bearing
/// from the pen origin, and horizontal advance to the next character.
#[derive(Clone, Copy, Debug, PartialEq, Eq)]
pub struct Character {
    pub texture_id: u32,
    pub size: (i32, i32),
    pub bearing: (i32, i32),
    pub advance: u32,
}

/// The glyphs a line of text asks to have drawn, in order: one per
/// character of the text that the cache covers, characters outside the
/// cached range silently skipped.
pub open spec fn spec_render_plan(glyphs: Seq<Character>, text: Seq<char>) -> Seq<Character>
    decreases text.len(),
{
    if text.len() == 0 {
        Seq::empty()
    } else {
        let rest = spec_render_plan(glyphs, text.drop_last());
        if spec_in_range(text.last()) {
            rest.push(glyphs[text.last() as u32 - FIRST_CHAR])
        } else {
            rest
        }
    }
}

/// The glyph cache: one `Character` per character of the fixed range,
/// plus the shared vertex buffer and vertex array handles reused for
/// every draw.
pub struct FontRenderer {
    characters: Vec<Character>,
    vbo: u32,
    vao: u32,
}

impl FontRenderer {
    /// The cached glyphs, indexed by character code minus `FIRST_CHAR`.
    pub closed spec fn glyphs(self) -> Seq<Character> {
        self.characters@
    }

    /// The table covers exactly the fixed character range.
    pub open spec fn well_formed(self) -> bool {
        self.glyphs().len() == GLYPH_COUNT
    }

    /// The shared vertex buffer handle.
    pub closed spec fn vbo_handle(self) -> u32 {
        self.vbo
    }

    /// The shared vertex array handle.
    pub closed spec fn vao_handle(self) -> u32 {
        self.vao
    }

    /// The glyph cached for `c`.
    pub open spec fn glyph_for(self, c: char) -> Character {
        self.glyphs()[c as u32 - FIRST_CHAR]
    }

    /// Builds the cache from one glyph per character of the fixed range
    /// (index `i` holds the character with code `FIRST_CHAR + i`), plus
    /// the shared vertex buffer and vertex array handles. The keys are
    /// fixed from here on: nothing is inserted or removed afterwards.
    pub fn new(glyphs: Vec<Character>, vbo: u32, vao: u32) -> (renderer: FontRenderer)
        requires
            glyphs@.len() == GLYPH_COUNT,
        ensures
            renderer.well_formed(),
            renderer.glyphs() == glyphs@,
            renderer.vbo_handle() == vbo,
            renderer.vao_handle() == vao,
    {
        FontRenderer { characters: glyphs, vbo, vao }
    }

    /// The shared vertex buffer handle, bound and rewritten for every
    /// glyph draw.
    pub fn vbo(&self) -> (handle: u32)
        ensures
            handle == self.vbo_handle(),
    {
        self.vbo
    }

    /// The shared vertex array handle.
    pub fn vao(&self) -> (handle: u32)
        ensures
            handle == self.vao_handle(),
    {
        self.vao
    }

    /// The glyph for `c`, or nothing when `c` is outside the cached
    /// range.
    pub fn get(&self, c: char) -> (glyph: Option<&Character>)
        requires
            self.well_formed(),
        ensures
            match glyph {
                Some(g) => spec_in_range(c) && *g == self.glyph_for(c),
                None => !spec_in_range(c),
            },
    {
        let code = c as u32;
        if FIRST_CHAR <= code && code < END_CHAR {
            Some(&self.characters[(code - FIRST_CHAR) as usize])
        } else {
            None
        }
    }

    /// The glyphs to draw for `text`, in text order, skipping characters
    /// the cache does not cover. The caller walks this sequence with its
    /// pen: each entry is one quad and one draw call, and the pen then
    /// advances by the entry's `advance` times its scale.
    pub fn render_plan(&self, text: &str) -> (plan: Vec<Character>)
        requires
            self.well_formed(),
        ensures
            plan@ == spec_render_plan(self.glyphs(), text@),
    {
        let len = text.unicode_len();
        let mut plan: Vec<Character> = Vec::new();
        let mut i: usize = 0;
        while i < len
            invariant
                self.well_formed(),
                i <= len,
                len == text@.len(),
                plan@ == spec_render_plan(self.glyphs(), text@.subrange(0, i as int)),
            decreases len - i,
        {
            let c = text.get_char(i);
            let code = c as u32;
            if FIRST_CHAR <= code && code < END_CHAR {
                plan.push(self.characters[(code - FIRST_CHAR) as usize]);
            }
            proof {
                let t = text@.subrange(0, i as int + 1);
                assert(t.drop_last() =~= text@.subrange(0, i as int));
                assert(t.last() == text@[i as int]);
            }
            i = i + 1;
        }
        proof {
            assert(text@.subrange(0, len as int) =~= text@);
        }
        plan
    }

    /// Tears the cache down: hands back every texture handle it holds,
    /// one per cached glyph and each exactly once, followed by the shared
    /// vertex buffer and vertex array handles, for the caller to release.
    pub fn release(self) -> (handles: (Vec<u32>, u32, u32))
        requires
            self.well_formed(),
        ensures
            handles.0@ == self.glyphs().map_values(|g: Character| g.texture_id),
            handles.1 == self.vbo_handle(),
            handles.2 == self.vao_handle(),
    {
        let mut textures: Vec<u32> = Vec::new();
        let mut i: usize = 0;
        while i < self.characters.len()
            invariant
                i <= self.characters@.len(),
                textures@.len() == i,
                forall|j: int| #![auto]
                    0 <= j < i ==> textures@[j] == self.characters@[j].texture_id,
            decreases self.characters@.len() - i,
        {
            textures.push(self.characters[i].texture_id);
            i = i + 1;
        }
        proof {
            assert(textures@ =~= self.glyphs().map_values(|g: Character| g.texture_id));
        }
        (textures, self.vbo, self.vao)
    }
}

} // verus!
