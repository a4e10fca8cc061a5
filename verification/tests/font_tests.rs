use eva_editor::font::{Character, FontRenderer, FIRST_CHAR, GLYPH_COUNT};

/// A stand-in for the rasterizer: one glyph per cached character, with a
/// distinct non-zero texture handle, and a positive advance everywhere
/// but for the space at index 0.
fn stub_glyphs() -> Vec<Character> {
    let mut glyphs = Vec::new();
    for i in 0..GLYPH_COUNT as u32 {
        glyphs.push(Character {
            texture_id: 100 + i,
            size: (6, 12),
            bearing: (1, 10),
            advance: i,
        });
    }
    glyphs
}

fn index_of(c: char) -> usize {
    (c as u32 - FIRST_CHAR) as usize
}

#[test]
fn cache_yields_distinct_nonzero_handles() {
    let renderer = FontRenderer::new(stub_glyphs(), 50, 51);
    let probes = ['A', 'a', '0', ' '];
    let mut handles = Vec::new();
    for c in probes {
        let glyph = renderer.get(c).expect("cached character");
        assert!(glyph.texture_id != 0);
        assert!(!handles.contains(&glyph.texture_id));
        handles.push(glyph.texture_id);
        if c != ' ' {
            assert!(glyph.advance > 0);
        }
    }
}

#[test]
fn get_returns_the_recorded_glyph() {
    let renderer = FontRenderer::new(stub_glyphs(), 50, 51);
    let glyph = renderer.get('A').expect("cached character");
    assert_eq!(glyph.texture_id, 100 + index_of('A') as u32);
    assert_eq!(glyph.size, (6, 12));
    assert_eq!(glyph.bearing, (1, 10));
    assert_eq!(glyph.advance, index_of('A') as u32);
}

#[test]
fn get_outside_range_is_none() {
    let renderer = FontRenderer::new(stub_glyphs(), 50, 51);
    assert!(renderer.get('\n').is_none());
    assert!(renderer.get('\t').is_none());
    assert!(renderer.get('é').is_none());
}

#[test]
fn render_plan_keeps_text_order_and_skips_uncached() {
    let renderer = FontRenderer::new(stub_glyphs(), 50, 51);
    let plan = renderer.render_plan("a\nb!");
    assert_eq!(plan.len(), 3);
    assert_eq!(plan[0].texture_id, 100 + index_of('a') as u32);
    assert_eq!(plan[1].texture_id, 100 + index_of('b') as u32);
    assert_eq!(plan[2].texture_id, 100 + index_of('!') as u32);
}

#[test]
fn render_plan_of_uncached_text_is_empty() {
    let renderer = FontRenderer::new(stub_glyphs(), 50, 51);
    assert!(renderer.render_plan("\n\t").is_empty());
    assert!(renderer.render_plan("").is_empty());
}

#[test]
fn release_hands_back_every_handle_once() {
    let renderer = FontRenderer::new(stub_glyphs(), 50, 51);
    let (textures, vbo, vao) = renderer.release();
    assert_eq!(textures.len(), GLYPH_COUNT);
    for (i, handle) in textures.iter().enumerate() {
        assert_eq!(*handle, 100 + i as u32);
    }
    assert_eq!(vbo, 50);
    assert_eq!(vao, 51);
}
