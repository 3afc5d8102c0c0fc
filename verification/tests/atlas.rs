//! Tests for the glyph atlas: texture allocation, shelf packing, the
//! cache hit path, the overflow signal and the blit primitive.

use frame_atlas::geometry::{URect, UVec2};
use frame_atlas::paint::PaintDom;
use frame_atlas::text_renderer::{blit, GlyphKey, RasterGlyph, TextGlobalState, AtlasError, TEXTURE_SIZE};

fn key(font_id: u32, glyph_index: u16, px: u16) -> GlyphKey {
    GlyphKey { font_id, glyph_index, px }
}

fn glyph(width: u32, height: u32, value: u8) -> RasterGlyph {
    RasterGlyph::new(width, height, vec![value; (width * height) as usize])
}

fn overlaps(a: URect, b: URect) -> bool {
    let x_overlap = a.pos.x + a.size.x > b.pos.x && b.pos.x + b.size.x > a.pos.x;
    let y_overlap = a.pos.y + a.size.y > b.pos.y && b.pos.y + b.size.y > a.pos.y;
    x_overlap && y_overlap
}

#[test]
fn ensure_texture_allocates_exactly_once() {
    let mut state = TextGlobalState::new();
    let mut paint = PaintDom::new();
    assert!(state.glyph_cache.texture().is_none());

    state.glyph_cache.ensure_texture(&mut paint);
    let id = state.glyph_cache.texture().expect("texture after ensure");
    let size = state.glyph_cache.texture_size();
    assert_eq!(paint.textures.len(), 1);
    assert_eq!(size, UVec2 { x: TEXTURE_SIZE, y: TEXTURE_SIZE });

    state.glyph_cache.ensure_texture(&mut paint);
    state.glyph_cache.ensure_texture(&mut paint);
    assert_eq!(paint.textures.len(), 1);
    assert_eq!(state.glyph_cache.texture(), Some(id));
    assert_eq!(state.glyph_cache.texture_size(), size);
}

#[test]
fn fresh_texture_is_zeroed() {
    let mut state = TextGlobalState::new();
    let mut paint = PaintDom::new();
    state.glyph_cache.ensure_texture(&mut paint);
    let id = state.glyph_cache.texture().unwrap();
    let texture = paint.texture(id);
    assert_eq!(texture.data.len(), (TEXTURE_SIZE * TEXTURE_SIZE) as usize);
    assert!(!texture.modified);
    assert!(texture.data.iter().all(|&b| b == 0));
}

#[test]
fn first_insert_places_at_origin_cursor() {
    let mut state = TextGlobalState::new();
    let mut paint = PaintDom::new();
    state.glyph_cache.ensure_texture(&mut paint);

    let rect = state
        .glyph_cache
        .get_or_insert(&mut paint, key(1, 7, 16), &glyph(10, 20, 0xAA))
        .expect("fits");
    assert_eq!(rect.pos, UVec2 { x: 1, y: 1 });
    assert_eq!(rect.size, UVec2 { x: 10, y: 20 });

    let id = state.glyph_cache.texture().unwrap();
    let texture = paint.texture(id);
    assert!(texture.modified);
    // the blitted pixels landed at the rectangle, with a zero border
    let stride = TEXTURE_SIZE as usize;
    assert_eq!(texture.data[1 * stride + 1], 0xAA);
    assert_eq!(texture.data[20 * stride + 10], 0xAA);
    assert_eq!(texture.data[0], 0);
    assert_eq!(texture.data[1 * stride + 11], 0);
}

#[test]
fn get_or_insert_is_idempotent() {
    let mut state = TextGlobalState::new();
    let mut paint = PaintDom::new();
    state.glyph_cache.ensure_texture(&mut paint);

    let k = key(1, 7, 16);
    let first = state
        .glyph_cache
        .get_or_insert(&mut paint, k, &glyph(10, 20, 0xFF))
        .expect("fits");
    let before = paint.texture(state.glyph_cache.texture().unwrap()).data.clone();
    let second = state
        .glyph_cache
        .get_or_insert(&mut paint, k, &glyph(10, 20, 0x11))
        .expect("hit");
    assert_eq!(first, second);
    // a hit blits nothing: the texture bytes are untouched
    let after = &paint.texture(state.glyph_cache.texture().unwrap()).data;
    assert_eq!(&before, after);

    // the cursor did not move either: the next distinct key packs as if
    // the hit had never happened
    let next = state
        .glyph_cache
        .get_or_insert(&mut paint, key(1, 8, 16), &glyph(5, 5, 0xFF))
        .expect("fits");
    assert_eq!(next.pos, UVec2 { x: 12, y: 1 });
}

#[test]
fn shelf_wrap_accounts_for_tallest_glyph() {
    let mut state = TextGlobalState::new();
    let mut paint = PaintDom::new();
    state.glyph_cache.ensure_texture(&mut paint);

    // glyph A, 10 by 20, beside it glyph B, 10 by 30, then a glyph too
    // wide for the rest of the row: the new row starts at
    // max(20, 30) + 1 = 31, not at 21
    let a = state
        .glyph_cache
        .get_or_insert(&mut paint, key(1, 1, 16), &glyph(10, 20, 1))
        .expect("fits");
    let b = state
        .glyph_cache
        .get_or_insert(&mut paint, key(1, 2, 16), &glyph(10, 30, 2))
        .expect("fits");
    let c = state
        .glyph_cache
        .get_or_insert(&mut paint, key(1, 3, 16), &glyph(4080, 12, 3))
        .expect("fits");
    assert_eq!(a.pos, UVec2 { x: 1, y: 1 });
    assert_eq!(b.pos, UVec2 { x: 12, y: 1 });
    assert_eq!(c.pos, UVec2 { x: 0, y: 31 });

    assert!(!overlaps(a, b));
    assert!(!overlaps(a, c));
    assert!(!overlaps(b, c));
}

#[test]
fn distinct_keys_get_disjoint_rects() {
    let mut state = TextGlobalState::new();
    let mut paint = PaintDom::new();
    state.glyph_cache.ensure_texture(&mut paint);

    let mut rects: Vec<URect> = Vec::new();
    for glyph_index in 0..12u16 {
        let width = 40 + 13 * (glyph_index as u32 % 5);
        let height = 10 + 7 * (glyph_index as u32 % 3);
        let rect = state
            .glyph_cache
            .get_or_insert(&mut paint, key(2, glyph_index, 14), &glyph(width, height, 9))
            .expect("fits");
        rects.push(rect);
    }
    for i in 0..rects.len() {
        for j in 0..rects.len() {
            if i != j {
                assert!(!overlaps(rects[i], rects[j]), "rects {i} and {j} overlap");
            }
        }
    }
}

#[test]
fn oversized_glyph_reports_overflow_and_changes_nothing() {
    let mut state = TextGlobalState::new();
    let mut paint = PaintDom::new();
    state.glyph_cache.ensure_texture(&mut paint);

    let too_tall = state
        .glyph_cache
        .get_or_insert(&mut paint, key(1, 1, 16), &glyph(10, 5000, 1));
    assert_eq!(too_tall, Err(AtlasError::Overflow));
    assert!(!paint.texture(state.glyph_cache.texture().unwrap()).modified);

    // the cursor is untouched: the next glyph packs at the start
    let rect = state
        .glyph_cache
        .get_or_insert(&mut paint, key(1, 2, 16), &glyph(10, 20, 1))
        .expect("fits");
    assert_eq!(rect.pos, UVec2 { x: 1, y: 1 });
}

#[test]
fn encode_packs_the_key_fields() {
    let k = key(3, 40, 16);
    assert_eq!(
        k.encode(),
        3u64 * 0x1_0000_0000 + 40u64 * 0x1_0000 + 16u64
    );
}

#[test]
fn encode_separates_every_key_component() {
    let base = key(3, 40, 16);
    let keys = [
        base,
        key(4, 40, 16),
        key(3, 41, 16),
        key(3, 40, 17),
    ];
    for i in 0..keys.len() {
        for j in 0..keys.len() {
            if i != j {
                assert_ne!(keys[i].encode(), keys[j].encode());
            }
        }
    }
}

#[test]
fn blit_round_trips_and_leaves_the_rest_zero() {
    let src_size = UVec2 { x: 3, y: 2 };
    let source: Vec<u8> = vec![1, 2, 3, 4, 5, 6];
    let dest_size = UVec2 { x: 8, y: 8 };
    let mut dest: Vec<u8> = vec![0; 64];
    let dest_pos = UVec2 { x: 2, y: 3 };

    blit(dest_pos, &source, src_size, &mut dest, dest_size);

    for j in 0..2usize {
        for i in 0..3usize {
            let offset = (3 + j) * 8 + 2 + i;
            assert_eq!(dest[offset], source[j * 3 + i], "pixel ({i}, {j})");
        }
    }
    let mut written = 0;
    for o in 0..64usize {
        let x = o % 8;
        let y = o / 8;
        if (2..5).contains(&x) && (3..5).contains(&y) {
            written += 1;
        } else {
            assert_eq!(dest[o], 0, "byte {o} outside the rectangle");
        }
    }
    assert_eq!(written, 6);
}

#[test]
fn blit_overwrites_previous_contents() {
    let src_size = UVec2 { x: 2, y: 2 };
    let dest_size = UVec2 { x: 4, y: 4 };
    let mut dest: Vec<u8> = vec![7; 16];
    blit(UVec2 { x: 1, y: 1 }, &vec![9, 9, 9, 9], src_size, &mut dest, dest_size);
    assert_eq!(dest[1 * 4 + 1], 9);
    assert_eq!(dest[2 * 4 + 2], 9);
    assert_eq!(dest[0], 7);
    assert_eq!(dest[3 * 4 + 3], 7);
}
