//! The glyph texture atlas.
//!
//! `GlyphCache` maps a glyph key (font, glyph index, pixel size) to a
//! stable rectangle inside one shared `R8` texture. A glyph is rasterized
//! by the font service once, handed in as a `RasterGlyph`, shelf-packed
//! into the texture on first sight and returned from the map ever after.
//! Entries are never evicted or moved, so a returned rectangle stays
//! valid for the cache's whole lifetime.

use vstd::prelude::*;
use vstd::arithmetic::div_mod::lemma_fundamental_div_mod;
use vstd::arithmetic::div_mod::lemma_fundamental_div_mod_converse;
use std::collections::HashMap;
use crate::geometry::UVec2;
use crate::geometry::URect;
use crate::paint::ManagedTextureId;
use crate::paint::PaintDom;
use crate::paint::Texture;
use crate::paint::TextureFormat;

verus! {

broadcast use vstd::std_specs::hash::group_hash_axioms;

/// Side length of the square atlas texture, in pixels.
pub const TEXTURE_SIZE: u32 = 4096;

/// Identity of a rasterized glyph: which font, which glyph in it, and at
/// what pixel size it was rasterized. Equality is exact.
#[derive(Clone, Copy, Debug, PartialEq, Eq, Structural)]
pub struct GlyphKey {
    pub font_id: u32,
    pub glyph_index: u16,
    pub px: u16,
}

impl GlyphKey {
    /// The key packed into one integer, for the cache's map. Distinct
    /// keys pack to distinct integers (`lemma_encode_injective`).
    pub open spec fn spec_encode(self) -> u64 {
        (self.font_id * 0x1_0000_0000 + self.glyph_index * 0x1_0000 + self.px) as u64
    }

    pub fn encode(self) -> (r: u64)
        ensures
            r == self.spec_encode(),
    {
        (self.font_id as u64) * 0x1_0000_0000 + (self.glyph_index as u64) * 0x1_0000 + (
        self.px as u64)
    }
}

/// Packing a key is injective: two keys with the same packed value are
/// the same key.
pub proof fn lemma_encode_injective(a: GlyphKey, b: GlyphKey)
    requires
        a.spec_encode() == b.spec_encode(),
    ensures
        a == b,
{
    let ra = a.glyph_index * 0x1_0000 + a.px;
    let rb = b.glyph_index * 0x1_0000 + b.px;
    lemma_fundamental_div_mod_converse(
        a.spec_encode() as int,
        0x1_0000_0000,
        a.font_id as int,
        ra,
    );
    lemma_fundamental_div_mod_converse(
        b.spec_encode() as int,
        0x1_0000_0000,
        b.font_id as int,
        rb,
    );
    lemma_fundamental_div_mod_converse(ra, 0x1_0000, a.glyph_index as int, a.px as int);
    lemma_fundamental_div_mod_converse(rb, 0x1_0000, b.glyph_index as int, b.px as int);
}

/// What the font service returns for one glyph: its pixel dimensions and
/// a row-major 8-bit alpha bitmap, one byte per pixel.
pub struct RasterGlyph {
    pub width: u32,
    pub height: u32,
    pub bitmap: Vec<u8>,
}

impl RasterGlyph {
    pub open spec fn wf(self) -> bool {
        &&& self.bitmap.len() == self.width * self.height
        &&& self.width <= 0xFFFF
        &&& self.height <= 0xFFFF
    }

    pub fn new(width: u32, height: u32, bitmap: Vec<u8>) -> (r: RasterGlyph)
        requires
            bitmap.len() == width * height,
            width <= 0xFFFF,
            height <= 0xFFFF,
        ensures
            r.width == width,
            r.height == height,
            r.bitmap == bitmap,
            r.wf(),
    {
        RasterGlyph { width, height, bitmap }
    }
}

/// The one failure the atlas reports: a placement that does not fit the
/// texture. The cache is left unchanged rather than written past the
/// packed region.
#[derive(Clone, Copy, Debug, PartialEq, Eq, Structural)]
pub enum AtlasError {
    Overflow,
}

// ---------------------------------------------------------------------
// The blit primitive and its byte-level specification.
// ---------------------------------------------------------------------

/// Whether byte offset `o` of the destination buffer (of row stride
/// `dest_w`) lies inside the blitted rectangle.
pub open spec fn blit_covered(dest_pos: UVec2, src_size: UVec2, dest_w: int, o: int) -> bool {
    &&& dest_w > 0
    &&& dest_pos.y <= o / dest_w < dest_pos.y + src_size.y
    &&& dest_pos.x <= o % dest_w < dest_pos.x + src_size.x
}

/// The source-bitmap offset that destination offset `o` reads from.
pub open spec fn blit_src_index(dest_pos: UVec2, src_size: UVec2, dest_w: int, o: int) -> int {
    (o / dest_w - dest_pos.y) * src_size.x + (o % dest_w - dest_pos.x)
}

/// The destination buffer after a blit: bytes inside the rectangle come
/// from the source bitmap, every other byte is unchanged.
pub open spec fn spec_blit(
    dest: Seq<u8>,
    dest_pos: UVec2,
    src: Seq<u8>,
    src_size: UVec2,
    dest_size: UVec2,
) -> Seq<u8> {
    Seq::new(
        dest.len(),
        |o: int|
            if blit_covered(dest_pos, src_size, dest_size.x as int, o) {
                src[blit_src_index(dest_pos, src_size, dest_size.x as int, o)]
            } else {
                dest[o]
            },
    )
}

/// The destination mid-blit: rows before `rows` are done, and in row
/// `rows` the first `cols` columns are done.
spec fn spec_blit_upto(
    dest: Seq<u8>,
    dest_pos: UVec2,
    src: Seq<u8>,
    src_size: UVec2,
    dest_w: int,
    rows: int,
    cols: int,
) -> Seq<u8> {
    Seq::new(
        dest.len(),
        |o: int|
            if blit_covered(dest_pos, src_size, dest_w, o) && (o / dest_w < dest_pos.y + rows || (o
                / dest_w == dest_pos.y + rows && o % dest_w < dest_pos.x + cols)) {
                src[blit_src_index(dest_pos, src_size, dest_w, o)]
            } else {
                dest[o]
            },
    )
}

fn get_pixel(data: &Vec<u8>, size: UVec2, pos: UVec2) -> (r: u8)
    requires
        pos.x < size.x,
        pos.y < size.y,
        data.len() == size.x * size.y,
    ensures
        r == data@[pos.y * size.x + pos.x],
{
    proof {
        assert((pos.y as int) * (size.x as int) + (pos.x as int) < (size.x as int) * (
        size.y as int)) by (nonlinear_arith)
            requires
                pos.x < size.x,
                pos.y < size.y,
        ;
    }
    let offset: usize = (pos.y as usize) * (size.x as usize) + (pos.x as usize);
    data[offset]
}

fn set_pixel(data: &mut Vec<u8>, size: UVec2, pos: UVec2, value: u8)
    requires
        pos.x < size.x,
        pos.y < size.y,
        old(data).len() == size.x * size.y,
    ensures
        final(data)@ == old(data)@.update(pos.y * size.x + pos.x, value),
{
    proof {
        assert((pos.y as int) * (size.x as int) + (pos.x as int) < (size.x as int) * (
        size.y as int)) by (nonlinear_arith)
            requires
                pos.x < size.x,
                pos.y < size.y,
        ;
    }
    let offset: usize = (pos.y as usize) * (size.x as usize) + (pos.x as usize);
    data.set(offset, value);
}

/// One cell of the blit: writing source byte `(w, h)` at its destination
/// offset advances the partially-blitted buffer by one column.
proof fn lemma_blit_cell(
    orig: Seq<u8>,
    dest_pos: UVec2,
    src: Seq<u8>,
    src_size: UVec2,
    dest_size: UVec2,
    h: int,
    w: int,
)
    requires
        orig.len() == dest_size.x * dest_size.y,
        src.len() == src_size.x * src_size.y,
        dest_pos.x + src_size.x <= dest_size.x,
        dest_pos.y + src_size.y <= dest_size.y,
        0 <= h < src_size.y,
        0 <= w < src_size.x,
    ensures
        0 <= (dest_pos.y + h) * dest_size.x + dest_pos.x + w < orig.len(),
        spec_blit_upto(orig, dest_pos, src, src_size, dest_size.x as int, h, w).update(
            (dest_pos.y + h) * dest_size.x + dest_pos.x + w,
            src[h * src_size.x + w],
        ) =~= spec_blit_upto(orig, dest_pos, src, src_size, dest_size.x as int, h, w + 1),
{
    let wd = dest_size.x as int;
    let off = (dest_pos.y + h) * wd + dest_pos.x + w;
    assert(0 <= off && off < dest_size.x * dest_size.y) by (nonlinear_arith)
        requires
            0 <= h < src_size.y,
            0 <= w < src_size.x,
            dest_pos.x + src_size.x <= dest_size.x,
            dest_pos.y + src_size.y <= dest_size.y,
            wd == dest_size.x as int,
            off == (dest_pos.y + h) * wd + dest_pos.x + w,
    ;
    lemma_fundamental_div_mod_converse(off, wd, dest_pos.y + h, dest_pos.x + w);
    assert((off / wd - dest_pos.y) * src_size.x + (off % wd - dest_pos.x) == h * src_size.x
        + w);
    let before = spec_blit_upto(orig, dest_pos, src, src_size, wd, h, w).update(
        off,
        src[h * src_size.x + w],
    );
    let after = spec_blit_upto(orig, dest_pos, src, src_size, wd, h, w + 1);
    assert forall|o: int| 0 <= o < orig.len() implies before[o] == after[o] by {
        if o != off {
            if o / wd == dest_pos.y + h && o % wd == dest_pos.x + w {
                lemma_fundamental_div_mod(o, wd);
                assert(wd * (dest_pos.y + h) == (dest_pos.y + h) * wd) by (nonlinear_arith);
                assert(false);
            }
        }
    }
}

/// Copies a `source_size` single-channel bitmap into `dest_data` (a
/// row-major buffer of `dest_size` pixels) at offset `dest_pos`, row by
/// row, overwriting what was there. Exactly the bytes of the destination
/// rectangle change.
pub fn blit(
    dest_pos: UVec2,
    source_data: &Vec<u8>,
    source_size: UVec2,
    dest_data: &mut Vec<u8>,
    dest_size: UVec2,
)
    requires
        source_data.len() == source_size.x * source_size.y,
        old(dest_data).len() == dest_size.x * dest_size.y,
        dest_pos.x + source_size.x <= dest_size.x,
        dest_pos.y + source_size.y <= dest_size.y,
    ensures
        final(dest_data)@ == spec_blit(
            old(dest_data)@,
            dest_pos,
            source_data@,
            source_size,
            dest_size,
        ),
{
    let ghost orig = dest_data@;
    let ghost wd = dest_size.x as int;
    proof {
        assert(dest_data@ =~= spec_blit_upto(orig, dest_pos, source_data@, source_size, wd, 0, 0));
    }
    let mut h: u32 = 0;
    while h < source_size.y
        invariant
            h <= source_size.y,
            source_data.len() == source_size.x * source_size.y,
            dest_data.len() == dest_size.x * dest_size.y,
            orig.len() == dest_data.len(),
            dest_pos.x + source_size.x <= dest_size.x,
            dest_pos.y + source_size.y <= dest_size.y,
            wd == dest_size.x as int,
            dest_data@ == spec_blit_upto(
                orig,
                dest_pos,
                source_data@,
                source_size,
                wd,
                h as int,
                0,
            ),
        decreases source_size.y - h,
    {
        let mut w: u32 = 0;
        while w < source_size.x
            invariant
                h < source_size.y,
                w <= source_size.x,
                source_data.len() == source_size.x * source_size.y,
                dest_data.len() == dest_size.x * dest_size.y,
                orig.len() == dest_data.len(),
                dest_pos.x + source_size.x <= dest_size.x,
                dest_pos.y + source_size.y <= dest_size.y,
                wd == dest_size.x as int,
                dest_data@ == spec_blit_upto(
                    orig,
                    dest_pos,
                    source_data@,
                    source_size,
                    wd,
                    h as int,
                    w as int,
                ),
            decreases source_size.x - w,
        {
            let value = get_pixel(source_data, source_size, UVec2 { x: w, y: h });
            proof {
                lemma_blit_cell(
                    orig,
                    dest_pos,
                    source_data@,
                    source_size,
                    dest_size,
                    h as int,
                    w as int,
                );
            }
            set_pixel(
                dest_data,
                dest_size,
                UVec2 { x: dest_pos.x + w, y: dest_pos.y + h },
                value,
            );
            w = w + 1;
        }
        proof {
            assert(spec_blit_upto(
                orig,
                dest_pos,
                source_data@,
                source_size,
                wd,
                h as int,
                source_size.x as int,
            ) =~= spec_blit_upto(
                orig,
                dest_pos,
                source_data@,
                source_size,
                wd,
                h as int + 1,
                0,
            ));
        }
        h = h + 1;
    }
    proof {
        assert(spec_blit_upto(
            orig,
            dest_pos,
            source_data@,
            source_size,
            wd,
            source_size.y as int,
            0,
        ) =~= spec_blit(orig, dest_pos, source_data@, source_size, dest_size));
    }
}

/// Reading back pixel `(i, j)` of the blitted rectangle in `result`
/// yields exactly source byte `(i, j)`.
pub open spec fn blit_cell_matches(
    result: Seq<u8>,
    dest_pos: UVec2,
    src: Seq<u8>,
    src_size: UVec2,
    dest_size: UVec2,
    i: int,
    j: int,
) -> bool {
    result[(dest_pos.y + j) * dest_size.x + dest_pos.x + i] == src[j * src_size.x + i]
}

/// Blit round trip: blitting a bitmap into an all-zero buffer writes each
/// source byte at its destination offset and leaves every byte outside
/// the destination rectangle zero.
pub proof fn lemma_blit_round_trip(
    dest: Seq<u8>,
    dest_pos: UVec2,
    src: Seq<u8>,
    src_size: UVec2,
    dest_size: UVec2,
)
    requires
        dest.len() == dest_size.x * dest_size.y,
        forall|o: int| 0 <= o < dest.len() ==> dest[o] == 0,
        src.len() == src_size.x * src_size.y,
        dest_pos.x + src_size.x <= dest_size.x,
        dest_pos.y + src_size.y <= dest_size.y,
    ensures
        forall|i: int, j: int|
            0 <= i < src_size.x && 0 <= j < src_size.y ==> #[trigger] blit_cell_matches(
                spec_blit(dest, dest_pos, src, src_size, dest_size),
                dest_pos,
                src,
                src_size,
                dest_size,
                i,
                j,
            ),
        forall|o: int|
            0 <= o < dest.len() && !blit_covered(dest_pos, src_size, dest_size.x as int, o)
                ==> spec_blit(dest, dest_pos, src, src_size, dest_size)[o] == 0,
{
    let wd = dest_size.x as int;
    assert forall|i: int, j: int| 0 <= i < src_size.x && 0 <= j < src_size.y implies blit_cell_matches(
        spec_blit(dest, dest_pos, src, src_size, dest_size),
        dest_pos,
        src,
        src_size,
        dest_size,
        i,
        j,
    ) by {
        let off = (dest_pos.y + j) * wd + dest_pos.x + i;
        assert(0 <= off && off < dest_size.x * dest_size.y) by (nonlinear_arith)
            requires
                0 <= j < src_size.y,
                0 <= i < src_size.x,
                dest_pos.x + src_size.x <= dest_size.x,
                dest_pos.y + src_size.y <= dest_size.y,
                wd == dest_size.x as int,
                off == (dest_pos.y + j) * wd + dest_pos.x + i,
        ;
        lemma_fundamental_div_mod_converse(off, wd, dest_pos.y + j, dest_pos.x + i);
    }
}

// ---------------------------------------------------------------------
// The glyph cache.
// ---------------------------------------------------------------------

/// The glyph atlas cache: an optional backing texture (absent until the
/// first `ensure_texture`), the texture's pixel dimensions, the map from
/// packed glyph key to placed rectangle, and the shelf-packing cursor
/// (`next_pos`, the next free insertion point, and `row_height`, one
/// past the tallest glyph recorded for the current shelf row).
pub struct GlyphCache {
    texture: Option<ManagedTextureId>,
    texture_size: UVec2,
    glyphs: HashMap<u64, URect>,
    next_pos: UVec2,
    row_height: u32,
}

impl GlyphCache {
    /// The rectangles cached so far, keyed by packed glyph key.
    pub closed spec fn rects(self) -> Map<u64, URect> {
        self.glyphs@
    }

    /// The backing texture handle, absent until `ensure_texture`.
    pub closed spec fn spec_texture(self) -> Option<ManagedTextureId> {
        self.texture
    }

    /// The backing texture's pixel dimensions.
    pub closed spec fn spec_texture_size(self) -> UVec2 {
        self.texture_size
    }

    pub fn texture(&self) -> (r: Option<ManagedTextureId>)
        ensures
            r == self.spec_texture(),
    {
        self.texture
    }

    pub fn texture_size(&self) -> (r: UVec2)
        ensures
            r == self.spec_texture_size(),
    {
        self.texture_size
    }

    /// The shelf cursor: where the next glyph is placed if it fits.
    pub closed spec fn next(self) -> UVec2 {
        self.next_pos
    }

    /// The running shelf height: one past the tallest glyph recorded in
    /// the current row, and the `y` at which the next row starts.
    pub closed spec fn shelf_height(self) -> u32 {
        self.row_height
    }

    /// Cursor and texture dimensions stay in a range where the shelf
    /// arithmetic cannot overflow.
    pub open spec fn wf(self) -> bool {
        &&& self.next().x <= 0x1_0000
        &&& self.next().y <= 0x1_0000
        &&& self.shelf_height() <= 0x1_0000
        &&& self.spec_texture_size().x <= 0x1_0000
        &&& self.spec_texture_size().y <= 0x1_0000
    }

    /// The ghost view of the shelf packer: everything a placement
    /// depends on, and what the packing law is stated over.
    pub open spec fn shelf_state(self) -> ShelfState {
        ShelfState {
            rects: self.rects(),
            next: self.next(),
            shelf_height: self.shelf_height(),
            texture_size: self.spec_texture_size(),
        }
    }

    /// Whether a glyph of this width still fits the current shelf row.
    pub open spec fn fits_row(self, width: u32) -> bool {
        self.shelf_state().fits_row(width)
    }

    /// The rectangle a glyph of this size receives on a cache miss.
    pub open spec fn placed_rect(self, width: u32, height: u32) -> URect {
        self.shelf_state().placed_rect(width, height)
    }

    /// Whether a rectangle lies inside the backing texture.
    pub open spec fn in_texture(self, r: URect) -> bool {
        &&& r.pos.x + r.size.x <= self.spec_texture_size().x
        &&& r.pos.y + r.size.y <= self.spec_texture_size().y
    }


    /// Idempotent: allocates the backing texture exactly once, as an
    /// all-zero square `R8` texture of `TEXTURE_SIZE`. When a texture
    /// already exists the call is a no-op for the cache and the sink.
    pub fn ensure_texture(&mut self, paint: &mut PaintDom)
        requires
            old(self).wf(),
            old(paint).wf(),
        ensures
            final(self).wf(),
            final(paint).wf(),
            old(self).spec_texture() is Some ==> *final(self) == *old(self) && final(paint).textures@ == old(paint).textures@,
            old(self).spec_texture() is None ==> {
                &&& final(self).spec_texture() == Some(
                    ManagedTextureId { index: old(paint).textures@.len() as usize },
                )
                &&& final(self).spec_texture_size() == (UVec2 {
                    x: TEXTURE_SIZE,
                    y: TEXTURE_SIZE,
                })
                &&& final(self).rects() == old(self).rects()
                &&& final(self).next() == old(self).next()
                &&& final(self).shelf_height() == old(self).shelf_height()
                &&& final(paint).textures@.len() == old(paint).textures@.len() + 1
                &&& forall|j: int|
                    0 <= j < old(paint).textures@.len() ==> final(paint).textures@[j] == old(paint).textures@[j]
                &&& final(paint).textures@.last().format == TextureFormat::R8
                &&& final(paint).textures@.last().size == (UVec2 {
                    x: TEXTURE_SIZE,
                    y: TEXTURE_SIZE,
                })
                &&& final(paint).textures@.last().data.len() == TEXTURE_SIZE * TEXTURE_SIZE
                &&& forall|o: int|
                    0 <= o < TEXTURE_SIZE * TEXTURE_SIZE ==> final(paint).textures@.last().data@[o] == 0
                &&& !final(paint).textures@.last().modified
            },
    {
        if self.texture.is_none() {
            let side: usize = TEXTURE_SIZE as usize;
            let data: Vec<u8> = zeroed_buffer(side * side);
            let texture = paint.add_texture(
                Texture::new(TextureFormat::R8, UVec2::new(TEXTURE_SIZE, TEXTURE_SIZE), data),
            );
            self.texture = Some(texture);
            self.texture_size = UVec2::new(TEXTURE_SIZE, TEXTURE_SIZE);
        }
    }

    /// Returns the rectangle for `key`, placing the glyph on first
    /// request. A hit returns the cached rectangle and changes nothing:
    /// no blit, no new placement. A miss shelf-packs the glyph, blits
    /// its bitmap into the texture, marks the texture modified and
    /// records the rectangle; a placement that does not fit the texture
    /// reports `Overflow` and leaves cache and sink unchanged.
    pub fn get_or_insert(&mut self, paint: &mut PaintDom, key: GlyphKey, glyph: &RasterGlyph) -> (r:
        Result<URect, AtlasError>)
        requires
            old(self).wf(),
            old(paint).wf(),
            glyph.wf(),
            old(self).spec_texture() matches Some(id) && old(paint).valid_id(id) && old(paint).textures@[id.index as int].size == old(self).spec_texture_size(),
        ensures
            final(self).wf(),
            final(paint).wf(),
            old(self).rects().contains_key(key.spec_encode()) ==> {
                &&& r == Ok::<URect, AtlasError>(old(self).rects()[key.spec_encode()])
                &&& *final(self) == *old(self)
                &&& final(paint).textures@ == old(paint).textures@
            },
            !old(self).rects().contains_key(key.spec_encode()) && old(self).in_texture(
                old(self).placed_rect(glyph.width, glyph.height),
            ) ==> {
                let rect = old(self).placed_rect(glyph.width, glyph.height);
                let ti = old(self).spec_texture()->Some_0.index as int;
                &&& r == Ok::<URect, AtlasError>(rect)
                &&& final(self).shelf_state() == old(self).shelf_state().step(
                    key.spec_encode(),
                    glyph.width,
                    glyph.height,
                )
                &&& final(self).spec_texture() == old(self).spec_texture()
                &&& final(paint).textures@.len() == old(paint).textures@.len()
                &&& forall|j: int|
                    0 <= j < old(paint).textures@.len() && j != ti ==> final(paint).textures@[j]
                        == old(paint).textures@[j]
                &&& final(paint).textures@[ti].format == old(paint).textures@[ti].format
                &&& final(paint).textures@[ti].size == old(paint).textures@[ti].size
                &&& final(paint).textures@[ti].modified
                &&& final(paint).textures@[ti].data@ == spec_blit(
                    old(paint).textures@[ti].data@,
                    rect.pos,
                    glyph.bitmap@,
                    rect.size,
                    old(self).spec_texture_size(),
                )
            },
            !old(self).rects().contains_key(key.spec_encode()) && !old(self).in_texture(
                old(self).placed_rect(glyph.width, glyph.height),
            ) ==> {
                &&& r == Err::<URect, AtlasError>(AtlasError::Overflow)
                &&& *final(self) == *old(self)
                &&& final(paint).textures@ == old(paint).textures@
            },
    {
        let k = key.encode();
        let cached = match self.glyphs.get(&k) {
            Some(rect) => Some(*rect),
            None => None,
        };
        match cached {
            Some(rect) => Ok(rect),
            None => {
                let width = glyph.width;
                let height = glyph.height;
                let fits = self.next_pos.x + width < self.texture_size.x;
                let pos = if fits {
                    self.next_pos
                } else {
                    UVec2::new(0, self.row_height)
                };
                if !(pos.x + width <= self.texture_size.x && pos.y + height
                    <= self.texture_size.y) {
                    return Err(AtlasError::Overflow);
                }
                if fits {
                    self.row_height = if self.row_height >= height + 1 {
                        self.row_height
                    } else {
                        height + 1
                    };
                } else {
                    self.row_height = 0;
                }
                self.next_pos = UVec2::new(pos.x + width + 1, pos.y);
                let id = match self.texture {
                    Some(id) => id,
                    None => {
                        // unreachable: the caller establishes that the
                        // texture was allocated
                        return Err(AtlasError::Overflow);
                    },
                };
                paint.mark_texture_modified(id);
                let size = UVec2::new(width, height);
                paint.blit_texture(id, pos, &glyph.bitmap, size);
                let rect = URect::from_pos_size(pos, size);
                self.glyphs.insert(k, rect);
                Ok(rect)
            },
        }
    }
}

/// A buffer of `n` zero bytes.
fn zeroed_buffer(n: usize) -> (r: Vec<u8>)
    ensures
        r.len() == n,
        forall|o: int| 0 <= o < n ==> r@[o] == 0,
{
    let mut v: Vec<u8> = Vec::new();
    while v.len() < n
        invariant
            v.len() <= n,
            forall|o: int| 0 <= o < v.len() ==> v@[o] == 0,
        decreases n - v.len(),
    {
        v.push(0);
    }
    v
}

/// Global text state: the single glyph cache a toolkit instance owns,
/// created once and passed by mutable reference wherever glyphs are
/// rasterized.
pub struct TextGlobalState {
    pub glyph_cache: GlyphCache,
}

impl TextGlobalState {
    pub fn new() -> (r: TextGlobalState)
        ensures
            r.glyph_cache.spec_texture() is None,
            r.glyph_cache.rects() == Map::<u64, URect>::empty(),
            r.glyph_cache.next() == (UVec2 { x: 1, y: 1 }),
            r.glyph_cache.shelf_height() == 0,
            // a placeholder extent, so layout math never divides by a
            // zero-sized texture before allocation
            r.glyph_cache.spec_texture_size() == (UVec2 { x: 1, y: 1 }),
            r.glyph_cache.wf(),
            r.glyph_cache.shelf_state().packing_ok(),
            r.glyph_cache.shelf_state().rows_clear(),
            r.glyph_cache.shelf_state().first_shelf(),
    {
        let glyph_cache = GlyphCache {
            texture: None,
            glyphs: HashMap::new(),
            next_pos: UVec2::new(1, 1),
            row_height: 0,
            texture_size: UVec2::new(1, 1),
        };
        TextGlobalState { glyph_cache }
    }
}

// ---------------------------------------------------------------------
// Shelf packing never hands out overlapping rectangles.
// ---------------------------------------------------------------------

/// The ghost state of the shelf packer: the cached rectangles, the
/// cursor, the running shelf height and the texture extent. The packing
/// law is stated and proved over this view, and `get_or_insert` promises
/// that every miss advances the cache by exactly one `step`.
pub ghost struct ShelfState {
    pub rects: Map<u64, URect>,
    pub next: UVec2,
    pub shelf_height: u32,
    pub texture_size: UVec2,
}

/// A cached rectangle is behind the cursor: either wholly above the
/// current row, or in the current row and strictly left of the cursor.
pub open spec fn rect_behind(r: URect, next: UVec2) -> bool {
    ||| r.pos.y + r.size.y <= next.y
    ||| (r.pos.y == next.y && r.pos.x + r.size.x < next.x)
}

impl ShelfState {
    /// Bounds under which the shelf arithmetic cannot overflow.
    pub open spec fn wf(self) -> bool {
        &&& self.next.x <= 0x1_0000
        &&& self.next.y <= 0x1_0000
        &&& self.shelf_height <= 0x1_0000
        &&& self.texture_size.x <= 0x1_0000
        &&& self.texture_size.y <= 0x1_0000
    }

    /// Whether a glyph of this width still fits the current shelf row.
    pub open spec fn fits_row(self, width: u32) -> bool {
        self.next.x + width < self.texture_size.x
    }

    /// Where a glyph of this width is placed: at the cursor if it fits
    /// the row, else at the start of a new row at `shelf_height`.
    pub open spec fn place_pos(self, width: u32) -> UVec2 {
        if self.fits_row(width) {
            self.next
        } else {
            UVec2 { x: 0, y: self.shelf_height }
        }
    }

    /// The rectangle a glyph of this size receives on a cache miss.
    pub open spec fn placed_rect(self, width: u32, height: u32) -> URect {
        URect { pos: self.place_pos(width), size: UVec2 { x: width, y: height } }
    }

    /// One miss of the shelf packer: the glyph's rectangle is recorded
    /// under `k`, the cursor advances past it with a one-pixel gutter,
    /// and the shelf height grows to cover the glyph — or resets on a
    /// wrap, which is the packer's known blind spot.
    pub open spec fn step(self, k: u64, width: u32, height: u32) -> ShelfState {
        let pos = self.place_pos(width);
        ShelfState {
            rects: self.rects.insert(k, self.placed_rect(width, height)),
            next: UVec2 { x: (pos.x + width + 1) as u32, y: pos.y },
            shelf_height: if self.fits_row(width) {
                if self.shelf_height >= height + 1 {
                    self.shelf_height
                } else {
                    (height + 1) as u32
                }
            } else {
                0
            },
            texture_size: self.texture_size,
        }
    }

    /// The packing invariant: all cached rectangles are pairwise
    /// disjoint, and each is behind the cursor.
    pub open spec fn packing_ok(self) -> bool {
        &&& forall|k1: u64, k2: u64|
            k1 != k2 && #[trigger] self.rects.contains_key(k1)
                && #[trigger] self.rects.contains_key(k2) ==> self.rects[k1].disjoint(
                self.rects[k2],
            )
        &&& forall|k: u64|
            #[trigger] self.rects.contains_key(k) ==> rect_behind(self.rects[k], self.next)
    }

    /// Every cached rectangle ends above `shelf_height`, so a wrap to a
    /// new row at `shelf_height` clears them all. This holds while the
    /// packer is still filling its first shelf row and is lost by a
    /// wrap.
    pub open spec fn rows_clear(self) -> bool {
        forall|k: u64|
            #[trigger] self.rects.contains_key(k) ==> self.rects[k].pos.y
                + self.rects[k].size.y <= self.shelf_height
    }

    /// The cursor still sits in the first shelf row.
    pub open spec fn first_shelf(self) -> bool {
        self.next.y == 1
    }

    /// A step is admissible when its key is fresh, its glyph is of
    /// bounded size, and it either fits its shelf row or wraps while
    /// every cached rectangle ends above the wrap row.
    pub open spec fn admits(self, g: GlyphInsert) -> bool {
        &&& g.width <= 0xFFFF
        &&& g.height <= 0xFFFF
        &&& !self.rects.contains_key(g.key)
        &&& self.fits_row(g.width) || self.rows_clear()
    }
}

/// An admissible step keeps the packing invariant: the new rectangle is
/// disjoint from every cached one, and everything ends up behind the
/// advanced cursor.
pub proof fn lemma_step_preserves_packing(s: ShelfState, g: GlyphInsert)
    requires
        s.wf(),
        s.packing_ok(),
        s.admits(g),
    ensures
        s.step(g.key, g.width, g.height).wf(),
        s.step(g.key, g.width, g.height).packing_ok(),
{
    let post = s.step(g.key, g.width, g.height);
    let nr = s.placed_rect(g.width, g.height);
    assert forall|k0: u64| #[trigger] s.rects.contains_key(k0) implies nr.disjoint(s.rects[k0])
        && s.rects[k0].disjoint(nr) by {
        assert(rect_behind(s.rects[k0], s.next));
    }
    assert forall|k0: u64| #[trigger] post.rects.contains_key(k0) implies rect_behind(
        post.rects[k0],
        post.next,
    ) by {
        if k0 != g.key {
            assert(s.rects.contains_key(k0));
            assert(rect_behind(s.rects[k0], s.next));
        }
    }
}

/// While the packer is filling its first shelf row, a step that fits
/// the row keeps every cached rectangle above `shelf_height` and keeps
/// the cursor in the first row. So a run's first wrap is always
/// admissible; only a second wrap is not covered.
pub proof fn lemma_step_preserves_rows_clear(s: ShelfState, g: GlyphInsert)
    requires
        s.wf(),
        s.rows_clear(),
        s.first_shelf(),
        s.fits_row(g.width),
        g.width <= 0xFFFF,
        g.height <= 0xFFFF,
    ensures
        s.step(g.key, g.width, g.height).rows_clear(),
        s.step(g.key, g.width, g.height).first_shelf(),
{
    let post = s.step(g.key, g.width, g.height);
    assert forall|k0: u64| #[trigger] post.rects.contains_key(k0) implies post.rects[k0].pos.y
        + post.rects[k0].size.y <= post.shelf_height by {
        if k0 != g.key {
            assert(s.rects.contains_key(k0));
        }
    }
}

/// One glyph of an insertion run: its packed key and pixel size.
pub ghost struct GlyphInsert {
    pub key: u64,
    pub width: u32,
    pub height: u32,
}

/// The shelf state after inserting a whole run of glyphs, first to
/// last.
pub open spec fn spec_run(init: ShelfState, inserts: Seq<GlyphInsert>) -> ShelfState
    decreases inserts.len(),
{
    if inserts.len() == 0 {
        init
    } else {
        let g = inserts.last();
        spec_run(init, inserts.drop_last()).step(g.key, g.width, g.height)
    }
}

/// Every insert of the run is admissible at the state it meets.
pub open spec fn run_admissible(init: ShelfState, inserts: Seq<GlyphInsert>) -> bool {
    forall|i: int|
        0 <= i < inserts.len() ==> spec_run(init, #[trigger] inserts.take(i)).admits(inserts[i])
}

/// The shelf-packing law over whole runs: starting from a state whose
/// packing invariant holds, an admissible run of insertions — fresh
/// keys, bounded glyphs, each either fitting its row or wrapping while
/// the rows are clear — leaves all cached rectangles pairwise disjoint.
/// In particular a fresh cache, which starts on its first shelf row
/// with the rows clear, packs any run that wraps at most once.
pub proof fn lemma_run_preserves_packing(init: ShelfState, inserts: Seq<GlyphInsert>)
    requires
        init.wf(),
        init.packing_ok(),
        run_admissible(init, inserts),
    ensures
        spec_run(init, inserts).wf(),
        spec_run(init, inserts).packing_ok(),
    decreases inserts.len(),
{
    if inserts.len() > 0 {
        let prefix = inserts.drop_last();
        let g = inserts.last();
        assert(run_admissible(init, prefix)) by {
            assert forall|i: int| 0 <= i < prefix.len() implies spec_run(
                init,
                #[trigger] prefix.take(i),
            ).admits(prefix[i]) by {
                assert(prefix.take(i) =~= inserts.take(i));
                assert(spec_run(init, inserts.take(i)).admits(inserts[i]));
            }
        }
        lemma_run_preserves_packing(init, prefix);
        assert(inserts.take(inserts.len() - 1) =~= prefix);
        assert(spec_run(init, inserts.take(inserts.len() - 1)).admits(
            inserts[inserts.len() - 1],
        ));
        lemma_step_preserves_packing(spec_run(init, prefix), g);
    }
}

/// The law the atlas answers for: in a state whose packing invariant
/// holds, two distinct glyph keys hold disjoint rectangles.
pub proof fn lemma_distinct_keys_disjoint(s: ShelfState, a: GlyphKey, b: GlyphKey)
    requires
        s.packing_ok(),
        a != b,
        s.rects.contains_key(a.spec_encode()),
        s.rects.contains_key(b.spec_encode()),
    ensures
        s.rects[a.spec_encode()].disjoint(s.rects[b.spec_encode()]),
{
    if a.spec_encode() == b.spec_encode() {
        lemma_encode_injective(a, b);
    }
}

} // verus!
