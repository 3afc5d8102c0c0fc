//! A CPU-side texture sink.
//!
//! `PaintDom` owns the textures that the draw pass and the glyph atlas
//! write into. It never talks to a GPU: it only stores pixel buffers and
//! records which textures were modified since they were last consumed,
//! so a rendering backend knows what to re-upload.

use vstd::prelude::*;
use crate::geometry::UVec2;
use crate::text_renderer::blit;
use crate::text_renderer::spec_blit;

verus! {

/// Pixel formats a texture can hold. The glyph atlas uses `R8`: one byte
/// per pixel, interpreted as alpha coverage.
#[derive(Clone, Copy, Debug, PartialEq, Eq, Structural)]
pub enum TextureFormat {
    R8,
}

/// A handle to a texture owned by a `PaintDom`.
#[derive(Clone, Copy, Debug, PartialEq, Eq, Structural)]
pub struct ManagedTextureId {
    pub index: usize,
}

/// A single-channel texture: its pixel dimensions and a row-major byte
/// buffer of exactly `size.x * size.y` bytes, plus a modified flag for
/// the backend.
pub struct Texture {
    pub format: TextureFormat,
    pub size: UVec2,
    pub data: Vec<u8>,
    pub modified: bool,
}

impl Texture {
    /// A texture is well formed when its buffer holds exactly one byte
    /// per pixel and its dimensions fit the atlas coordinate range.
    pub open spec fn wf(self) -> bool {
        &&& self.data.len() == self.size.x * self.size.y
        &&& self.size.x <= 0x1_0000
        &&& self.size.y <= 0x1_0000
    }

    pub fn new(format: TextureFormat, size: UVec2, data: Vec<u8>) -> (r: Texture)
        requires
            data.len() == size.x * size.y,
            size.x <= 0x1_0000,
            size.y <= 0x1_0000,
        ensures
            r.format == format,
            r.size == size,
            r.data == data,
            !r.modified,
            r.wf(),
    {
        Texture { format, size, data, modified: false }
    }
}

/// The texture sink. Textures are added once and then mutated in place;
/// handles stay valid for the sink's whole lifetime.
pub struct PaintDom {
    pub textures: Vec<Texture>,
}

impl PaintDom {
    pub open spec fn wf(self) -> bool {
        forall|i: int| 0 <= i < self.textures.len() ==> (#[trigger] self.textures[i]).wf()
    }

    pub open spec fn valid_id(self, id: ManagedTextureId) -> bool {
        id.index < self.textures.len()
    }

    pub fn new() -> (r: PaintDom)
        ensures
            r.textures@.len() == 0,
            r.wf(),
    {
        PaintDom { textures: Vec::new() }
    }

    /// Registers a texture and returns its stable handle.
    pub fn add_texture(&mut self, texture: Texture) -> (id: ManagedTextureId)
        requires
            texture.wf(),
            old(self).wf(),
        ensures
            id.index == old(self).textures.len(),
            final(self).textures@ == old(self).textures@.push(texture),
            final(self).wf(),
    {
        let index = self.textures.len();
        self.textures.push(texture);
        ManagedTextureId { index }
    }

    /// Flags a texture as modified so the backend re-uploads it.
    pub fn mark_texture_modified(&mut self, id: ManagedTextureId)
        requires
            old(self).wf(),
            old(self).valid_id(id),
        ensures
            final(self).textures@.len() == old(self).textures@.len(),
            forall|j: int|
                0 <= j < final(self).textures@.len() && j != id.index ==> final(self).textures@[j] == old(self).textures@[j],
            final(self).textures@[id.index as int].format == old(
                self,
            ).textures@[id.index as int].format,
            final(self).textures@[id.index as int].size == old(
                self,
            ).textures@[id.index as int].size,
            final(self).textures@[id.index as int].data == old(
                self,
            ).textures@[id.index as int].data,
            final(self).textures@[id.index as int].modified,
            final(self).wf(),
    {
        let mut texture = self.textures.remove(id.index);
        texture.modified = true;
        self.textures.insert(id.index, texture);
    }

    /// Read access to a texture, for backends and for tests.
    pub fn texture(&self, id: ManagedTextureId) -> (r: &Texture)
        requires
            self.valid_id(id),
        ensures
            *r == self.textures@[id.index as int],
    {
        &self.textures[id.index]
    }

    /// Copies `source` (a `source_size` single-channel bitmap) into the
    /// texture's buffer at offset `pos`, overwriting what was there.
    pub fn blit_texture(
        &mut self,
        id: ManagedTextureId,
        pos: UVec2,
        source: &Vec<u8>,
        source_size: UVec2,
    )
        requires
            old(self).wf(),
            old(self).valid_id(id),
            source.len() == source_size.x * source_size.y,
            pos.x + source_size.x <= old(self).textures@[id.index as int].size.x,
            pos.y + source_size.y <= old(self).textures@[id.index as int].size.y,
        ensures
            final(self).textures@.len() == old(self).textures@.len(),
            forall|j: int|
                0 <= j < final(self).textures@.len() && j != id.index ==> final(self).textures@[j] == old(self).textures@[j],
            final(self).textures@[id.index as int].format == old(
                self,
            ).textures@[id.index as int].format,
            final(self).textures@[id.index as int].size == old(
                self,
            ).textures@[id.index as int].size,
            final(self).textures@[id.index as int].modified == old(
                self,
            ).textures@[id.index as int].modified,
            final(self).textures@[id.index as int].data@ == spec_blit(
                old(self).textures@[id.index as int].data@,
                pos,
                source@,
                source_size,
                old(self).textures@[id.index as int].size,
            ),
            final(self).wf(),
    {
        let mut texture = self.textures.remove(id.index);
        let size = texture.size;
        blit(pos, source, source_size, &mut texture.data, size);
        self.textures.insert(id.index, texture);
    }
}

} // verus!
