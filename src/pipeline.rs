use vstd::prelude::*;
use crate::atlas::{AtlasView, Cache, UpdateError};
use crate::draw::{after_draw, after_upload, identity_bits, needs_upload, DrawPlan, DrawState, DrawView, Region, scissor_matches};
use crate::quad::Quad;

verus! {

/// Everything the text pipeline decides on the CPU side: the glyph atlas and
/// the per-frame draw state. The GPU objects that mirror them live with the
/// caller, which carries out each returned decision.
pub struct PipelineState<C> {
    cache: Cache,
    frame: DrawState<C>,
}

impl<C> PipelineState<C> {
    pub closed spec fn wf(&self) -> bool {
        self.cache.wf()
    }

    pub closed spec fn atlas(&self) -> AtlasView {
        self.cache@
    }

    pub closed spec fn frame(&self) -> DrawView<C> {
        self.frame@
    }

    /// A pipeline with an empty atlas of the given size, an empty batch and
    /// the identity transform.
    pub fn new(cache_width: u32, cache_height: u32) -> (r: PipelineState<C>)
        requires
            cache_width * cache_height <= usize::MAX,
        ensures
            r.wf(),
            r.atlas().blank(cache_width as nat, cache_height as nat),
            r.frame().transform == identity_bits(),
            r.frame().quads == Seq::<Quad<C>>::empty(),
    {
        PipelineState { cache: Cache::new(cache_width, cache_height), frame: DrawState::new() }
    }

    /// The atlas.
    pub fn cache(&self) -> (r: &Cache)
        ensures
            r@ == self.atlas(),
    {
        &self.cache
    }

    /// The quads of the next draw call.
    pub fn quads(&self) -> (r: &Vec<Quad<C>>)
        ensures
            r@ == self.frame().quads,
    {
        self.frame.quads()
    }

    /// Writes a glyph bitmap into the atlas; see `Cache::update`. The draw
    /// state is left alone.
    pub fn update_cache(&mut self, offset: [u16; 2], size: [u16; 2], data: &[u8]) -> (r: Result<(), UpdateError>)
        requires
            old(self).wf(),
        ensures
            final(self).wf(),
            final(self).frame() == old(self).frame(),
            match r {
                Err(UpdateError::OutOfBounds) => !old(self).atlas().fits(offset, size)
                    && final(self).atlas() == old(self).atlas(),
                Err(UpdateError::DataLength) => old(self).atlas().fits(offset, size) && data@.len() != size[0] * size[1]
                    && final(self).atlas() == old(self).atlas(),
                Ok(()) => old(self).atlas().fits(offset, size) && data@.len() == size[0] * size[1]
                    && final(self).atlas().blitted(old(self).atlas(), offset, size, data@),
            },
    {
        self.cache.update(offset, size, data)
    }

    /// Replaces the atlas with an empty one of the new size. The batch and the
    /// transform are left alone.
    pub fn increase_cache_size(&mut self, width: u32, height: u32)
        requires
            width * height <= usize::MAX,
        ensures
            final(self).wf(),
            final(self).atlas().blank(width as nat, height as nat),
            final(self).frame() == old(self).frame(),
    {
        self.cache.resize(width, height);
    }

    /// Replaces the batch with `quads`. The atlas is left alone.
    pub fn upload(&mut self, quads: Vec<Quad<C>>)
        ensures
            final(self).wf() == old(self).wf(),
            final(self).atlas() == old(self).atlas(),
            final(self).frame() == after_upload(old(self).frame(), quads@),
    {
        self.frame.upload(quads);
    }

    /// Decides one draw call; see `DrawState::draw`. The atlas is left alone.
    pub fn draw(&mut self, transform: [u32; 16], region: Option<Region>) -> (r: DrawPlan)
        ensures
            final(self).wf() == old(self).wf(),
            final(self).atlas() == old(self).atlas(),
            final(self).frame() == after_draw(old(self).frame(), transform@),
            r.upload_transform == needs_upload(old(self).frame(), transform@),
            r.quad_count == old(self).frame().quads.len(),
            match region {
                None => r.scissor is None,
                Some(g) => r.scissor matches Some(s) && scissor_matches(s, g),
            },
    {
        self.frame.draw(transform, region)
    }
}

} // verus!
