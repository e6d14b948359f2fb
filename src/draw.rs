use vstd::prelude::*;
use crate::quad::Quad;

verus! {

/// A rectangle of the framebuffer, in pixels, that a draw call is limited to.
/// It is taken in the GPU layer's own convention for the y axis.
#[derive(Clone, Copy, Debug, PartialEq, Eq, Structural)]
pub struct Region {
    pub x: u32,
    pub y: u32,
    pub width: u32,
    pub height: u32,
}

/// The scissor rectangle handed to the GPU layer, in its signed coordinates.
#[derive(Clone, Copy, Debug, PartialEq, Eq, Structural)]
pub struct Scissor {
    pub x: i32,
    pub y: i32,
    pub width: i32,
    pub height: i32,
}

/// What one draw call must do on the GPU side.
#[derive(Clone, Copy, Debug, PartialEq, Eq, Structural)]
pub struct DrawPlan {
    /// The transform differs from the one last uploaded and must be uploaded.
    pub upload_transform: bool,
    /// The scissor rectangle, if the draw is clipped.
    pub scissor: Option<Scissor>,
    /// How many quads the draw covers.
    pub quad_count: usize,
}

/// One GPU operation of a draw call.
#[derive(Clone, Copy, Debug, PartialEq, Eq, Structural)]
pub enum DrawStep {
    /// Make the text program the active one.
    UseProgram,
    /// Upload the new transform to the program's `transform` uniform.
    UploadTransform,
    /// Bind the atlas texture to the given texture unit.
    BindAtlas { unit: u32 },
    /// Make the pending batch visible to the GPU.
    FlushBatch,
    /// Draw the whole batch, limited to the scissor rectangle if there is one.
    Submit { scissor: Option<Scissor>, quad_count: usize, depth_test: bool },
}

/// The steps of a draw call, in the order the GPU layer needs them: the
/// program is active before its uniform is set, the uniform is set before the
/// texture is bound, and everything is in place before the draw is submitted.
pub open spec fn draw_steps(p: DrawPlan) -> Seq<DrawStep> {
    seq![DrawStep::UseProgram]
        + (if p.upload_transform { seq![DrawStep::UploadTransform] } else { Seq::empty() })
        + seq![
        DrawStep::BindAtlas { unit: 0 },
        DrawStep::FlushBatch,
        DrawStep::Submit { scissor: p.scissor, quad_count: p.quad_count, depth_test: false },
    ]
}

impl DrawPlan {
    /// The GPU operations that carry out this plan, in order.
    pub fn steps(&self) -> (r: Vec<DrawStep>)
        ensures
            r@ == draw_steps(*self),
    {
        let mut r: Vec<DrawStep> = Vec::new();
        r.push(DrawStep::UseProgram);
        if self.upload_transform {
            r.push(DrawStep::UploadTransform);
        }
        r.push(DrawStep::BindAtlas { unit: 0 });
        r.push(DrawStep::FlushBatch);
        r.push(DrawStep::Submit { scissor: self.scissor, quad_count: self.quad_count, depth_test: false });
        assert(r@ =~= draw_steps(*self));
        r
    }
}

/// An unsigned coordinate as a signed one; values past `i32::MAX` are held there.
pub open spec fn saturate_i32(v: u32) -> int {
    if v <= i32::MAX { v as int } else { i32::MAX as int }
}

pub open spec fn scissor_matches(s: Scissor, r: Region) -> bool {
    &&& s.x == saturate_i32(r.x)
    &&& s.y == saturate_i32(r.y)
    &&& s.width == saturate_i32(r.width)
    &&& s.height == saturate_i32(r.height)
}

fn to_i32(v: u32) -> (r: i32)
    ensures
        r == saturate_i32(v),
{
    if v <= i32::MAX as u32 { v as i32 } else { i32::MAX }
}

/// The scissor rectangle that limits drawing to `region`.
pub fn scissor_for(region: Region) -> (r: Scissor)
    ensures
        scissor_matches(r, region),
{
    Scissor { x: to_i32(region.x), y: to_i32(region.y), width: to_i32(region.width), height: to_i32(region.height) }
}

/// The bit pattern of the 4x4 identity matrix of `f32`s, row by row.
pub open spec fn identity_bits() -> Seq<u32> {
    Seq::new(16, |i: int| if i % 5 == 0 { 0x3f80_0000u32 } else { 0u32 })
}

/// The identity transform, as the bit patterns of its sixteen `f32`s.
pub fn identity_transform() -> (r: [u32; 16])
    ensures
        r@ == identity_bits(),
{
    let one: u32 = 0x3f80_0000;
    let r: [u32; 16] = [one, 0, 0, 0, 0, one, 0, 0, 0, 0, one, 0, 0, 0, 0, one];
    assert(r@ =~= identity_bits());
    r
}

/// Two transforms are the same value, bit for bit.
pub fn same_transform(a: &[u32; 16], b: &[u32; 16]) -> (r: bool)
    ensures
        r == (a@ == b@),
{
    let mut i: usize = 0;
    while i < 16
        invariant
            i <= 16,
            a@.len() == 16,
            b@.len() == 16,
            forall|j: int| 0 <= j < i ==> a@[j] == b@[j],
        decreases 16 - i,
    {
        if a[i] != b[i] {
            return false;
        }
        i += 1;
    }
    assert(a@ =~= b@);
    true
}

/// What the draw state holds: the transform last uploaded (as `f32` bit
/// patterns) and the quads of the next draw call, in order.
pub struct DrawView<C> {
    pub transform: Seq<u32>,
    pub quads: Seq<Quad<C>>,
}

/// The state after the batch was replaced by `quads`.
pub open spec fn after_upload<C>(s: DrawView<C>, quads: Seq<Quad<C>>) -> DrawView<C> {
    DrawView { transform: s.transform, quads }
}

/// The state after a draw call with `transform`.
pub open spec fn after_draw<C>(s: DrawView<C>, transform: Seq<u32>) -> DrawView<C> {
    DrawView { transform, quads: s.quads }
}

/// A draw call with `transform` must upload it first.
pub open spec fn needs_upload<C>(s: DrawView<C>, transform: Seq<u32>) -> bool {
    s.transform != transform
}

/// The per-frame state of the draw pipeline: the batch of quads and the
/// transform that the GPU program holds.
pub struct DrawState<C> {
    transform: [u32; 16],
    quads: Vec<Quad<C>>,
}

impl<C> View for DrawState<C> {
    type V = DrawView<C>;

    closed spec fn view(&self) -> DrawView<C> {
        DrawView { transform: self.transform@, quads: self.quads@ }
    }
}

impl<C> DrawState<C> {
    /// A state with an empty batch whose program holds the identity transform.
    pub fn new() -> (r: DrawState<C>)
        ensures
            r@.transform == identity_bits(),
            r@.quads == Seq::<Quad<C>>::empty(),
    {
        let r = DrawState { transform: identity_transform(), quads: Vec::new() };
        assert(r@.quads =~= Seq::<Quad<C>>::empty());
        r
    }

    /// Replaces the whole batch with `quads`, in their order.
    pub fn upload(&mut self, quads: Vec<Quad<C>>)
        ensures
            final(self)@ == after_upload(old(self)@, quads@),
    {
        self.quads = quads;
    }

    /// The quads of the next draw call.
    pub fn quads(&self) -> (r: &Vec<Quad<C>>)
        ensures
            r@ == self@.quads,
    {
        &self.quads
    }

    /// Decides one draw call: the transform is uploaded only where it differs
    /// from the last one, the draw covers the whole batch, and it is clipped
    /// to `region` where one is given.
    pub fn draw(&mut self, transform: [u32; 16], region: Option<Region>) -> (r: DrawPlan)
        ensures
            final(self)@ == after_draw(old(self)@, transform@),
            r.upload_transform == needs_upload(old(self)@, transform@),
            r.quad_count == old(self)@.quads.len(),
            match region {
                None => r.scissor is None,
                Some(g) => r.scissor matches Some(s) && scissor_matches(s, g),
            },
    {
        let upload_transform = !same_transform(&self.transform, &transform);
        if upload_transform {
            self.transform = transform;
        }
        let scissor = match region {
            None => None,
            Some(g) => Some(scissor_for(g)),
        };
        DrawPlan { upload_transform, scissor, quad_count: self.quads.len() }
    }
}

/// A second draw call with the transform of the first uploads nothing.
pub proof fn lemma_same_transform_uploaded_once<C>(s: DrawView<C>, transform: Seq<u32>)
    ensures
        !needs_upload(after_draw(s, transform), transform),
{
}

/// Uploading one batch and then another leaves exactly the second to be
/// drawn, never the two together.
pub proof fn lemma_upload_replaces_batch<C>(s: DrawView<C>, a: Seq<Quad<C>>, b: Seq<Quad<C>>, transform: Seq<u32>)
    ensures
        after_draw(after_upload(after_upload(s, a), b), transform).quads == b,
{
}

} // verus!
