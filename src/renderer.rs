use vstd::prelude::*;

use crate::geometry::CUBE_INDEX_COUNT;
use crate::upload::TextureExtent;

verus! {

/// The bind group slot of the palette uniform, set once per pass.
pub const STATIC_BIND_GROUP: u32 = 0;

/// The bind group slot of the per-frame view uniform, set once per pass.
pub const FRAME_BIND_GROUP: u32 = 1;

/// The bind group slot of an object's voxel texture and model matrix, set before each draw.
pub const DRAW_BIND_GROUP: u32 = 2;

/// The size of the multisampled color target and of the depth target.
#[derive(Clone, Copy, Debug, PartialEq, Eq, Structural)]
pub struct TargetSize {
    pub width: u32,
    pub height: u32,
    pub sample_count: u32,
}

/// One draw of a frame: bind the per-draw group of the `resources`-th installed object in
/// slot `bind_group`, then draw `index_count` indices of the cube, `instance_count` times.
#[derive(Clone, Copy, Debug, PartialEq, Eq, Structural)]
pub struct DrawCommand {
    pub resources: usize,
    pub bind_group: u32,
    pub index_count: u32,
    pub instance_count: u32,
}

/// Why a renderer cannot be created.
#[derive(Clone, Copy, Debug, PartialEq, Eq, Structural)]
pub enum InitializationError {
    /// The surface reports no presentation format that the adapter supports.
    NoSurfaceFormat,
}

/// Picks the presentation format of the surface: the first that it reports, with no ranking.
pub fn choose_surface_format<F: Copy>(supported: &Vec<F>) -> (r: Result<F, InitializationError>)
    ensures
        r is Ok <==> supported@.len() > 0,
        r matches Ok(f) ==> f == supported@[0],
        r matches Err(e) ==> e == InitializationError::NoSurfaceFormat,
{
    if supported.len() == 0 {
        Err(InitializationError::NoSurfaceFormat)
    } else {
        Ok(supported[0])
    }
}

/// The abstract state of a renderer: the surface size, the sample count, how many scenes
/// have been installed, and the per-object resources of the last one, in upload order.
pub struct RendererState<R> {
    pub width: u32,
    pub height: u32,
    pub sample_count: u32,
    pub generation: nat,
    pub draws: Seq<R>,
}

/// The render targets that match a state's surface.
pub open spec fn render_targets<R>(s: RendererState<R>) -> TargetSize {
    TargetSize { width: s.width, height: s.height, sample_count: s.sample_count }
}

/// The state after the surface is resized: nothing but its size changes.
pub open spec fn resized<R>(s: RendererState<R>, width: u32, height: u32) -> RendererState<R> {
    RendererState { width, height, ..s }
}

/// The state after a scene's resources replace the previous scene's, all at once.
pub open spec fn installed<R>(s: RendererState<R>, draws: Seq<R>) -> RendererState<R> {
    RendererState { generation: s.generation + 1, draws, ..s }
}

/// The draw of the `i`-th object.
pub open spec fn draw_of(i: int) -> DrawCommand {
    DrawCommand {
        resources: i as usize,
        bind_group: DRAW_BIND_GROUP,
        index_count: CUBE_INDEX_COUNT,
        instance_count: 1,
    }
}

/// The draws of a frame: one per installed object, in upload order.
pub open spec fn draw_plan<R>(s: RendererState<R>) -> Seq<DrawCommand> {
    Seq::new(s.draws.len(), |i: int| draw_of(i))
}

/// Which resources a draw of state `s` binds: those of scene number `s.generation`, at the
/// draw's place in it.
pub open spec fn draw_source<R>(s: RendererState<R>, d: DrawCommand) -> (nat, int) {
    (s.generation, d.resources as int)
}

/// The part of a renderer that decides: what the surface and render targets measure, which
/// per-object resources are live, and what a frame draws. `R` is what is created on the
/// device for one object; the renderer owns it until the next scene replaces it.
pub struct RendererCore<R> {
    width: u32,
    height: u32,
    sample_count: u32,
    generation: Ghost<nat>,
    draws: Vec<R>,
}

impl<R> View for RendererCore<R> {
    type V = RendererState<R>;

    closed spec fn view(&self) -> RendererState<R> {
        RendererState {
            width: self.width,
            height: self.height,
            sample_count: self.sample_count,
            generation: self.generation@,
            draws: self.draws@,
        }
    }
}

impl<R> RendererCore<R> {
    /// A renderer for a surface of the given size, with no scene yet.
    pub fn new(width: u32, height: u32, sample_count: u32) -> (r: Self)
        ensures
            r@.width == width,
            r@.height == height,
            r@.sample_count == sample_count,
            r@.generation == 0,
            r@.draws.len() == 0,
    {
        RendererCore { width, height, sample_count, generation: Ghost(0), draws: Vec::new() }
    }

    /// Records a new surface size and returns the render targets to create for it.
    pub fn resize(&mut self, width: u32, height: u32) -> (r: TargetSize)
        ensures
            final(self)@ == resized(old(self)@, width, height),
            r == render_targets(final(self)@),
    {
        self.width = width;
        self.height = height;
        self.target_size()
    }

    /// The render targets that the current surface needs.
    pub fn target_size(&self) -> (r: TargetSize)
        ensures
            r == render_targets(self@),
            r.width == self@.width && r.height == self@.height,
    {
        TargetSize { width: self.width, height: self.height, sample_count: self.sample_count }
    }

    /// The extent of each render target: the surface's size, in one layer.
    pub fn target_extent(&self) -> (r: TextureExtent)
        ensures
            r == (TextureExtent { width: self@.width, height: self@.height, depth_or_array_layers: 1 }),
    {
        TextureExtent { width: self.width, height: self.height, depth_or_array_layers: 1 }
    }

    /// Replaces the live per-object resources with those of a new scene, in one step; the
    /// previous scene's resources are dropped only once the new ones are in place.
    pub fn install_scene(&mut self, resources: Vec<R>)
        ensures
            final(self)@ == installed(old(self)@, resources@),
    {
        self.draws = resources;
        self.generation = Ghost(self.generation@ + 1);
    }

    /// The live per-object resources, in upload order, lent for the length of a frame.
    pub fn draw_resources(&self) -> (r: &Vec<R>)
        ensures
            r@ == self@.draws,
    {
        &self.draws
    }

    /// The draws of the next frame: one per live object, in upload order, each binding that
    /// object's per-draw group and drawing the whole cube once.
    pub fn render_plan(&self) -> (r: Vec<DrawCommand>)
        ensures
            r@ == draw_plan(self@),
    {
        let mut r: Vec<DrawCommand> = Vec::new();
        let mut i: usize = 0;
        while i < self.draws.len()
            invariant
                i <= self.draws@.len(),
                r@ == draw_plan(self@).take(i as int),
            decreases self.draws@.len() - i,
        {
            r.push(DrawCommand {
                resources: i,
                bind_group: DRAW_BIND_GROUP,
                index_count: CUBE_INDEX_COUNT,
                instance_count: 1,
            });
            assert(r@ =~= draw_plan(self@).take(i + 1));
            i += 1;
        }
        assert(r@ =~= draw_plan(self@));
        r
    }
}

} // verus!
