use vstd::prelude::*;

use crate::geometry::CUBE_INDEX_COUNT;
use crate::renderer::{
    draw_plan, draw_source, installed, render_targets, resized, RendererState, DRAW_BIND_GROUP,
};
use crate::scene::Scene;
use crate::upload::{plan_matches, UploadPlan};

verus! {

/// When a scene's upload plan has been carried out, one set of resources created per planned
/// object, and those resources are installed, the next frame issues exactly one draw per
/// object of the scene, in upload order; each draw binds, in the per-draw slot, the group of
/// its own object, which no other draw binds, and draws the whole cube once.
pub proof fn lemma_upload_then_render<R>(
    s: RendererState<R>,
    scene: Scene,
    plan: UploadPlan,
    resources: Seq<R>,
)
    requires
        plan_matches(scene, plan),
        resources.len() == plan.objects@.len(),
        resources.len() <= usize::MAX,
    ensures
        ({
            let t = installed(s, resources);
            let d = draw_plan(t);
            &&& d.len() == scene.objects@.len()
            &&& forall|i: int|
                0 <= i < d.len() ==> {
                    &&& (#[trigger] d[i]).resources == i
                    &&& t.draws[d[i].resources as int] == resources[i]
                    &&& d[i].bind_group == DRAW_BIND_GROUP
                    &&& d[i].index_count == CUBE_INDEX_COUNT
                    &&& d[i].instance_count == 1
                }
            &&& forall|i: int, j: int|
                0 <= i < d.len() && 0 <= j < d.len() && i != j ==> (#[trigger] d[i]).resources != (#[trigger] d[j]).resources
        }),
{
}

/// Installing scene A's resources and then scene B's leaves only B's: the next frame issues
/// exactly one draw per resource set of B, each binding B's set at its place, and none binds
/// anything created for A.
pub proof fn lemma_no_cross_generation<R>(s: RendererState<R>, a: Seq<R>, b: Seq<R>)
    requires
        b.len() <= usize::MAX,
    ensures
        ({
            let sa = installed(s, a);
            let sb = installed(sa, b);
            let d = draw_plan(sb);
            &&& d.len() == b.len()
            &&& forall|i: int|
                0 <= i < d.len() ==> {
                    &&& draw_source(sb, #[trigger] d[i]).0 != sa.generation
                    &&& sb.draws[d[i].resources as int] == b[i]
                }
        }),
{
}

/// After a resize to (w, h) the render targets measure exactly (w, h), as the surface does, and
/// the live scene is untouched.
pub proof fn lemma_resize_sets_targets<R>(s: RendererState<R>, w: u32, h: u32)
    ensures
        render_targets(resized(s, w, h)).width == w,
        render_targets(resized(s, w, h)).height == h,
        render_targets(resized(s, w, h)).sample_count == s.sample_count,
        resized(s, w, h).width == w && resized(s, w, h).height == h,
        draw_plan(resized(s, w, h)) == draw_plan(s),
{
}

/// Resizing twice to the same size leaves the renderer, its render targets and its next
/// frame's draws as one resize does.
pub proof fn lemma_resize_idempotent<R>(s: RendererState<R>, w: u32, h: u32)
    ensures
        resized(resized(s, w, h), w, h) == resized(s, w, h),
        render_targets(resized(resized(s, w, h), w, h)) == render_targets(resized(s, w, h)),
        draw_plan(resized(resized(s, w, h), w, h)) == draw_plan(resized(s, w, h)),
{
}

} // verus!
