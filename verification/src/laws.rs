//! What holds of the frame state over edits and frames.

use vstd::prelude::*;
use crate::app::{AppView, Edit, FramePlan};
use crate::camera::GpuCamera;
use crate::encoding::le_bytes;
use crate::scene::ObjectField;
use crate::surface::{Extent, SurfaceState};

verus! {

/// The state after one turn of the frame loop: a frame begun, submitted and
/// completed, or, with a viewport that holds no pixel, a frame skipped.
pub open spec fn frame_rendered(state: AppView) -> AppView {
    if state.viewport.is_empty() {
        state
    } else {
        state.frame_begun().frame_completed()
    }
}

/// The state after `frames` turns of the frame loop without an edit between them.
pub open spec fn frames_rendered(state: AppView, frames: nat) -> AppView
    decreases frames,
{
    if frames == 0 {
        state
    } else {
        frame_rendered(frames_rendered(state, (frames - 1) as nat))
    }
}

/// The startup state is well-formed, and every step keeps a well-formed state
/// well-formed: an edit, a new name, the begin of a frame and its completion.
pub proof fn lemma_steps_keep_wf(state: AppView, edit: Edit, id: u64, name: Seq<char>)
    requires
        state.wf(),
    ensures
        AppView::initial().wf(),
        state.admits(edit) ==> state.edited(edit).wf(),
        state.renamed(id, name).wf(),
        state.frame_begun().wf(),
        state.frame_completed().wf(),
{
    state.scene.lemma_edits_keep_wf(id, ObjectField::Radius(0), name);
    match edit {
        Edit::UpdateObject(target, field) => {
            state.scene.lemma_edits_keep_wf(target, field, name);
        },
        Edit::DeleteObject(target) => {
            state.scene.lemma_edits_keep_wf(target, ObjectField::Radius(0), name);
        },
        _ => {},
    }
}

/// Right after an edit that restarts the accumulation the counter is 0. From then
/// on, as long as no further edit is made, it goes up by exactly one with each
/// rendered frame, so after `frames` frames it is `frames`. While the viewport
/// holds no pixel, frames are skipped and the counter stays at 0.
pub proof fn lemma_counter_counts_frames_since_edit(state: AppView, edit: Edit, frames: nat)
    requires
        state.wf(),
        state.admits(edit),
        state.restarts(edit),
        frames <= u32::MAX,
    ensures
        state.edited(edit).frame_count == 0,
        !state.viewport.is_empty() ==> frames_rendered(state.edited(edit), frames).frame_count
            == frames,
        state.viewport.is_empty() ==> frames_rendered(state.edited(edit), frames).frame_count
            == 0,
        frames > 0 && !state.viewport.is_empty() ==> frames_rendered(
            state.edited(edit),
            frames,
        ).frame_count == frames_rendered(state.edited(edit), (frames - 1) as nat).frame_count + 1,
    decreases frames,
{
    let start = state.edited(edit);
    lemma_frames_keep_camera_scene_viewport(start, frames);
    if frames > 0 {
        let before = frames_rendered(start, (frames - 1) as nat);
        lemma_counter_counts_frames_since_edit(state, edit, (frames - 1) as nat);
        lemma_frames_keep_camera_scene_viewport(start, (frames - 1) as nat);
        if !state.viewport.is_empty() {
            if frames > 1 {
                assert(before == frame_rendered(frames_rendered(start, (frames - 2) as nat)));
                lemma_frames_keep_camera_scene_viewport(start, (frames - 2) as nat);
            }
        }
    }
}

/// Rendering frames changes neither camera nor scene nor viewport, and once a
/// frame was rendered the surfaces have the size of the viewport.
pub proof fn lemma_frames_keep_camera_scene_viewport(state: AppView, frames: nat)
    ensures
        frames_rendered(state, frames).camera == state.camera,
        frames_rendered(state, frames).scene == state.scene,
        frames_rendered(state, frames).viewport == state.viewport,
        frames > 0 && !state.viewport.is_empty() ==> frames_rendered(
            state,
            frames,
        ).surfaces.extent() == state.viewport && !frames_rendered(
            state,
            frames,
        ).recreates_surfaces(),
    decreases frames,
{
    if frames > 0 {
        lemma_frames_keep_camera_scene_viewport(state, (frames - 1) as nat);
    }
}

/// Once the viewport is reported with a width and a height above 0, the surfaces
/// of the next frame have exactly that size, each with the descriptor it had. If
/// that is not the size they had, the frame recreates them and is rendered with a
/// counter of 0.
pub proof fn lemma_resize_takes_effect_in_next_frame(
    state: AppView,
    width: u32,
    height: u32,
    tan_half_fov: u32,
    seed: u32,
    plan: FramePlan,
)
    requires
        state.wf(),
        width > 0,
        height > 0,
        state.edited(Edit::Resize(width, height)).plans(tan_half_fov, seed, plan),
    ensures
        state.edited(Edit::Resize(width, height)).frame_begun().surfaces.extent() == (Extent {
            width,
            height,
        }),
        state.edited(Edit::Resize(width, height)).frame_begun().surfaces.accumulation.descriptor
            == state.surfaces.accumulation.descriptor,
        state.edited(Edit::Resize(width, height)).frame_begun().surfaces.display.descriptor
            == state.surfaces.display.descriptor,
        plan matches FramePlan::Render(render) && render.extent == (Extent { width, height })
            && render.recreate_surfaces == (state.surfaces.extent() != Extent { width, height }),
        state.surfaces.extent() != (Extent { width, height }) ==> {
            &&& state.edited(Edit::Resize(width, height)).frame_begun().frame_count == 0
            &&& state.edited(Edit::Resize(width, height)).frame_begun().surfaces.accumulation.state
                == SurfaceState::Sized(Extent { width, height })
            &&& state.edited(Edit::Resize(width, height)).frame_begun().surfaces.display.state
                == SurfaceState::Sized(Extent { width, height })
            &&& plan matches FramePlan::Render(render) && render.camera_uniform@.subrange(
                GpuCamera::FRAME_COUNT_OFFSET as int,
                GpuCamera::FRAME_COUNT_OFFSET + 4,
            ) == le_bytes(0)
        },
        state.surfaces.extent() == (Extent { width, height }) ==> state.edited(
            Edit::Resize(width, height),
        ).frame_begun().frame_count == state.frame_count,
{
    let resized = state.edited(Edit::Resize(width, height));
    resized.camera.uniform_of(tan_half_fov, seed, resized.frame_begun().frame_count).lemma_layout();
}

/// A viewport without a pixel skips the frame: the plan asks for nothing and the
/// state, the counter with it, stays as it is.
pub proof fn lemma_empty_viewport_skips_frame(
    state: AppView,
    tan_half_fov: u32,
    seed: u32,
    plan: FramePlan,
)
    requires
        state.viewport.is_empty(),
        state.plans(tan_half_fov, seed, plan),
    ensures
        plan is Skip,
        state.frame_begun() == state,
        frame_rendered(state) == state,
{
}

/// The plan of a frame is a function of the state, the tangent and the random
/// number: two plans for the same three hold the same bytes and the same
/// decisions. Plans of states that differ in the counter alone differ in the four
/// counter bytes of the camera uniform alone.
pub proof fn lemma_plan_is_determined(
    state: AppView,
    tan_half_fov: u32,
    seed: u32,
    frame_count: u32,
    a: FramePlan,
    b: FramePlan,
)
    requires
        state.plans(tan_half_fov, seed, a),
        (AppView { frame_count, ..state }).plans(tan_half_fov, seed, b),
    ensures
        a is Skip <==> b is Skip,
        a matches FramePlan::Render(x) ==> b matches FramePlan::Render(y) && {
            &&& x.recreate_surfaces == y.recreate_surfaces
            &&& x.extent == y.extent
            &&& x.scene_buffer == y.scene_buffer
            &&& x.scene_data@ == y.scene_data@
            &&& x.dispatch == y.dispatch
            &&& x.camera_uniform@.len() == y.camera_uniform@.len()
            &&& forall|i: int|
                0 <= i < GpuCamera::SIZE && !(GpuCamera::FRAME_COUNT_OFFSET <= i
                    < GpuCamera::FRAME_COUNT_OFFSET + 4) ==> x.camera_uniform@[i]
                    == y.camera_uniform@[i]
            &&& frame_count == state.frame_count ==> x.camera_uniform@ == y.camera_uniform@
        },
{
    if !state.viewport.is_empty() {
        let other = AppView { frame_count, ..state };
        let record = state.camera.uniform_of(tan_half_fov, seed, state.frame_begun().frame_count);
        record.lemma_counter_changes_its_field_only(other.frame_begun().frame_count);
    }
}

} // verus!
