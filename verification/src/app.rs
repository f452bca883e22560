//! The state a frame is rendered from, and the decisions of each frame.
//!
//! The caller owns the device. Between frames it reports edits with `apply`. For
//! each frame it calls `begin_frame`, carries out the plan it gets in the order of
//! the plan's fields (surfaces, camera uniform, scene buffer, scene data, then the
//! raytracing dispatch followed by the copy to the display surface), submits, and
//! calls `complete_frame`. A plan of `Skip` asks for nothing: nothing is submitted
//! and `complete_frame` is not called.

use vstd::prelude::*;
use crate::camera::{Camera, CameraField, GpuCamera};
use crate::dispatch::{dispatch_grid, DispatchGrid};
use crate::scene::{serialized_size, ObjectField, Scene, SceneView};
use crate::scene_buffer::{records_of, scene_bytes, serialize, BufferAction, SceneBuffer};
use crate::surface::{Extent, ResizeOutcome, SurfaceManager};

verus! {

/// A change reported by the layer that the user edits through.
#[derive(Clone, Copy, Debug, PartialEq, Eq, Structural)]
pub enum Edit {
    /// A camera field was given a value.
    SetCameraField(CameraField),
    /// A hypersphere is to be added.
    AddObject,
    /// A field of the hypersphere with this identity was given a value.
    UpdateObject(u64, ObjectField),
    /// The hypersphere with this identity is to be removed.
    DeleteObject(u64),
    /// The viewport now has this width and height.
    Resize(u32, u32),
}

/// What the caller does for one frame.
#[derive(Debug, PartialEq, Eq)]
pub enum FramePlan {
    /// The viewport holds no pixel: no device work, no submission.
    Skip,
    /// Render one frame.
    Render(RenderPlan),
}

/// The device work of one rendered frame.
#[derive(Debug, PartialEq, Eq)]
pub struct RenderPlan {
    /// Whether both surfaces, and the binding sets that name them, are made anew
    /// at `extent` before anything else. The new display surface is registered
    /// with the presentation layer under the handle of the old one.
    pub recreate_surfaces: bool,
    /// Size of both surfaces during this frame.
    pub extent: Extent,
    /// The whole camera uniform record.
    pub camera_uniform: Vec<u8>,
    /// Whether the scene buffer is replaced before `scene_data` is written.
    pub scene_buffer: BufferAction,
    /// The whole serialized scene, written from the start of the scene buffer.
    pub scene_data: Vec<u8>,
    /// Workgroups of the raytracing pass and of the copy pass that follows it.
    pub dispatch: DispatchGrid,
}

/// The state as contracts speak of it.
pub struct AppView {
    pub camera: Camera,
    pub scene: SceneView,
    /// Frames rendered since the picture last changed.
    pub frame_count: u32,
    /// The viewport as last reported.
    pub viewport: Extent,
    pub surfaces: SurfaceManager,
    pub scene_buffer: SceneBuffer,
}

impl AppView {
    /// Every part of the state is well-formed.
    pub open spec fn wf(self) -> bool {
        &&& self.camera.wf()
        &&& self.scene.wf()
        &&& self.surfaces.wf()
        &&& self.scene_buffer.wf()
    }

    /// The state at startup: the default camera and hypersphere, nothing
    /// accumulated, no viewport reported yet, placeholder surfaces and a scene
    /// buffer of the size of the header.
    pub open spec fn initial() -> AppView {
        AppView {
            camera: Camera::initial(),
            scene: SceneView::initial(),
            frame_count: 0,
            viewport: Extent { width: 0, height: 0 },
            surfaces: SurfaceManager::initial(),
            scene_buffer: SceneBuffer::initial(),
        }
    }

    /// Whether `edit` can be applied: adding needs room in the scene.
    pub open spec fn admits(self, edit: Edit) -> bool {
        edit is AddObject ==> self.scene.has_room()
    }

    /// Whether `edit` restarts the accumulation. Every camera edit and every
    /// added hypersphere does; an update or a removal does where the hypersphere
    /// exists. A new viewport size does not by itself: the next frame restarts
    /// where it recreates the surfaces.
    pub open spec fn restarts(self, edit: Edit) -> bool {
        match edit {
            Edit::SetCameraField(_) => true,
            Edit::AddObject => true,
            Edit::UpdateObject(id, _) => self.scene.contains(id),
            Edit::DeleteObject(id) => self.scene.contains(id),
            Edit::Resize(_, _) => false,
        }
    }

    /// Camera, scene and viewport after `edit`, before the counter is looked at.
    pub open spec fn with_edit(self, edit: Edit) -> AppView {
        match edit {
            Edit::SetCameraField(field) => AppView {
                camera: self.camera.with_field(field),
                ..self
            },
            Edit::AddObject => AppView { scene: self.scene.added(), ..self },
            Edit::UpdateObject(id, field) => AppView {
                scene: self.scene.updated(id, field),
                ..self
            },
            Edit::DeleteObject(id) => AppView { scene: self.scene.deleted(id), ..self },
            Edit::Resize(width, height) => AppView { viewport: Extent { width, height }, ..self },
        }
    }

    /// The state after `edit`.
    pub open spec fn edited(self, edit: Edit) -> AppView {
        AppView {
            frame_count: if self.restarts(edit) {
                0
            } else {
                self.frame_count
            },
            ..self.with_edit(edit)
        }
    }

    /// The state after the hypersphere `id` is given another name. The counter
    /// stays: the name has no part in the picture.
    pub open spec fn renamed(self, id: u64, name: Seq<char>) -> AppView {
        AppView { scene: self.scene.renamed(id, name), ..self }
    }

    /// Whether the frame that begins in this state recreates the surfaces.
    pub open spec fn recreates_surfaces(self) -> bool {
        self.surfaces.outcome_for(self.viewport) is Recreated
    }

    /// Length of the serialized scene.
    pub open spec fn scene_size(self) -> nat {
        serialized_size(self.scene.objects.len())
    }

    /// The state after a frame has begun. With an empty viewport nothing
    /// changes. Otherwise the surfaces have the size of the viewport, the counter
    /// is 0 if they were recreated for that, and the scene buffer holds the scene.
    pub open spec fn frame_begun(self) -> AppView {
        if self.viewport.is_empty() {
            self
        } else {
            AppView {
                surfaces: self.surfaces.resized(self.viewport),
                frame_count: if self.recreates_surfaces() {
                    0
                } else {
                    self.frame_count
                },
                scene_buffer: self.scene_buffer.grown_to(self.scene_size() as u64),
                ..self
            }
        }
    }

    /// Whether `plan` is the plan of the frame that begins in this state, given
    /// the tangent of half the field of view and the random number of the frame.
    pub open spec fn plans(self, tan_half_fov: u32, seed: u32, plan: FramePlan) -> bool {
        if self.viewport.is_empty() {
            plan is Skip
        } else {
            &&& plan matches FramePlan::Render(render)
            &&& render.recreate_surfaces == self.recreates_surfaces()
            &&& render.extent == self.viewport
            &&& render.camera_uniform@ == self.camera.uniform_of(
                tan_half_fov,
                seed,
                self.frame_begun().frame_count,
            ).bytes()
            &&& render.scene_buffer == self.scene_buffer.action_for(self.scene_size() as u64)
            &&& render.scene_data@ == scene_bytes(self.scene.gpu_records())
            &&& render.dispatch == DispatchGrid::covering(self.viewport.width, self.viewport.height)
        }
    }

    /// The state after the frame was submitted: one more frame is accumulated.
    pub open spec fn frame_completed(self) -> AppView {
        AppView { frame_count: (self.frame_count + 1) as u32, ..self }
    }
}

/// The frame state and what is recorded of the device objects made from it.
pub struct App {
    camera: Camera,
    scene: Scene,
    frame_count: u32,
    viewport: Extent,
    surfaces: SurfaceManager,
    scene_buffer: SceneBuffer,
}

impl View for App {
    type V = AppView;

    closed spec fn view(&self) -> AppView {
        AppView {
            camera: self.camera,
            scene: self.scene@,
            frame_count: self.frame_count,
            viewport: self.viewport,
            surfaces: self.surfaces,
            scene_buffer: self.scene_buffer,
        }
    }
}

/// Draws the random number of one frame with `rand::random`. Nothing is claimed of
/// the number: any `u32` may come back, and two calls may differ. The call fails
/// only where the operating system gives the generator no entropy to start from.
#[verifier::external_body]
fn draw_seed() -> (seed: u32) {
    rand::random()
}

impl App {
    /// The invariant of the state: see `AppView::wf`.
    pub open spec fn wf(&self) -> bool {
        self@.wf()
    }

    /// The state at startup.
    pub fn new() -> (app: App)
        ensures
            app.wf(),
            app@ == AppView::initial(),
    {
        App {
            camera: Camera::new(),
            scene: Scene::new(),
            frame_count: 0,
            viewport: Extent { width: 0, height: 0 },
            surfaces: SurfaceManager::new(),
            scene_buffer: SceneBuffer::new(),
        }
    }

    /// The camera as last edited.
    pub fn camera(&self) -> (camera: Camera)
        ensures
            camera == self@.camera,
    {
        self.camera
    }

    /// The hyperspheres.
    pub fn scene(&self) -> (scene: &Scene)
        ensures
            scene@ == self@.scene,
    {
        &self.scene
    }

    /// Frames rendered since the picture last changed.
    pub fn frame_count(&self) -> (count: u32)
        ensures
            count == self@.frame_count,
    {
        self.frame_count
    }

    /// The viewport as last reported.
    pub fn viewport(&self) -> (viewport: Extent)
        ensures
            viewport == self@.viewport,
    {
        self.viewport
    }

    /// Descriptors and recorded size of the two surfaces.
    pub fn surfaces(&self) -> (surfaces: SurfaceManager)
        ensures
            surfaces == self@.surfaces,
    {
        self.surfaces
    }

    /// Recorded size of the scene buffer.
    pub fn scene_buffer(&self) -> (buffer: SceneBuffer)
        ensures
            buffer == self@.scene_buffer,
    {
        self.scene_buffer
    }

    /// Whether `edit` can be applied now.
    pub fn admits(&self, edit: Edit) -> (admitted: bool)
        ensures
            admitted == self@.admits(edit),
    {
        match edit {
            Edit::AddObject => self.scene.has_room(),
            _ => true,
        }
    }

    /// Applies one edit and returns whether it restarted the accumulation. If it
    /// did, the counter is 0; if not, the counter is what it was. A bounce or sample
    /// count of 0 is stored as 1. An update or removal of a hypersphere that does
    /// not exist changes nothing.
    pub fn apply(&mut self, edit: Edit) -> (restarted: bool)
        requires
            old(self).wf(),
            old(self)@.admits(edit),
        ensures
            final(self).wf(),
            final(self)@ == old(self)@.edited(edit),
            restarted == old(self)@.restarts(edit),
            restarted ==> final(self)@.frame_count == 0,
            !restarted ==> final(self)@.frame_count == old(self)@.frame_count,
    {
        let restarted = match edit {
            Edit::SetCameraField(field) => {
                self.camera.set_field(field);
                true
            },
            Edit::AddObject => {
                let _ = self.scene.add();
                true
            },
            Edit::UpdateObject(id, field) => self.scene.update(id, field),
            Edit::DeleteObject(id) => self.scene.delete(id),
            Edit::Resize(width, height) => {
                self.viewport = Extent { width, height };
                false
            },
        };
        if restarted {
            self.frame_count = 0;
        }
        restarted
    }

    /// Gives the hypersphere `id` another name and returns whether there is such a
    /// hypersphere. The counter stays as it is.
    pub fn rename_object(&mut self, id: u64, name: String) -> (found: bool)
        requires
            old(self).wf(),
        ensures
            final(self).wf(),
            final(self)@ == old(self)@.renamed(id, name@),
            found == old(self)@.scene.contains(id),
            final(self)@.frame_count == old(self)@.frame_count,
    {
        self.scene.rename(id, name)
    }

    /// Begins a frame with a given random number. See `begin_frame`.
    pub fn begin_frame_with_seed(&mut self, tan_half_fov: u32, seed: u32) -> (plan: FramePlan)
        requires
            old(self).wf(),
        ensures
            final(self).wf(),
            final(self)@ == old(self)@.frame_begun(),
            old(self)@.plans(tan_half_fov, seed, plan),
    {
        if self.viewport.has_no_area() {
            return FramePlan::Skip;
        }
        let outcome = self.surfaces.resize(self.viewport);
        let recreate_surfaces = match outcome {
            ResizeOutcome::Recreated => true,
            _ => false,
        };
        if recreate_surfaces {
            self.frame_count = 0;
        }
        let camera_uniform = self.camera.uniform(tan_half_fov, seed, self.frame_count).serialize();
        let objects = self.scene.objects();
        proof {
            assert(records_of(objects@) =~= self.scene@.gpu_records());
        }
        let scene_data = serialize(objects);
        let scene_buffer = self.scene_buffer.ensure_capacity(scene_data.len() as u64);
        let dispatch = dispatch_grid(self.viewport.width, self.viewport.height);
        FramePlan::Render(
            RenderPlan {
                recreate_surfaces,
                extent: self.viewport,
                camera_uniform,
                scene_buffer,
                scene_data,
                dispatch,
            },
        )
    }

    /// Begins a frame: decides what the device does for it, and records what that
    /// does to surfaces, counter and scene buffer.
    ///
    /// With a viewport that holds no pixel the plan is `Skip` and the state stays
    /// as it is. Otherwise the surfaces are brought to the size of the viewport,
    /// which restarts the accumulation if they had another size; the camera
    /// uniform carries the counter as it then is and a random number drawn for
    /// this frame; the scene buffer grows to the serialized scene if it is smaller;
    /// and the dispatch covers the viewport.
    ///
    /// `tan_half_fov` is the tangent of half the camera's field of view, as a
    /// single-precision bit pattern.
    pub fn begin_frame(&mut self, tan_half_fov: u32) -> (plan: FramePlan)
        requires
            old(self).wf(),
        ensures
            final(self).wf(),
            final(self)@ == old(self)@.frame_begun(),
            exists|seed: u32| old(self)@.plans(tan_half_fov, seed, plan),
    {
        if self.viewport.has_no_area() {
            assert(self@.plans(tan_half_fov, 0, FramePlan::Skip));
            return FramePlan::Skip;
        }
        let seed = draw_seed();
        self.begin_frame_with_seed(tan_half_fov, seed)
    }

    /// Records that the frame was submitted: the counter goes up by one.
    pub fn complete_frame(&mut self)
        requires
            old(self).wf(),
            old(self)@.frame_count < u32::MAX,
        ensures
            final(self).wf(),
            final(self)@ == old(self)@.frame_completed(),
            final(self)@.frame_count == old(self)@.frame_count + 1,
    {
        self.frame_count = self.frame_count + 1;
    }
}

} // verus!
