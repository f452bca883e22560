//! The hyperspheres of the scene, and the edits that add, change and remove them.

use vstd::prelude::*;
use crate::encoding::{le_bytes, put_u32, put_vector3, put_vector4, Vector3, Vector4};

verus! {

/// Position of a new hypersphere: (2, 0, 0, 0).
pub open spec fn initial_position() -> Vector4 {
    Vector4 { x: 0x4000_0000, y: 0, z: 0, w: 0 }
}

/// Colour of the hypersphere the scene starts with: (0.9, 0.1, 0.1).
pub open spec fn default_color() -> Vector3 {
    Vector3 { x: 0x3F66_6666, y: 0x3DCC_CCCD, z: 0x3DCC_CCCD }
}

/// Colour of a hypersphere added later: (0.9, 0.9, 0.9).
pub open spec fn added_color() -> Vector3 {
    Vector3 { x: 0x3F66_6666, y: 0x3F66_6666, z: 0x3F66_6666 }
}

/// Radius of a new hypersphere: 1.
pub const INITIAL_RADIUS: u32 = 0x3F80_0000;

/// Bytes before the first record of a serialized scene: the count, filled up to
/// the alignment of a record.
pub const SCENE_HEADER_SIZE: usize = 16;

/// Length of the serialized scene of `count` hyperspheres.
pub open spec fn serialized_size(count: nat) -> nat {
    SCENE_HEADER_SIZE as nat + count * (GpuHyperSphere::SIZE as nat)
}

/// Whether a scene of `count` hyperspheres can be serialized on this machine: the
/// count fits the four bytes it is written in, and the length fits a `usize`.
pub open spec fn serializable(count: nat) -> bool {
    &&& count <= u32::MAX
    &&& serialized_size(count) <= usize::MAX
}

/// Whether a scene of `count` hyperspheres can be serialized on this machine.
pub fn is_serializable(count: usize) -> (fits: bool)
    ensures
        fits == serializable(count as nat),
{
    let most: usize = (usize::MAX - SCENE_HEADER_SIZE) / GpuHyperSphere::SIZE;
    count <= most && count <= u32::MAX as usize
}

/// One hypersphere of the scene.
#[derive(Clone, Debug, PartialEq, Eq)]
pub struct HyperSphere {
    /// Name shown to the user. It has no part in the picture.
    pub name: String,
    /// Identity, given once and to no other hypersphere.
    pub id: u64,
    /// Centre.
    pub position: Vector4,
    pub color: Vector3,
    /// Radius, as a single-precision bit pattern.
    pub radius: u32,
}

/// A hypersphere as contracts speak of it.
pub struct HyperSphereView {
    pub name: Seq<char>,
    pub id: u64,
    pub position: Vector4,
    pub color: Vector3,
    pub radius: u32,
}

/// One field of a hypersphere that shows in the picture, with the value an edit
/// gives it.
#[derive(Clone, Copy, Debug, PartialEq, Eq, Structural)]
pub enum ObjectField {
    Position(Vector4),
    Color(Vector3),
    Radius(u32),
}

/// A hypersphere as the raytracing program reads it.
#[derive(Clone, Copy, Debug, PartialEq, Eq, Structural)]
pub struct GpuHyperSphere {
    pub position: Vector4,
    pub color: Vector3,
    pub radius: u32,
}

impl GpuHyperSphere {
    /// Size of one record in bytes.
    pub const SIZE: usize = 32;

    /// The record without gaps: position, colour, radius.
    pub open spec fn bytes(self) -> Seq<u8> {
        self.position.bytes() + self.color.bytes() + le_bytes(self.radius)
    }

    /// A record has `SIZE` bytes, with the colour at offset 16 and the radius at 28.
    pub proof fn lemma_layout(self)
        ensures
            self.bytes().len() == GpuHyperSphere::SIZE,
            self.bytes().subrange(0, 16) == self.position.bytes(),
            self.bytes().subrange(16, 28) == self.color.bytes(),
            self.bytes().subrange(28, 32) == le_bytes(self.radius),
    {
    }

    /// Appends the record to `buffer`.
    pub fn write_to(&self, buffer: &mut Vec<u8>)
        ensures
            final(buffer)@ == old(buffer)@ + self.bytes(),
    {
        put_vector4(buffer, self.position);
        put_vector3(buffer, self.color);
        put_u32(buffer, self.radius);
    }
}

impl View for HyperSphere {
    type V = HyperSphereView;

    open spec fn view(&self) -> HyperSphereView {
        HyperSphereView {
            name: self.name@,
            id: self.id,
            position: self.position,
            color: self.color,
            radius: self.radius,
        }
    }
}

impl HyperSphere {
    /// What the device is given of the hypersphere.
    pub fn gpu(&self) -> (record: GpuHyperSphere)
        ensures
            record == self@.gpu(),
    {
        GpuHyperSphere { position: self.position, color: self.color, radius: self.radius }
    }
}

impl HyperSphereView {
    /// The hypersphere the scene starts with.
    pub open spec fn default_sphere() -> HyperSphereView {
        HyperSphereView {
            name: "Default Hyper Sphere"@,
            id: 0,
            position: initial_position(),
            color: default_color(),
            radius: INITIAL_RADIUS,
        }
    }

    /// The hypersphere that an "add" edit makes, under the identity `id`.
    pub open spec fn added_sphere(id: u64) -> HyperSphereView {
        HyperSphereView {
            name: "New Hyper Sphere"@,
            id,
            position: initial_position(),
            color: added_color(),
            radius: INITIAL_RADIUS,
        }
    }

    /// The hypersphere with one field replaced.
    pub open spec fn with_field(self, field: ObjectField) -> HyperSphereView {
        match field {
            ObjectField::Position(v) => HyperSphereView { position: v, ..self },
            ObjectField::Color(v) => HyperSphereView { color: v, ..self },
            ObjectField::Radius(v) => HyperSphereView { radius: v, ..self },
        }
    }

    /// The hypersphere under another name.
    pub open spec fn with_name(self, name: Seq<char>) -> HyperSphereView {
        HyperSphereView { name, ..self }
    }

    /// What the device is given of the hypersphere: all but name and identity.
    pub open spec fn gpu(self) -> GpuHyperSphere {
        GpuHyperSphere { position: self.position, color: self.color, radius: self.radius }
    }
}

/// The scene as contracts speak of it: the hyperspheres in display order, and the
/// identity that the next added hypersphere gets.
pub struct SceneView {
    pub objects: Seq<HyperSphereView>,
    pub next_id: u64,
}

impl SceneView {
    /// Identities grow along the list and stay below `next_id`, so none occurs
    /// twice and none is given again; and the scene can be serialized.
    pub open spec fn wf(self) -> bool {
        &&& forall|i: int, j: int|
            0 <= i < j < self.objects.len() ==> self.objects[i].id < self.objects[j].id
        &&& forall|i: int| 0 <= i < self.objects.len() ==> self.objects[i].id < self.next_id
        &&& serializable(self.objects.len())
    }

    /// The scene at startup: the default hypersphere alone, under identity 0.
    pub open spec fn initial() -> SceneView {
        SceneView { objects: seq![HyperSphereView::default_sphere()], next_id: 1 }
    }

    /// Whether a hypersphere has the identity `id`.
    pub open spec fn contains(self, id: u64) -> bool {
        exists|i: int| 0 <= i < self.objects.len() && self.objects[i].id == id
    }

    /// Where the hypersphere with identity `id` stands. Meaningful where
    /// `contains(id)`.
    pub open spec fn index_of(self, id: u64) -> int {
        choose|i: int| 0 <= i < self.objects.len() && self.objects[i].id == id
    }

    /// Whether one more hypersphere can be added: the larger scene can still be
    /// serialized, and an identity is left.
    pub open spec fn has_room(self) -> bool {
        &&& serializable(self.objects.len() + 1)
        &&& self.next_id < u64::MAX
    }

    /// The scene after an "add" edit: a new hypersphere at the end, under the
    /// identity `next_id`.
    pub open spec fn added(self) -> SceneView {
        SceneView {
            objects: self.objects.push(HyperSphereView::added_sphere(self.next_id)),
            next_id: (self.next_id + 1) as u64,
        }
    }

    /// The scene after an "update" edit of the hypersphere `id`: unchanged where
    /// there is none.
    pub open spec fn updated(self, id: u64, field: ObjectField) -> SceneView {
        if self.contains(id) {
            let i = self.index_of(id);
            SceneView { objects: self.objects.update(i, self.objects[i].with_field(field)), ..self }
        } else {
            self
        }
    }

    /// The scene after the hypersphere `id` is given another name: unchanged where
    /// there is none.
    pub open spec fn renamed(self, id: u64, name: Seq<char>) -> SceneView {
        if self.contains(id) {
            let i = self.index_of(id);
            SceneView { objects: self.objects.update(i, self.objects[i].with_name(name)), ..self }
        } else {
            self
        }
    }

    /// The scene after a "delete" edit of the hypersphere `id`: the others keep
    /// their order; unchanged where there is none.
    pub open spec fn deleted(self, id: u64) -> SceneView {
        if self.contains(id) {
            SceneView { objects: self.objects.remove(self.index_of(id)), ..self }
        } else {
            self
        }
    }

    /// The records handed to the device, in display order.
    pub open spec fn gpu_records(self) -> Seq<GpuHyperSphere> {
        self.objects.map_values(|o: HyperSphereView| o.gpu())
    }

    /// In a well-formed scene an identity stands at one place only.
    pub proof fn lemma_index_of(self, id: u64, i: int)
        requires
            self.wf(),
            0 <= i < self.objects.len(),
            self.objects[i].id == id,
        ensures
            self.contains(id),
            self.index_of(id) == i,
    {
        let k = self.index_of(id);
        assert(0 <= k < self.objects.len() && self.objects[k].id == id);
        if k < i {
            assert(self.objects[k].id < self.objects[i].id);
        } else if i < k {
            assert(self.objects[i].id < self.objects[k].id);
        }
    }

    /// No identity is given twice. Every identity in the scene lies below
    /// `next_id`; an added hypersphere gets `next_id`, which none has, and raises
    /// it; no other edit changes `next_id` or brings an identity into the scene.
    pub proof fn lemma_identities_are_fresh(self, id: u64, field: ObjectField, name: Seq<char>)
        requires
            self.wf(),
        ensures
            forall|k: u64| self.contains(k) ==> k < self.next_id,
            self.has_room() ==> {
                &&& !self.contains(self.next_id)
                &&& self.added().contains(self.next_id)
                &&& self.added().next_id == self.next_id + 1
                &&& forall|k: u64| self.added().contains(k) ==> self.contains(k) || k == self.next_id
            },
            self.updated(id, field).next_id == self.next_id,
            self.renamed(id, name).next_id == self.next_id,
            self.deleted(id).next_id == self.next_id,
            forall|k: u64| self.updated(id, field).contains(k) ==> self.contains(k),
            forall|k: u64| self.renamed(id, name).contains(k) ==> self.contains(k),
            forall|k: u64| self.deleted(id).contains(k) ==> self.contains(k),
            !self.deleted(id).contains(id),
    {
        assert forall|k: u64| self.contains(k) implies k < self.next_id by {
            let i = choose|i: int| 0 <= i < self.objects.len() && self.objects[i].id == k;
            assert(self.objects[i].id < self.next_id);
        }
        if self.has_room() {
            let added = self.added();
            assert(added.objects[self.objects.len() as int].id == self.next_id);
            assert forall|k: u64| added.contains(k) implies self.contains(k) || k
                == self.next_id by {
                let i = choose|i: int| 0 <= i < added.objects.len() && added.objects[i].id == k;
                if i < self.objects.len() {
                    assert(self.objects[i].id == k);
                }
            }
        }
        if self.contains(id) {
            let at = self.index_of(id);
            let updated = self.updated(id, field);
            assert forall|k: u64| updated.contains(k) implies self.contains(k) by {
                let i = choose|i: int| 0 <= i < updated.objects.len() && updated.objects[i].id == k;
                assert(self.objects[i].id == k);
            }
            let renamed = self.renamed(id, name);
            assert forall|k: u64| renamed.contains(k) implies self.contains(k) by {
                let i = choose|i: int| 0 <= i < renamed.objects.len() && renamed.objects[i].id == k;
                assert(self.objects[i].id == k);
            }
            let deleted = self.deleted(id);
            assert forall|k: u64| deleted.contains(k) implies self.contains(k) && k != id by {
                let i = choose|i: int| 0 <= i < deleted.objects.len() && deleted.objects[i].id == k;
                let from = if i < at { i } else { i + 1 };
                assert(deleted.objects[i] == self.objects[from]);
                assert(self.objects[from].id == k);
                if from < at {
                    assert(self.objects[from].id < self.objects[at].id);
                } else {
                    assert(self.objects[at].id < self.objects[from].id);
                }
            }
        }
    }

    /// Every edit keeps a well-formed scene well-formed.
    pub proof fn lemma_edits_keep_wf(self, id: u64, field: ObjectField, name: Seq<char>)
        requires
            self.wf(),
        ensures
            self.updated(id, field).wf(),
            self.renamed(id, name).wf(),
            self.deleted(id).wf(),
            self.has_room() ==> self.added().wf(),
    {
        if self.contains(id) {
            let i = self.index_of(id);
            let removed = self.objects.remove(i);
            assert forall|a: int, b: int| 0 <= a < b < removed.len() implies removed[a].id
                < removed[b].id by {
                let sa = if a < i { a } else { a + 1 };
                let sb = if b < i { b } else { b + 1 };
                assert(removed[a] == self.objects[sa]);
                assert(removed[b] == self.objects[sb]);
            }
            assert forall|a: int| 0 <= a < removed.len() implies removed[a].id < self.next_id by {
                let sa = if a < i { a } else { a + 1 };
                assert(removed[a] == self.objects[sa]);
            }
        }
    }
}

/// The hyperspheres of the scene and the counter that identities come from.
pub struct Scene {
    objects: Vec<HyperSphere>,
    next_id: u64,
}

impl View for Scene {
    type V = SceneView;

    closed spec fn view(&self) -> SceneView {
        SceneView { objects: self.objects@.map_values(|o: HyperSphere| o@), next_id: self.next_id }
    }
}

impl Scene {
    /// The invariant of the scene: see `SceneView::wf`.
    pub open spec fn wf(&self) -> bool {
        self@.wf()
    }

    /// The scene at startup.
    pub fn new() -> (scene: Scene)
        ensures
            scene.wf(),
            scene@ == SceneView::initial(),
    {
        let mut objects: Vec<HyperSphere> = Vec::new();
        objects.push(
            HyperSphere {
                name: "Default Hyper Sphere".to_owned(),
                id: 0,
                position: Vector4 { x: 0x4000_0000, y: 0, z: 0, w: 0 },
                color: Vector3 { x: 0x3F66_6666, y: 0x3DCC_CCCD, z: 0x3DCC_CCCD },
                radius: INITIAL_RADIUS,
            },
        );
        let scene = Scene { objects, next_id: 1 };
        assert(scene@.objects =~= SceneView::initial().objects);
        scene
    }

    /// Number of hyperspheres.
    pub fn len(&self) -> (count: usize)
        ensures
            count == self@.objects.len(),
    {
        self.objects.len()
    }

    /// The hyperspheres in display order.
    pub fn objects(&self) -> (objects: &Vec<HyperSphere>)
        ensures
            objects@.map_values(|o: HyperSphere| o@) == self@.objects,
            objects@.len() == self@.objects.len(),
    {
        &self.objects
    }

    /// The identity that the next added hypersphere gets.
    pub fn next_id(&self) -> (id: u64)
        ensures
            id == self@.next_id,
    {
        self.next_id
    }

    /// Whether one more hypersphere can be added.
    pub fn has_room(&self) -> (room: bool)
        ensures
            room == self@.has_room(),
    {
        let count = self.objects.len();
        count < usize::MAX && is_serializable(count + 1) && self.next_id < u64::MAX
    }

    /// Where the hypersphere with identity `id` stands, if there is one.
    pub fn find(&self, id: u64) -> (found: Option<usize>)
        requires
            self.wf(),
        ensures
            found is Some <==> self@.contains(id),
            found matches Some(i) ==> i == self@.index_of(id) && i < self@.objects.len(),
    {
        let mut i: usize = 0;
        while i < self.objects.len()
            invariant
                self.wf(),
                i <= self.objects.len(),
                forall|k: int| 0 <= k < i ==> self@.objects[k].id != id,
            decreases self.objects.len() - i,
        {
            if self.objects[i].id == id {
                proof {
                    self@.lemma_index_of(id, i as int);
                }
                return Some(i);
            }
            i += 1;
        }
        None
    }

    /// Adds a hypersphere with the initial position, colour and radius at the end
    /// of the list, and returns its identity, which no hypersphere had before.
    pub fn add(&mut self) -> (id: u64)
        requires
            old(self).wf(),
            old(self)@.has_room(),
        ensures
            final(self).wf(),
            final(self)@ == old(self)@.added(),
            id == old(self)@.next_id,
            !old(self)@.contains(id),
    {
        let id = self.next_id;
        self.objects.push(
            HyperSphere {
                name: "New Hyper Sphere".to_owned(),
                id,
                position: Vector4 { x: 0x4000_0000, y: 0, z: 0, w: 0 },
                color: Vector3 { x: 0x3F66_6666, y: 0x3F66_6666, z: 0x3F66_6666 },
                radius: INITIAL_RADIUS,
            },
        );
        self.next_id = id + 1;
        proof {
            assert(self@.objects =~= old(self)@.added().objects);
            old(self)@.lemma_edits_keep_wf(id, ObjectField::Radius(0), Seq::empty());
        }
        id
    }

    /// Replaces one field of the hypersphere `id`. Returns whether there is such a
    /// hypersphere; where there is none, nothing changes.
    pub fn update(&mut self, id: u64, field: ObjectField) -> (found: bool)
        requires
            old(self).wf(),
        ensures
            final(self).wf(),
            final(self)@ == old(self)@.updated(id, field),
            found == old(self)@.contains(id),
    {
        proof {
            self@.lemma_edits_keep_wf(id, field, Seq::empty());
        }
        match self.find(id) {
            Some(i) => {
                match field {
                    ObjectField::Position(v) => {
                        self.objects[i].position = v;
                    },
                    ObjectField::Color(v) => {
                        self.objects[i].color = v;
                    },
                    ObjectField::Radius(v) => {
                        self.objects[i].radius = v;
                    },
                }
                assert(self@.objects =~= old(self)@.updated(id, field).objects);
                true
            },
            None => false,
        }
    }

    /// Gives the hypersphere `id` another name. Returns whether there is such a
    /// hypersphere; where there is none, nothing changes.
    pub fn rename(&mut self, id: u64, name: String) -> (found: bool)
        requires
            old(self).wf(),
        ensures
            final(self).wf(),
            final(self)@ == old(self)@.renamed(id, name@),
            found == old(self)@.contains(id),
    {
        proof {
            self@.lemma_edits_keep_wf(id, ObjectField::Radius(0), name@);
        }
        match self.find(id) {
            Some(i) => {
                self.objects[i].name = name;
                assert(self@.objects =~= old(self)@.renamed(id, name@).objects);
                true
            },
            None => false,
        }
    }

    /// Removes the hypersphere `id`; the others keep their order. Returns whether
    /// there was such a hypersphere; where there was none, nothing changes.
    pub fn delete(&mut self, id: u64) -> (found: bool)
        requires
            old(self).wf(),
        ensures
            final(self).wf(),
            final(self)@ == old(self)@.deleted(id),
            found == old(self)@.contains(id),
    {
        proof {
            self@.lemma_edits_keep_wf(id, ObjectField::Radius(0), Seq::empty());
        }
        match self.find(id) {
            Some(i) => {
                let _ = self.objects.remove(i);
                assert(self@.objects =~= old(self)@.deleted(id).objects);
                true
            },
            None => false,
        }
    }
}

} // verus!
