//! The storage buffer that holds the scene: the bytes written to it, and how its
//! size follows the scene.

use vstd::prelude::*;
use crate::encoding::{
    le_bytes, le_value, lemma_le_bytes_round_trip, padding, put_padding, put_u32,
};
use crate::scene::{serializable, serialized_size, GpuHyperSphere, HyperSphere, SCENE_HEADER_SIZE};

verus! {

/// The records of a scene, one after the other in the order of the list.
pub open spec fn records_bytes(records: Seq<GpuHyperSphere>) -> Seq<u8>
    decreases records.len(),
{
    if records.len() == 0 {
        Seq::empty()
    } else {
        records_bytes(records.drop_last()) + records.last().bytes()
    }
}

/// The serialized scene: the number of records in four little-endian bytes, twelve
/// zero bytes that bring the first record to a multiple of 16, then the records.
pub open spec fn scene_bytes(records: Seq<GpuHyperSphere>) -> Seq<u8> {
    le_bytes(records.len() as u32) + padding(12) + records_bytes(records)
}

/// What the device is given of each hypersphere of a list.
pub open spec fn records_of(objects: Seq<HyperSphere>) -> Seq<GpuHyperSphere> {
    objects.map_values(|o: HyperSphere| o@.gpu())
}

/// `n` records take `n * GpuHyperSphere::SIZE` bytes, and record `i` starts at
/// byte `i * GpuHyperSphere::SIZE`.
pub proof fn lemma_records_bytes(records: Seq<GpuHyperSphere>)
    ensures
        records_bytes(records).len() == records.len() * GpuHyperSphere::SIZE,
        forall|i: int|
            0 <= i < records.len() ==> records_bytes(records).subrange(
                i * GpuHyperSphere::SIZE,
                (i + 1) * GpuHyperSphere::SIZE,
            ) == #[trigger] records[i].bytes(),
    decreases records.len(),
{
    if records.len() > 0 {
        let front = records.drop_last();
        lemma_records_bytes(front);
        records.last().lemma_layout();
        let all = records_bytes(records);
        assert forall|i: int| 0 <= i < records.len() implies all.subrange(
            i * GpuHyperSphere::SIZE,
            (i + 1) * GpuHyperSphere::SIZE,
        ) == #[trigger] records[i].bytes() by {
            if i < front.len() {
                assert(front[i] == records[i]);
                assert(records_bytes(front).subrange(
                    i * GpuHyperSphere::SIZE,
                    (i + 1) * GpuHyperSphere::SIZE,
                ) == front[i].bytes());
                assert(all.subrange(i * GpuHyperSphere::SIZE, (i + 1) * GpuHyperSphere::SIZE)
                    =~= records_bytes(front).subrange(
                    i * GpuHyperSphere::SIZE,
                    (i + 1) * GpuHyperSphere::SIZE,
                ));
            } else {
                assert(all.subrange(i * GpuHyperSphere::SIZE, (i + 1) * GpuHyperSphere::SIZE)
                    =~= records.last().bytes());
            }
        }
    }
}

/// The serialized scene of `n` hyperspheres has `SCENE_HEADER_SIZE + n *
/// GpuHyperSphere::SIZE` bytes. Its first four bytes hold `n`, and record `i`
/// stands at byte `SCENE_HEADER_SIZE + i * GpuHyperSphere::SIZE`.
pub proof fn lemma_scene_bytes(records: Seq<GpuHyperSphere>)
    ensures
        scene_bytes(records).len() == serialized_size(records.len()),
        scene_bytes(records).subrange(0, 4) == le_bytes(records.len() as u32),
        records.len() <= u32::MAX ==> le_value(scene_bytes(records).subrange(0, 4))
            == records.len(),
        scene_bytes(records).subrange(4, 16) == padding(12),
        forall|i: int|
            0 <= i < records.len() ==> scene_bytes(records).subrange(
                SCENE_HEADER_SIZE + i * GpuHyperSphere::SIZE,
                SCENE_HEADER_SIZE + (i + 1) * GpuHyperSphere::SIZE,
            ) == #[trigger] records[i].bytes(),
{
    lemma_records_bytes(records);
    lemma_le_bytes_round_trip(records.len() as u32);
    let all = scene_bytes(records);
    assert(all.subrange(0, 4) =~= le_bytes(records.len() as u32));
    assert forall|i: int| 0 <= i < records.len() implies all.subrange(
        SCENE_HEADER_SIZE + i * GpuHyperSphere::SIZE,
        SCENE_HEADER_SIZE + (i + 1) * GpuHyperSphere::SIZE,
    ) == #[trigger] records[i].bytes() by {
        assert(records_bytes(records).subrange(
            i * GpuHyperSphere::SIZE,
            (i + 1) * GpuHyperSphere::SIZE,
        ) == records[i].bytes());
        assert(all.subrange(
            SCENE_HEADER_SIZE + i * GpuHyperSphere::SIZE,
            SCENE_HEADER_SIZE + (i + 1) * GpuHyperSphere::SIZE,
        ) =~= records_bytes(records).subrange(
            i * GpuHyperSphere::SIZE,
            (i + 1) * GpuHyperSphere::SIZE,
        ));
    }
}

/// Serializes the hyperspheres in the order of the list. An empty list gives the
/// header alone, with count 0.
pub fn serialize(objects: &Vec<HyperSphere>) -> (out: Vec<u8>)
    requires
        serializable(objects@.len()),
    ensures
        out@ == scene_bytes(records_of(objects@)),
        out@.len() == serialized_size(objects@.len()),
{
    let count = objects.len();
    let ghost records = records_of(objects@);
    let mut out: Vec<u8> = Vec::new();
    put_u32(&mut out, count as u32);
    put_padding(&mut out, 12);
    let mut i: usize = 0;
    while i < count
        invariant
            i <= count,
            count == objects@.len(),
            records == records_of(objects@),
            out@ == le_bytes(count as u32) + padding(12) + records_bytes(records.take(i as int)),
        decreases count - i,
    {
        let record = objects[i].gpu();
        record.write_to(&mut out);
        proof {
            let next = records.take(i + 1);
            assert(next.drop_last() =~= records.take(i as int));
            assert(next.last() == record);
        }
        i += 1;
    }
    proof {
        assert(records.take(count as int) =~= records);
        lemma_scene_bytes(records);
    }
    out
}

/// What a frame does with the scene buffer before it writes the scene.
#[derive(Clone, Copy, Debug, PartialEq, Eq, Structural)]
pub enum BufferAction {
    /// The buffer is large enough and stays.
    Reuse,
    /// A new buffer of exactly `size` bytes takes its place, and the binding set
    /// that names the buffer is built again.
    Reallocate { size: u64 },
}

/// The size of the storage buffer that holds the scene.
#[derive(Clone, Copy, Debug, PartialEq, Eq, Structural)]
pub struct SceneBuffer {
    /// Bytes the buffer on the device can hold.
    pub capacity: u64,
}

impl SceneBuffer {
    /// The buffer is never smaller than the header, so never empty.
    pub open spec fn wf(self) -> bool {
        self.capacity >= SCENE_HEADER_SIZE
    }

    /// The buffer at startup: the header alone.
    pub open spec fn initial() -> SceneBuffer {
        SceneBuffer { capacity: SCENE_HEADER_SIZE as u64 }
    }

    /// What `ensure_capacity` does for `required` bytes.
    pub open spec fn action_for(self, required: u64) -> BufferAction {
        if required <= self.capacity {
            BufferAction::Reuse
        } else {
            BufferAction::Reallocate { size: required }
        }
    }

    /// The buffer after `ensure_capacity` for `required` bytes: as before where
    /// they fit, else of exactly `required` bytes.
    pub open spec fn grown_to(self, required: u64) -> SceneBuffer {
        if required <= self.capacity {
            self
        } else {
            SceneBuffer { capacity: required }
        }
    }

    /// Whatever the buffer was, after `ensure_capacity` for the length of a
    /// serialized scene it holds that scene: the header and one record for each
    /// hypersphere.
    pub proof fn lemma_holds_scene(self, records: Seq<GpuHyperSphere>)
        requires
            serializable(records.len()),
        ensures
            scene_bytes(records).len() == SCENE_HEADER_SIZE + records.len() * GpuHyperSphere::SIZE,
            self.grown_to(scene_bytes(records).len() as u64).capacity >= scene_bytes(
                records,
            ).len(),
            self.grown_to(scene_bytes(records).len() as u64).capacity >= self.capacity,
    {
        lemma_scene_bytes(records);
    }

    /// The buffer at startup.
    pub fn new() -> (buffer: SceneBuffer)
        ensures
            buffer == SceneBuffer::initial(),
            buffer.wf(),
    {
        SceneBuffer { capacity: SCENE_HEADER_SIZE as u64 }
    }

    /// Makes room for `required` bytes. A buffer that holds them stays as it is; a
    /// smaller one is replaced by one of exactly `required` bytes. The buffer never
    /// shrinks.
    pub fn ensure_capacity(&mut self, required: u64) -> (action: BufferAction)
        ensures
            action == old(self).action_for(required),
            *final(self) == old(self).grown_to(required),
            final(self).capacity >= required,
            final(self).capacity >= old(self).capacity,
            old(self).wf() ==> final(self).wf(),
    {
        if required <= self.capacity {
            BufferAction::Reuse
        } else {
            self.capacity = required;
            BufferAction::Reallocate { size: required }
        }
    }
}

} // verus!
