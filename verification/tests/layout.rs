use encase::{ShaderSize, ShaderType};
use rendering4d::camera::GpuCamera;
use rendering4d::encoding::{Vector3, Vector4};
use rendering4d::scene::{GpuHyperSphere, SCENE_HEADER_SIZE};

type Vec3 = cgmath::Vector3<f32>;
type Vec4 = cgmath::Vector4<f32>;

/// Alignment, size and bytes of one member as the layout crate has them.
struct Member {
    alignment: u64,
    size: u64,
    bytes: Vec<u8>,
}

fn member<T: ShaderType + ShaderSize + encase::internal::WriteInto>(value: T) -> Member {
    let mut buffer = encase::StorageBuffer::new(Vec::<u8>::new());
    buffer.write(&value).unwrap();
    Member {
        alignment: T::METADATA.alignment().get(),
        size: T::SHADER_SIZE.get(),
        bytes: buffer.into_inner(),
    }
}

fn round_up(alignment: u64, offset: u64) -> u64 {
    offset.div_ceil(alignment) * alignment
}

/// Lays members out as a host-shareable structure: each member at the next multiple
/// of its alignment, the whole filled up to the largest alignment.
fn lay_out(members: &[Member]) -> (Vec<usize>, Vec<u8>) {
    let mut offsets = Vec::new();
    let mut end = 0u64;
    let mut largest = 1u64;
    for m in members {
        let offset = round_up(m.alignment, end);
        offsets.push(offset as usize);
        end = offset + m.size;
        largest = largest.max(m.alignment);
    }
    let mut bytes = vec![0u8; round_up(largest, end) as usize];
    for (m, offset) in members.iter().zip(&offsets) {
        assert_eq!(m.bytes.len() as u64, m.size);
        bytes[*offset..*offset + m.bytes.len()].copy_from_slice(&m.bytes);
    }
    (offsets, bytes)
}

#[test]
fn camera_record_offsets_follow_member_alignment() {
    let (offsets, bytes) = lay_out(&[
        member(Vec4::new(0.0, 0.0, 0.0, 0.0)),
        member(0.0f32),
        member(Vec3::new(0.0, 0.0, 0.0)),
        member(Vec3::new(0.0, 0.0, 0.0)),
        member(0u32),
        member(0u32),
        member(0u32),
        member(0u32),
    ]);
    assert_eq!(
        offsets,
        vec![
            GpuCamera::POSITION_OFFSET,
            GpuCamera::TAN_HALF_FOV_OFFSET,
            GpuCamera::UP_SKY_COLOR_OFFSET,
            GpuCamera::DOWN_SKY_COLOR_OFFSET,
            GpuCamera::BOUNCE_COUNT_OFFSET,
            GpuCamera::SAMPLE_COUNT_OFFSET,
            GpuCamera::SEED_OFFSET_OFFSET,
            GpuCamera::FRAME_COUNT_OFFSET,
        ]
    );
    assert_eq!(bytes.len(), GpuCamera::SIZE);
}

#[test]
fn camera_record_bytes_agree_with_members_laid_out() {
    let (_, expected) = lay_out(&[
        member(Vec4::new(1.5, -2.0, 3.25, 4.0)),
        member(0.57735f32),
        member(Vec3::new(0.7, 0.7, 1.0)),
        member(Vec3::new(0.2, 0.2, 0.2)),
        member(6u32),
        member(3u32),
        member(0x89AB_CDEFu32),
        member(41u32),
    ]);
    let record = GpuCamera {
        position: Vector4::new(
            1.5f32.to_bits(),
            (-2.0f32).to_bits(),
            3.25f32.to_bits(),
            4.0f32.to_bits(),
        ),
        tan_half_fov: 0.57735f32.to_bits(),
        up_sky_color: Vector3::new(0.7f32.to_bits(), 0.7f32.to_bits(), 1.0f32.to_bits()),
        down_sky_color: Vector3::new(0.2f32.to_bits(), 0.2f32.to_bits(), 0.2f32.to_bits()),
        bounce_count: 6,
        sample_count: 3,
        seed_offset: 0x89AB_CDEF,
        frame_count: 41,
    };
    assert_eq!(record.serialize(), expected);
}

#[test]
fn hypersphere_record_agrees_with_members_laid_out() {
    let (offsets, expected) = lay_out(&[
        member(Vec4::new(2.0, 0.5, -1.0, 8.0)),
        member(Vec3::new(0.9, 0.1, 0.1)),
        member(1.25f32),
    ]);
    assert_eq!(offsets, vec![0, 16, 28]);
    assert_eq!(expected.len(), GpuHyperSphere::SIZE);
    let record = GpuHyperSphere {
        position: Vector4::new(
            2.0f32.to_bits(),
            0.5f32.to_bits(),
            (-1.0f32).to_bits(),
            8.0f32.to_bits(),
        ),
        color: Vector3::new(0.9f32.to_bits(), 0.1f32.to_bits(), 0.1f32.to_bits()),
        radius: 1.25f32.to_bits(),
    };
    let mut bytes = Vec::new();
    record.write_to(&mut bytes);
    assert_eq!(bytes, expected);
}

#[test]
fn scene_header_is_the_count_filled_up_to_the_record_alignment() {
    let count = member(0u32);
    let record_alignment = Vec4::METADATA.alignment().get();
    assert_eq!(round_up(record_alignment, count.size) as usize, SCENE_HEADER_SIZE);
    assert_eq!(
        round_up(record_alignment, GpuHyperSphere::SIZE as u64) as usize,
        GpuHyperSphere::SIZE
    );
}
