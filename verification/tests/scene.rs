use rendering4d::encoding::{Vector3, Vector4};
use rendering4d::scene::{
    is_serializable, GpuHyperSphere, HyperSphere, ObjectField, Scene, INITIAL_RADIUS,
    SCENE_HEADER_SIZE,
};
use rendering4d::scene_buffer::serialize;

fn bits3(x: f32, y: f32, z: f32) -> Vector3 {
    Vector3::new(x.to_bits(), y.to_bits(), z.to_bits())
}

fn bits4(x: f32, y: f32, z: f32, w: f32) -> Vector4 {
    Vector4::new(x.to_bits(), y.to_bits(), z.to_bits(), w.to_bits())
}

fn sphere(id: u64, radius: f32) -> HyperSphere {
    HyperSphere {
        name: format!("sphere {}", id),
        id,
        position: bits4(id as f32, 0.0, 0.0, 0.0),
        color: bits3(0.5, 0.5, 0.5),
        radius: radius.to_bits(),
    }
}

fn ids(scene: &Scene) -> Vec<u64> {
    scene.objects().iter().map(|o| o.id).collect()
}

#[test]
fn scene_starts_with_the_default_hypersphere() {
    let scene = Scene::new();
    assert_eq!(scene.len(), 1);
    assert_eq!(scene.next_id(), 1);
    assert_eq!(
        scene.objects()[0],
        HyperSphere {
            name: "Default Hyper Sphere".to_string(),
            id: 0,
            position: bits4(2.0, 0.0, 0.0, 0.0),
            color: bits3(0.9, 0.1, 0.1),
            radius: 1.0f32.to_bits(),
        }
    );
    assert_eq!(f32::from_bits(INITIAL_RADIUS), 1.0);
}

#[test]
fn add_appends_a_new_hypersphere_with_the_next_identity() {
    let mut scene = Scene::new();
    assert!(scene.has_room());
    let id = scene.add();
    assert_eq!(id, 1);
    assert_eq!(scene.len(), 2);
    assert_eq!(scene.next_id(), 2);
    assert_eq!(
        scene.objects()[1],
        HyperSphere {
            name: "New Hyper Sphere".to_string(),
            id: 1,
            position: bits4(2.0, 0.0, 0.0, 0.0),
            color: bits3(0.9, 0.9, 0.9),
            radius: 1.0f32.to_bits(),
        }
    );
    assert_eq!(scene.objects()[0].id, 0);
}

#[test]
fn identities_are_not_given_again_after_a_removal() {
    let mut scene = Scene::new();
    assert_eq!(scene.add(), 1);
    assert_eq!(scene.add(), 2);
    assert!(scene.delete(2));
    assert!(scene.delete(0));
    assert_eq!(scene.add(), 3);
    assert_eq!(scene.add(), 4);
    assert_eq!(ids(&scene), vec![1, 3, 4]);
    assert_eq!(scene.next_id(), 5);
}

#[test]
fn find_gives_the_place_of_an_identity() {
    let mut scene = Scene::new();
    scene.add();
    scene.add();
    scene.delete(1);
    assert_eq!(scene.find(0), Some(0));
    assert_eq!(scene.find(2), Some(1));
    assert_eq!(scene.find(1), None);
    assert_eq!(scene.find(3), None);
}

#[test]
fn update_replaces_one_field_of_one_hypersphere() {
    let mut scene = Scene::new();
    scene.add();
    let before = scene.objects().clone();
    assert!(scene.update(1, ObjectField::Position(bits4(1.0, 2.0, 3.0, 4.0))));
    assert!(scene.update(1, ObjectField::Color(bits3(0.0, 1.0, 0.0))));
    assert!(scene.update(1, ObjectField::Radius(2.5f32.to_bits())));
    assert_eq!(scene.objects()[0], before[0]);
    assert_eq!(
        scene.objects()[1],
        HyperSphere {
            name: "New Hyper Sphere".to_string(),
            id: 1,
            position: bits4(1.0, 2.0, 3.0, 4.0),
            color: bits3(0.0, 1.0, 0.0),
            radius: 2.5f32.to_bits(),
        }
    );
}

#[test]
fn update_of_a_missing_hypersphere_changes_nothing() {
    let mut scene = Scene::new();
    let before = scene.objects().clone();
    assert!(!scene.update(5, ObjectField::Radius(3.0f32.to_bits())));
    assert_eq!(*scene.objects(), before);
    assert_eq!(scene.next_id(), 1);
}

#[test]
fn rename_changes_the_name_only() {
    let mut scene = Scene::new();
    assert!(scene.rename(0, "Sun".to_string()));
    assert_eq!(scene.objects()[0].name, "Sun");
    assert_eq!(scene.objects()[0].id, 0);
    assert_eq!(scene.objects()[0].gpu(), Scene::new().objects()[0].gpu());
    assert!(!scene.rename(9, "Moon".to_string()));
    assert_eq!(scene.len(), 1);
    assert_eq!(scene.objects()[0].name, "Sun");
}

#[test]
fn delete_keeps_the_order_of_the_others() {
    let mut scene = Scene::new();
    scene.add();
    scene.add();
    scene.add();
    assert!(scene.delete(1));
    assert_eq!(ids(&scene), vec![0, 2, 3]);
    assert!(!scene.delete(1));
    assert_eq!(ids(&scene), vec![0, 2, 3]);
    assert!(scene.delete(3));
    assert!(scene.delete(0));
    assert!(scene.delete(2));
    assert_eq!(scene.len(), 0);
    assert_eq!(scene.next_id(), 4);
}

#[test]
fn gpu_record_drops_name_and_identity() {
    let object = sphere(3, 1.5);
    assert_eq!(
        object.gpu(),
        GpuHyperSphere {
            position: bits4(3.0, 0.0, 0.0, 0.0),
            color: bits3(0.5, 0.5, 0.5),
            radius: 1.5f32.to_bits(),
        }
    );
}

#[test]
fn gpu_record_bytes_are_exact() {
    let record = GpuHyperSphere {
        position: bits4(2.0, 0.0, 0.0, 0.0),
        color: bits3(0.9, 0.1, 0.1),
        radius: 1.0f32.to_bits(),
    };
    let mut buffer = vec![0xAAu8];
    record.write_to(&mut buffer);
    let expected: Vec<u8> = vec![
        0xAA, 0x00, 0x00, 0x00, 0x40, 0, 0, 0, 0, 0, 0, 0, 0, 0, 0, 0, 0,
        0x66, 0x66, 0x66, 0x3F, 0xCD, 0xCC, 0xCC, 0x3D, 0xCD, 0xCC, 0xCC, 0x3D,
        0x00, 0x00, 0x80, 0x3F,
    ];
    assert_eq!(buffer, expected);
    assert_eq!(GpuHyperSphere::SIZE, 32);
}

#[test]
fn empty_scene_serializes_to_the_header_alone() {
    let bytes = serialize(&Vec::new());
    assert_eq!(bytes, vec![0u8; 16]);
    assert_eq!(SCENE_HEADER_SIZE, 16);
}

#[test]
fn startup_scene_bytes_are_exact() {
    let scene = Scene::new();
    let bytes = serialize(scene.objects());
    let expected: Vec<u8> = vec![
        1, 0, 0, 0, 0, 0, 0, 0, 0, 0, 0, 0, 0, 0, 0, 0,
        0x00, 0x00, 0x00, 0x40, 0, 0, 0, 0, 0, 0, 0, 0, 0, 0, 0, 0,
        0x66, 0x66, 0x66, 0x3F, 0xCD, 0xCC, 0xCC, 0x3D, 0xCD, 0xCC, 0xCC, 0x3D,
        0x00, 0x00, 0x80, 0x3F,
    ];
    assert_eq!(bytes, expected);
}

#[test]
fn serialized_length_is_header_plus_one_record_each() {
    for count in 0u64..40 {
        let objects: Vec<HyperSphere> = (0..count).map(|id| sphere(id, 1.0)).collect();
        let bytes = serialize(&objects);
        assert_eq!(bytes.len() as u64, 16 + 32 * count);
        assert_eq!(bytes[0..4], (count as u32).to_le_bytes());
        assert!(bytes[4..16].iter().all(|b| *b == 0));
    }
}

#[test]
fn count_header_is_little_endian() {
    let objects: Vec<HyperSphere> = (0..258).map(|id| sphere(id, 1.0)).collect();
    let bytes = serialize(&objects);
    assert_eq!(bytes[0..4], [2, 1, 0, 0]);
    assert_eq!(bytes.len(), 16 + 32 * 258);
}

#[test]
fn records_follow_the_order_of_the_list() {
    let objects = vec![sphere(7, 1.0), sphere(3, 2.0), sphere(5, 3.0)];
    let bytes = serialize(&objects);
    for (i, object) in objects.iter().enumerate() {
        let mut record = Vec::new();
        object.gpu().write_to(&mut record);
        assert_eq!(bytes[16 + 32 * i..16 + 32 * (i + 1)], record[..]);
    }
}

#[test]
fn serialization_ignores_name_and_identity() {
    let a = vec![sphere(1, 1.0)];
    let mut b = vec![sphere(1, 1.0)];
    b[0].name = "other".to_string();
    b[0].id = 99;
    assert_eq!(serialize(&a), serialize(&b));
}

#[test]
fn scene_serializes_the_same_twice() {
    let mut scene = Scene::new();
    scene.add();
    assert_eq!(serialize(scene.objects()), serialize(scene.objects()));
}

#[test]
fn serialized_records_agree_with_encase_vectors() {
    let object = sphere(4, 0.75);
    let bytes = serialize(&vec![object]);
    let mut position = encase::StorageBuffer::new(Vec::<u8>::new());
    position.write(&cgmath::Vector4::new(4.0f32, 0.0, 0.0, 0.0)).unwrap();
    let mut color = encase::StorageBuffer::new(Vec::<u8>::new());
    color.write(&cgmath::Vector3::new(0.5f32, 0.5, 0.5)).unwrap();
    let mut radius = encase::StorageBuffer::new(Vec::<u8>::new());
    radius.write(&0.75f32).unwrap();
    let mut count = encase::StorageBuffer::new(Vec::<u8>::new());
    count.write(&1u32).unwrap();
    assert_eq!(bytes[0..4], count.into_inner()[..]);
    assert_eq!(bytes[16..32], position.into_inner()[..]);
    assert_eq!(bytes[32..44], color.into_inner()[..]);
    assert_eq!(bytes[44..48], radius.into_inner()[..]);
}

#[test]
fn small_scenes_are_serializable_and_huge_ones_are_not() {
    assert!(is_serializable(0));
    assert!(is_serializable(1));
    assert!(is_serializable(1_000_000));
    assert!(!is_serializable(usize::MAX));
    assert!(!is_serializable(usize::MAX / 32));
    if usize::BITS >= 64 {
        assert!(is_serializable(u32::MAX as usize));
        assert!(!is_serializable(u32::MAX as usize + 1));
    }
}
