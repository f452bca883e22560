use rendering4d::surface::{
    Extent, ResizeOutcome, SurfaceDescriptor, SurfaceManager, SurfaceState, TextureFormat,
    TextureUsage,
};

fn extent(width: u32, height: u32) -> Extent {
    Extent { width, height }
}

#[test]
fn extent_without_area() {
    assert!(extent(0, 0).has_no_area());
    assert!(extent(0, 400).has_no_area());
    assert!(extent(800, 0).has_no_area());
    assert!(!extent(1, 1).has_no_area());
    assert!(!extent(800, 600).has_no_area());
}

#[test]
fn extent_same_as() {
    assert!(extent(3, 4).same_as(&extent(3, 4)));
    assert!(!extent(3, 4).same_as(&extent(4, 3)));
    assert!(!extent(3, 4).same_as(&extent(3, 5)));
}

#[test]
fn unsized_surface_reports_the_placeholder_size() {
    assert_eq!(SurfaceState::Unsized.dimensions(), extent(1, 1));
    assert_eq!(SurfaceState::Sized(extent(800, 600)).dimensions(), extent(800, 600));
}

#[test]
fn request_recreates_on_a_new_size() {
    let mut state = SurfaceState::Unsized;
    assert_eq!(state.request(extent(800, 600)), ResizeOutcome::Recreated);
    assert_eq!(state, SurfaceState::Sized(extent(800, 600)));
    assert_eq!(state.request(extent(800, 400)), ResizeOutcome::Recreated);
    assert_eq!(state, SurfaceState::Sized(extent(800, 400)));
    assert_eq!(state.request(extent(801, 400)), ResizeOutcome::Recreated);
    assert_eq!(state, SurfaceState::Sized(extent(801, 400)));
}

#[test]
fn request_keeps_a_surface_of_the_same_size() {
    let mut state = SurfaceState::Sized(extent(800, 600));
    assert_eq!(state.request(extent(800, 600)), ResizeOutcome::Unchanged);
    assert_eq!(state, SurfaceState::Sized(extent(800, 600)));
}

#[test]
fn request_of_one_pixel_keeps_the_placeholder() {
    let mut state = SurfaceState::Unsized;
    assert_eq!(state.request(extent(1, 1)), ResizeOutcome::Unchanged);
    assert_eq!(state, SurfaceState::Unsized);
}

#[test]
fn request_without_area_is_no_error_and_changes_nothing() {
    let mut state = SurfaceState::Sized(extent(800, 600));
    assert_eq!(state.request(extent(0, 400)), ResizeOutcome::NoDrawableArea);
    assert_eq!(state, SurfaceState::Sized(extent(800, 600)));
    assert_eq!(state.request(extent(800, 0)), ResizeOutcome::NoDrawableArea);
    assert_eq!(state.request(extent(0, 0)), ResizeOutcome::NoDrawableArea);
    assert_eq!(state, SurfaceState::Sized(extent(800, 600)));
    let mut placeholder = SurfaceState::Unsized;
    assert_eq!(placeholder.request(extent(0, 0)), ResizeOutcome::NoDrawableArea);
    assert_eq!(placeholder, SurfaceState::Unsized);
}

#[test]
fn surfaces_start_as_placeholders() {
    let surfaces = SurfaceManager::new();
    assert_eq!(surfaces.dimensions(), extent(1, 1));
    assert_eq!(surfaces.accumulation.state, SurfaceState::Unsized);
    assert_eq!(surfaces.display.state, SurfaceState::Unsized);
    assert_eq!(
        surfaces.accumulation.descriptor,
        SurfaceDescriptor {
            format: TextureFormat::Rgba32Float,
            usage: TextureUsage { texture_binding: false, storage_binding: true },
            mip_level_count: 1,
            sample_count: 1,
        }
    );
    assert_eq!(
        surfaces.display.descriptor,
        SurfaceDescriptor {
            format: TextureFormat::Rgba8Unorm,
            usage: TextureUsage { texture_binding: true, storage_binding: true },
            mip_level_count: 1,
            sample_count: 1,
        }
    );
}

#[test]
fn resize_recreates_both_surfaces_with_their_descriptors() {
    let mut surfaces = SurfaceManager::new();
    let before = surfaces;
    assert_eq!(surfaces.resize(extent(640, 480)), ResizeOutcome::Recreated);
    assert_eq!(surfaces.dimensions(), extent(640, 480));
    assert_eq!(surfaces.accumulation.state, SurfaceState::Sized(extent(640, 480)));
    assert_eq!(surfaces.display.state, SurfaceState::Sized(extent(640, 480)));
    assert_eq!(surfaces.accumulation.descriptor, before.accumulation.descriptor);
    assert_eq!(surfaces.display.descriptor, before.display.descriptor);
}

#[test]
fn resize_to_the_same_size_changes_nothing() {
    let mut surfaces = SurfaceManager::new();
    surfaces.resize(extent(640, 480));
    let before = surfaces;
    assert_eq!(surfaces.resize(extent(640, 480)), ResizeOutcome::Unchanged);
    assert_eq!(surfaces, before);
}

#[test]
fn resize_without_area_changes_nothing() {
    let mut surfaces = SurfaceManager::new();
    surfaces.resize(extent(640, 480));
    let before = surfaces;
    assert_eq!(surfaces.resize(extent(0, 480)), ResizeOutcome::NoDrawableArea);
    assert_eq!(surfaces, before);
}
