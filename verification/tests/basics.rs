use magellanicus::error::Error;
use magellanicus::renderer::player_viewport::{Camera, PlayerViewport, DEFAULT_FOV};
use magellanicus::types::{to_rgbaf32, FLOAT_HALF, FLOAT_ONE, FLOAT_ZERO};
use magellanicus::vertex::ModelTriangle;

#[test]
fn from_vulkan_error_names_the_backend() {
    assert_eq!(
        Error::from_vulkan_error("out of memory".to_string()),
        Error::GraphicsAPIError { backend: "Vulkan", message: "out of memory".to_string() }
    );
}

#[test]
fn from_vulkan_impl_error_names_the_backend() {
    assert_eq!(
        Error::from_vulkan_impl_error("no queue".to_string()),
        Error::GraphicsAPIError { backend: "Vulkan-IMPL", message: "no queue".to_string() }
    );
}

#[test]
fn float_constants_are_the_bits_of_their_numbers() {
    assert_eq!(FLOAT_ZERO, 0.0f32.to_bits());
    assert_eq!(FLOAT_HALF, 0.5f32.to_bits());
    assert_eq!(FLOAT_ONE, 1.0f32.to_bits());
    assert_eq!(DEFAULT_FOV, 56.0f32.to_radians().to_bits());
}

#[test]
fn to_rgbaf32_lays_out_little_endian_floats() {
    let color = [1.0f32, 0.5, 0.25, -2.0];
    let bytes = to_rgbaf32([
        color[0].to_bits(),
        color[1].to_bits(),
        color[2].to_bits(),
        color[3].to_bits(),
    ]);
    let mut expected = Vec::new();
    for component in color {
        expected.extend_from_slice(&component.to_le_bytes());
    }
    assert_eq!(bytes.to_vec(), expected);
}

#[test]
fn to_rgbaf32_exact_bytes() {
    let bytes = to_rgbaf32([0x0403_0201, 0x0807_0605, 0x0C0B_0A09, 0x100F_0E0D]);
    assert_eq!(bytes, [1, 2, 3, 4, 5, 6, 7, 8, 9, 10, 11, 12, 13, 14, 15, 16]);
}

#[test]
fn default_camera_looks_along_y_from_the_origin() {
    let camera = Camera::default();
    assert_eq!(f32::from_bits(camera.fov), 56.0f32.to_radians());
    assert_eq!(camera.position.map(f32::from_bits), [0.0, 0.0, 0.0]);
    assert_eq!(camera.rotation.map(f32::from_bits), [0.0, 1.0, 0.0]);
    assert!(!camera.fullbright);
}

#[test]
fn default_viewport_covers_the_surface() {
    let viewport = PlayerViewport::default();
    assert_eq!(f32::from_bits(viewport.rel_x), 0.0);
    assert_eq!(f32::from_bits(viewport.rel_y), 0.0);
    assert_eq!(f32::from_bits(viewport.rel_width), 1.0);
    assert_eq!(f32::from_bits(viewport.rel_height), 1.0);
    assert_eq!(viewport.camera, Camera::default());
}

fn rect(index: usize, count: usize) -> [f32; 4] {
    let viewport = PlayerViewport::layout(index, count);
    [
        f32::from_bits(viewport.rel_x),
        f32::from_bits(viewport.rel_y),
        f32::from_bits(viewport.rel_width),
        f32::from_bits(viewport.rel_height),
    ]
}

#[test]
fn one_viewport_takes_the_whole_surface() {
    assert_eq!(rect(0, 1), [0.0, 0.0, 1.0, 1.0]);
}

#[test]
fn two_viewports_take_the_upper_and_the_lower_half() {
    assert_eq!(rect(0, 2), [0.0, 0.0, 1.0, 0.5]);
    assert_eq!(rect(1, 2), [0.0, 0.5, 1.0, 0.5]);
}

#[test]
fn three_viewports_split_the_lower_half() {
    assert_eq!(rect(0, 3), [0.0, 0.0, 1.0, 0.5]);
    assert_eq!(rect(1, 3), [0.0, 0.5, 0.5, 0.5]);
    assert_eq!(rect(2, 3), [0.5, 0.5, 0.5, 0.5]);
}

#[test]
fn four_viewports_take_a_quarter_each() {
    assert_eq!(rect(0, 4), [0.0, 0.0, 0.5, 0.5]);
    assert_eq!(rect(1, 4), [0.5, 0.0, 0.5, 0.5]);
    assert_eq!(rect(2, 4), [0.0, 0.5, 0.5, 0.5]);
    assert_eq!(rect(3, 4), [0.5, 0.5, 0.5, 0.5]);
}

#[test]
fn triangle_within_vertices() {
    let triangle = ModelTriangle { indices: [0, 1, 2] };
    assert!(triangle.is_within(3));
    assert!(!triangle.is_within(2));
    assert!(!ModelTriangle { indices: [5, 0, 0] }.is_within(5));
    assert!(!ModelTriangle { indices: [0, 5, 0] }.is_within(5));
    assert!(ModelTriangle { indices: [0, 0, 4] }.is_within(5));
}
