//! Tests of the declared GPU layouts: vertex-buffer layouts, the
//! camera matrices and the texture copy layout, checked against the
//! linear-algebra crate where it computes the same values.

use glam::{Mat4, Vec3};
use render_core::camera::{aspect_ratio, projection_matrix, view_matrix};
use render_core::geometry::{AttrFormat, ColorVertex, StepMode, TexVertex};
use render_core::texture::{rgba_copy_layout, rgba_payload_matches};
use render_core::transform::Transform;

#[test]
fn color_vertex_layout_is_tightly_packed() {
    let l = ColorVertex::buffer_layout();
    assert_eq!(l.array_stride, 24);
    assert_eq!(l.step_mode, StepMode::PerVertex);
    assert_eq!(l.attributes.len(), 2);
    assert_eq!(l.attributes[0].format, AttrFormat::Xyz);
    assert_eq!(l.attributes[0].offset, 0);
    assert_eq!(l.attributes[0].shader_location, 0);
    assert_eq!(l.attributes[1].format, AttrFormat::Xyz);
    assert_eq!(l.attributes[1].offset, 12);
    assert_eq!(l.attributes[1].shader_location, 1);
}

#[test]
fn tex_vertex_layout_is_tightly_packed() {
    let l = TexVertex::buffer_layout();
    assert_eq!(l.array_stride, 20);
    assert_eq!(l.step_mode, StepMode::PerVertex);
    assert_eq!(l.attributes[1].format, AttrFormat::Xy);
    assert_eq!(l.attributes[1].offset, 12);
}

#[test]
fn transform_layout_feeds_four_columns_per_instance() {
    let l = Transform::buffer_layout();
    assert_eq!(l.array_stride, 64);
    assert_eq!(l.step_mode, StepMode::PerInstance);
    assert_eq!(l.attributes.len(), 4);
    for (k, a) in l.attributes.iter().enumerate() {
        assert_eq!(a.format, AttrFormat::Xyzw);
        assert_eq!(a.offset, 16 * k as u64);
        assert_eq!(a.shader_location, 2 + k as u32);
    }
}

#[test]
fn view_matrix_matches_the_direct_computation() {
    let expected = Mat4::look_at_rh(Vec3::new(0.0, 0.0, 3.0), Vec3::new(0.0, 1.0, 0.0), Vec3::Y);
    assert_eq!(view_matrix(), expected.to_cols_array().map(f32::to_bits));
}

#[test]
fn aspect_ratio_is_the_real_quotient() {
    assert_eq!(aspect_ratio(640, 480), (640.0_f32 / 480.0_f32).to_bits());
    assert_eq!(aspect_ratio(1, 1), 1.0_f32.to_bits());
    assert_eq!(aspect_ratio(1920, 1080), (1920.0_f32 / 1080.0_f32).to_bits());
}

#[test]
fn projection_matrix_matches_the_direct_computation() {
    let expected = Mat4::perspective_rh(
        (45.0_f32).to_radians(),
        640.0 / 480.0,
        0.1,
        40.0,
    );
    assert_eq!(
        projection_matrix(640, 480),
        expected.to_cols_array().map(f32::to_bits)
    );
}

#[test]
fn rgba_copy_layout_is_four_bytes_per_pixel() {
    let l = rgba_copy_layout(256, 128).unwrap();
    assert_eq!(l.bytes_per_row, 1024);
    assert_eq!(l.rows_per_image, 128);
    assert!(rgba_copy_layout(0, 128).is_none());
    assert!(rgba_copy_layout(256, 0).is_none());
    assert!(rgba_copy_layout(u32::MAX, 1).is_none());
}

#[test]
fn rgba_payload_length_must_be_exact() {
    assert!(rgba_payload_matches(256, 128, 256 * 128 * 4));
    assert!(!rgba_payload_matches(256, 128, 256 * 128 * 4 - 1));
    assert!(rgba_payload_matches(0, 0, 0));
}
