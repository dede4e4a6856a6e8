use glam::{Mat4, Vec3};
use render_core::xform::{ModelTransform, TransformOp};

#[test]
fn fresh_transform_is_identity() {
    let x = ModelTransform::new();
    assert_eq!(x.matrix(), Mat4::IDENTITY);
}

#[test]
fn scale_then_translate_composes_in_call_order() {
    // Right-multiplication: scale(s) then translate(t) must equal
    // Scale(s) * Translate(t), placing the object at t in the unscaled
    // frame — not the reverse order.
    let s = Vec3::new(2.0, 3.0, 4.0);
    let t = Vec3::new(1.0, -2.0, 0.5);
    let mut x = ModelTransform::new();
    x.scale(s);
    x.translate(t);
    let expected = Mat4::from_scale(s).mul_mat4(&Mat4::from_translation(t));
    assert_eq!(x.matrix(), expected);
    let reversed = Mat4::from_translation(t).mul_mat4(&Mat4::from_scale(s));
    assert_ne!(x.matrix(), reversed);
}

#[test]
fn translate_then_scale_is_the_other_composition() {
    let s = Vec3::new(2.0, 2.0, 2.0);
    let t = Vec3::new(3.0, 0.0, 0.0);
    let mut x = ModelTransform::new();
    x.translate(t);
    x.scale(s);
    let expected = Mat4::from_translation(t).mul_mat4(&Mat4::from_scale(s));
    assert_eq!(x.matrix(), expected);
}

#[test]
fn rotations_take_bit_pattern_angles() {
    let mut x = ModelTransform::new();
    x.rotate_x(1.25f32.to_bits());
    assert_eq!(x.matrix(), Mat4::from_rotation_x(1.25));

    let mut y = ModelTransform::new();
    y.rotate_y(0.75f32.to_bits());
    assert_eq!(y.matrix(), Mat4::from_rotation_y(0.75));

    let mut z = ModelTransform::new();
    z.rotate_z((-0.5f32).to_bits());
    assert_eq!(z.matrix(), Mat4::from_rotation_z(-0.5));
}

#[test]
fn reset_discards_prior_transforms() {
    // Whatever was applied before reset(), the same sequence of calls
    // afterwards yields the same matrix as on a fresh accumulator.
    let ops = vec![
        TransformOp::Scale(Vec3::new(0.5, 0.5, 0.5)),
        TransformOp::RotateZ(0.3f32.to_bits()),
        TransformOp::Translate(Vec3::new(1.0, 2.0, 3.0)),
    ];

    let mut a = ModelTransform::new();
    a.translate(Vec3::new(-9.0, 4.0, 7.0));
    a.rotate_y(2.0f32.to_bits());
    a.scale(Vec3::new(10.0, 0.1, 5.0));
    a.reset();
    a.apply_all(&ops);

    let mut b = ModelTransform::new();
    b.apply_all(&ops);

    assert_eq!(a.matrix(), b.matrix());
}

#[test]
fn apply_all_matches_individual_calls() {
    let ops = vec![
        TransformOp::Translate(Vec3::new(1.0, 0.0, -1.0)),
        TransformOp::RotateX(0.2f32.to_bits()),
        TransformOp::Scale(Vec3::new(3.0, 3.0, 3.0)),
    ];
    let mut a = ModelTransform::new();
    a.apply_all(&ops);

    let mut b = ModelTransform::new();
    b.translate(Vec3::new(1.0, 0.0, -1.0));
    b.rotate_x(0.2f32.to_bits());
    b.scale(Vec3::new(3.0, 3.0, 3.0));

    assert_eq!(a.matrix(), b.matrix());
}
