use sliding_quad::frame::{frame_at, Color, Frame, Scene, Uniforms};
use sliding_quad::transform::translation;
use sliding_quad::units::UNITS_PER_ONE;

const ONE: i32 = 10_000;

#[test]
fn one_is_ten_thousand_units() {
    assert_eq!(UNITS_PER_ONE, ONE);
}

#[test]
fn translation_is_the_identity_but_for_the_x_entry_of_the_last_column() {
    assert_eq!(
        translation(-1234),
        [[ONE, 0, 0, 0], [0, ONE, 0, 0], [0, 0, ONE, 0], [-1234, 0, 0, ONE]]
    );
}

#[test]
fn translation_by_zero_is_the_identity() {
    assert_eq!(translation(0), [[ONE, 0, 0, 0], [0, ONE, 0, 0], [0, 0, ONE, 0], [0, 0, 0, ONE]]);
}

#[test]
fn translation_as_reals_matches_the_matrix_of_the_demo() {
    let m = translation(2500);
    let reals: Vec<Vec<f32>> =
        m.iter().map(|column| column.iter().map(|e| *e as f32 / ONE as f32).collect()).collect();
    assert_eq!(
        reals,
        vec![
            vec![1.0, 0.0, 0.0, 0.0],
            vec![0.0, 1.0, 0.0, 0.0],
            vec![0.0, 0.0, 1.0, 0.0],
            vec![0.25, 0.0, 0.0, 1.0],
        ]
    );
}

#[test]
fn the_triangle_is_drawn_on_white_with_the_offset_itself() {
    let frame = frame_at(Scene::Triangle, 42);
    assert_eq!(
        frame,
        Frame {
            clear_color: Color { red: ONE, green: ONE, blue: ONE, alpha: ONE },
            uniforms: Uniforms::Offset(42),
        }
    );
}

#[test]
fn the_quad_is_drawn_on_black_with_a_translation() {
    let frame = frame_at(Scene::TexturedQuad, -4998);
    assert_eq!(frame.clear_color, Color { red: 0, green: 0, blue: 0, alpha: ONE });
    assert_eq!(frame.uniforms, Uniforms::Transform(translation(-4998)));
    match frame.uniforms {
        Uniforms::Transform(m) => assert_eq!(m[3], [-4998, 0, 0, ONE]),
        Uniforms::Offset(_) => panic!("the quad takes a matrix"),
    }
}

#[test]
fn the_same_offset_gives_the_same_frame() {
    assert_eq!(frame_at(Scene::TexturedQuad, 17), frame_at(Scene::TexturedQuad, 17));
    assert_ne!(frame_at(Scene::TexturedQuad, 17), frame_at(Scene::TexturedQuad, 19));
    assert_ne!(frame_at(Scene::Triangle, 17), frame_at(Scene::TexturedQuad, 17));
}
