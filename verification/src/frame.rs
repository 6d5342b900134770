//! What one frame draws: the colour the window is cleared to and the uniform
//! inputs of the single draw call that follows.

use crate::transform::{is_translation, translation, Matrix4};
use crate::units::UNITS_PER_ONE;
use vstd::prelude::*;

verus! {

/// Which of the two demos is running.
#[derive(Clone, Copy, Debug, PartialEq, Eq, Structural)]
pub enum Scene {
    /// One triangle, moved by handing the offset itself to the vertex stage.
    Triangle,
    /// A textured quad, moved by a translation matrix.
    TexturedQuad,
}

/// An RGBA colour, each channel in fixed-point units from 0 to 1.0.
#[derive(Clone, Copy, Debug, PartialEq, Eq, Structural)]
pub struct Color {
    pub red: i32,
    pub green: i32,
    pub blue: i32,
    pub alpha: i32,
}

/// The uniform inputs of a draw call.
#[derive(Clone, Copy, Debug, PartialEq, Eq)]
pub enum Uniforms {
    /// The offset, as the uniform `t`.
    Offset(i32),
    /// The translation by the offset, as the uniform `matrix`; the texture is
    /// bound beside it as `tex`.
    Transform(Matrix4),
}

/// One frame: clear the window, then draw the scene's shape once.
#[derive(Clone, Copy, Debug, PartialEq, Eq)]
pub struct Frame {
    pub clear_color: Color,
    pub uniforms: Uniforms,
}

/// Opaque white.
pub open spec fn white() -> Color {
    Color { red: UNITS_PER_ONE, green: UNITS_PER_ONE, blue: UNITS_PER_ONE, alpha: UNITS_PER_ONE }
}

/// Opaque black.
pub open spec fn black() -> Color {
    Color { red: 0, green: 0, blue: 0, alpha: UNITS_PER_ONE }
}

/// The background of a scene: white behind the triangle, black behind the
/// quad.
pub open spec fn background(scene: Scene) -> Color {
    match scene {
        Scene::Triangle => white(),
        Scene::TexturedQuad => black(),
    }
}

/// `frame` is the frame of `scene` at offset `t`.
pub open spec fn shows(frame: Frame, scene: Scene, t: int) -> bool {
    &&& frame.clear_color == background(scene)
    &&& match scene {
        Scene::Triangle => frame.uniforms matches Uniforms::Offset(v) && v == t,
        Scene::TexturedQuad => frame.uniforms matches Uniforms::Transform(m) && is_translation(
            m,
            t,
        ),
    }
}

/// Describes the frame of `scene` at offset `t`.
pub fn frame_at(scene: Scene, t: i32) -> (frame: Frame)
    ensures
        shows(frame, scene, t as int),
{
    match scene {
        Scene::Triangle => Frame {
            clear_color: Color {
                red: UNITS_PER_ONE,
                green: UNITS_PER_ONE,
                blue: UNITS_PER_ONE,
                alpha: UNITS_PER_ONE,
            },
            uniforms: Uniforms::Offset(t),
        },
        Scene::TexturedQuad => Frame {
            clear_color: Color { red: 0, green: 0, blue: 0, alpha: UNITS_PER_ONE },
            uniforms: Uniforms::Transform(translation(t)),
        },
    }
}

} // verus!
