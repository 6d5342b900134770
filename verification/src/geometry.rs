//! The shapes the demo draws. They are fixed: built once, uploaded once, and
//! the same on every run.

use vstd::prelude::*;

verus! {

/// A corner of the textured quad: where it lies in the window and which point
/// of the texture is pinned to it. Both pairs are in fixed-point units.
#[derive(Clone, Copy, Debug, PartialEq, Eq)]
pub struct Vertex {
    pub position: (i32, i32),
    pub tex_coords: (i32, i32),
}

/// Builds a vertex at `(x, y)` that shows the texture at `(tx, ty)`.
pub fn pos(x: i32, y: i32, tx: i32, ty: i32) -> (v: Vertex)
    ensures
        v == (Vertex { position: (x, y), tex_coords: (tx, ty) }),
{
    Vertex { position: (x, y), tex_coords: (tx, ty) }
}

/// The corners of the triangle: (-0.5, -0.5), (0.0, 0.5), (0.5, -0.25).
pub open spec fn triangle_shape() -> Seq<(i32, i32)> {
    seq![(-5_000i32, -5_000i32), (0i32, 5_000i32), (5_000i32, -2_500i32)]
}

/// The corners of the quad: those of the triangle, then (0.5, 0.6), each with
/// the corner of the texture it shows.
pub open spec fn quad_shape() -> Seq<Vertex> {
    seq![
        Vertex { position: (-5_000i32, -5_000i32), tex_coords: (0i32, 0i32) },
        Vertex { position: (0i32, 5_000i32), tex_coords: (0i32, 10_000i32) },
        Vertex { position: (5_000i32, -2_500i32), tex_coords: (10_000i32, 0i32) },
        Vertex { position: (5_000i32, 6_000i32), tex_coords: (10_000i32, 10_000i32) },
    ]
}

/// The quad as a list of triangles: corners 0, 1, 2 and corners 1, 2, 3.
pub open spec fn quad_index_list() -> Seq<u16> {
    seq![0u16, 1u16, 2u16, 1u16, 2u16, 3u16]
}

/// `indices` is a list of whole triangles over `vertex_count` vertices: three
/// indices per triangle, each naming a vertex that exists.
pub open spec fn is_triangle_list(indices: Seq<u16>, vertex_count: nat) -> bool {
    &&& indices.len() % 3 == 0
    &&& forall|i: int| 0 <= i < indices.len() ==> (#[trigger] indices[i]) < vertex_count
}

/// The vertex positions of the triangle scene, drawn as one triangle without
/// an index list.
pub fn triangle_positions() -> (r: Vec<(i32, i32)>)
    ensures
        r@ == triangle_shape(),
{
    let mut r: Vec<(i32, i32)> = Vec::new();
    r.push((-5_000, -5_000));
    r.push((0, 5_000));
    r.push((5_000, -2_500));
    assert(r@ =~= triangle_shape());
    r
}

/// The vertices of the textured quad.
pub fn quad_vertices() -> (r: Vec<Vertex>)
    ensures
        r@ == quad_shape(),
{
    let mut r: Vec<Vertex> = Vec::new();
    r.push(pos(-5_000, -5_000, 0, 0));
    r.push(pos(0, 5_000, 0, 10_000));
    r.push(pos(5_000, -2_500, 10_000, 0));
    r.push(pos(5_000, 6_000, 10_000, 10_000));
    assert(r@ =~= quad_shape());
    r
}

/// The index list of the textured quad: two triangles over its four vertices.
pub fn quad_indices() -> (r: Vec<u16>)
    ensures
        r@ == quad_index_list(),
        is_triangle_list(r@, quad_shape().len()),
        r@.len() == 2 * 3,
{
    let mut r: Vec<u16> = Vec::new();
    r.push(0);
    r.push(1);
    r.push(2);
    r.push(1);
    r.push(2);
    r.push(3);
    assert(r@ =~= quad_index_list());
    r
}

} // verus!
