use sliding_quad::geometry::{pos, quad_indices, quad_vertices, triangle_positions, Vertex};
use sliding_quad::units::UNITS_PER_ONE;

fn as_real(units: i32) -> f32 {
    units as f32 / UNITS_PER_ONE as f32
}

fn pair(p: (i32, i32)) -> [f32; 2] {
    [as_real(p.0), as_real(p.1)]
}

#[test]
fn pos_keeps_its_four_arguments() {
    let v = pos(1, -2, 3, -4);
    assert_eq!(v, Vertex { position: (1, -2), tex_coords: (3, -4) });
    assert_eq!(v.position, (1, -2));
    assert_eq!(v.tex_coords, (3, -4));
}

#[test]
fn triangle_has_the_three_fixed_corners() {
    let shape = triangle_positions();
    assert_eq!(shape, vec![(-5000, -5000), (0, 5000), (5000, -2500)]);
    let reals: Vec<[f32; 2]> = shape.iter().map(|p| pair(*p)).collect();
    assert_eq!(reals, vec![[-0.5, -0.5], [0.0, 0.5], [0.5, -0.25]]);
}

#[test]
fn quad_has_the_four_fixed_corners() {
    let shape = quad_vertices();
    assert_eq!(shape.len(), 4);
    let positions: Vec<[f32; 2]> = shape.iter().map(|v| pair(v.position)).collect();
    assert_eq!(positions, vec![[-0.5, -0.5], [0.0, 0.5], [0.5, -0.25], [0.5, 0.6]]);
    let tex: Vec<[f32; 2]> = shape.iter().map(|v| pair(v.tex_coords)).collect();
    assert_eq!(tex, vec![[0.0, 0.0], [0.0, 1.0], [1.0, 0.0], [1.0, 1.0]]);
}

#[test]
fn quad_starts_with_the_corners_of_the_triangle() {
    let triangle = triangle_positions();
    let quad = quad_vertices();
    assert_eq!(quad.len(), triangle.len() + 1);
    for i in 0..triangle.len() {
        assert_eq!(quad[i].position, triangle[i]);
    }
}

#[test]
fn quad_indices_form_two_triangles() {
    let indices = quad_indices();
    assert_eq!(indices, vec![0u16, 1, 2, 1, 2, 3]);
    assert_eq!(indices.len() % 3, 0);
    assert_eq!(indices.len() / 3, 2);
}

#[test]
fn every_index_names_a_vertex_of_the_quad() {
    let count = quad_vertices().len();
    for i in quad_indices() {
        assert!(usize::from(i) < count);
    }
}

#[test]
fn building_the_shapes_twice_gives_the_same_contents() {
    assert_eq!(quad_vertices(), quad_vertices());
    assert_eq!(quad_indices(), quad_indices());
    assert_eq!(triangle_positions(), triangle_positions());
}

#[test]
fn every_coordinate_survives_the_trip_through_f32() {
    for v in quad_vertices() {
        for units in [v.position.0, v.position.1, v.tex_coords.0, v.tex_coords.1] {
            let back = (as_real(units) * UNITS_PER_ONE as f32).round() as i32;
            assert_eq!(back, units);
        }
    }
}
