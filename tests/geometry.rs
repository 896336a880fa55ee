use oxidized::geometry::{Geometry, GeometryError, Primitive, Vertex, UNIT};

#[test]
fn vertex_new_keeps_coordinates() {
    let v = Vertex::new(-2500, 7500);
    assert_eq!(v.x, -2500);
    assert_eq!(v.y, 7500);
}

#[test]
fn checked_add_sums_components() {
    let v = Vertex::new(-2500, 100).checked_add(Vertex::new(2500, 250));
    assert_eq!(v, Some(Vertex::new(0, 350)));
}

#[test]
fn checked_add_refuses_overflow() {
    assert_eq!(Vertex::new(i32::MAX, 0).checked_add(Vertex::new(1, 0)), None);
    assert_eq!(Vertex::new(0, i32::MIN).checked_add(Vertex::new(0, -1)), None);
}

#[test]
fn in_bounds_includes_the_edges_of_unit_space() {
    assert!(Vertex::new(UNIT, -UNIT).in_bounds());
    assert!(Vertex::new(0, 0).in_bounds());
    assert!(!Vertex::new(UNIT + 1, 0).in_bounds());
    assert!(!Vertex::new(0, -UNIT - 1).in_bounds());
}

#[test]
fn triangles_are_numbered_from_the_vertex_count() {
    let mut g = Geometry::new();
    let a = [Vertex::new(-5000, -5000), Vertex::new(0, 5000), Vertex::new(7500, -2500)];
    let b = [Vertex::new(0, 0), Vertex::new(1000, 0), Vertex::new(0, 1000)];
    assert_eq!(g.add_triangle(a), Ok(()));
    assert_eq!(g.add_triangle(b), Ok(()));
    assert_eq!(g.indices, vec![0, 1, 2, 3, 4, 5]);
    assert_eq!(g.vertices.len(), 6);
    assert_eq!(g.vertices[3], Vertex::new(0, 0));
    assert_eq!(g.vertices[2], Vertex::new(7500, -2500));
}

#[test]
fn triangle_outside_unit_space_is_refused() {
    let mut g = Geometry::new();
    let a = [Vertex::new(0, 0), Vertex::new(1000, 0), Vertex::new(0, 1000)];
    assert_eq!(g.add_triangle(a), Ok(()));
    let bad = [Vertex::new(0, 0), Vertex::new(0, UNIT + 1), Vertex::new(-UNIT - 5, 0)];
    assert_eq!(g.add_triangle(bad), Err(GeometryError::OutOfBounds { vertex: 4 }));
    assert_eq!(g.vertices.len(), 3);
    assert_eq!(g.indices, vec![0, 1, 2]);
}

#[test]
fn triangle_primitive_offsets_its_indices() {
    let t = [Vertex::new(0, 0), Vertex::new(1000, 0), Vertex::new(0, 1000)];
    let (v, ix) = t.get_primitives(9).unwrap();
    assert_eq!(v, t.to_vec());
    assert_eq!(ix, vec![9, 10, 11]);
}

#[test]
fn from_parts_accepts_valid_geometry() {
    let vs = vec![Vertex::new(0, 0), Vertex::new(UNIT, 0), Vertex::new(0, -UNIT)];
    let g = Geometry::from_parts(vs.clone(), vec![0, 1, 2, 2, 1, 0]).unwrap();
    assert_eq!(g.vertices, vs);
    assert_eq!(g.indices, vec![0, 1, 2, 2, 1, 0]);
}

#[test]
fn from_parts_accepts_empty_geometry() {
    let g = Geometry::from_parts(vec![], vec![]).unwrap();
    assert!(g.vertices.is_empty());
    assert!(g.indices.is_empty());
}

#[test]
fn from_parts_names_the_first_vertex_out_of_bounds() {
    let vs = vec![
        Vertex::new(0, 0),
        Vertex::new(20000, 0),
        Vertex::new(0, -20000),
    ];
    assert_eq!(
        Geometry::from_parts(vs, vec![0, 1]).err(),
        Some(GeometryError::OutOfBounds { vertex: 1 })
    );
}

#[test]
fn from_parts_refuses_a_partial_triangle() {
    let vs = vec![Vertex::new(0, 0), Vertex::new(100, 0), Vertex::new(0, 100)];
    assert_eq!(
        Geometry::from_parts(vs, vec![0, 1, 2, 0]).err(),
        Some(GeometryError::PartialTriangle { len: 4 })
    );
}

#[test]
fn from_parts_names_the_first_dangling_index() {
    let vs = vec![Vertex::new(0, 0), Vertex::new(100, 0), Vertex::new(0, 100)];
    assert_eq!(
        Geometry::from_parts(vs, vec![0, 1, 2, 2, 3, 7]).err(),
        Some(GeometryError::IndexOutOfRange { position: 4 })
    );
}
