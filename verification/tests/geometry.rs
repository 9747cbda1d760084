use lyon_front::geometry::{GeometryBuilderError, GeometryOutput, IndexWidth};
use lyon_front::types::{LyonPoint, LyonVector, Scalar};
use lyon_front::vertex::Vertex;

fn scalar(value: f32) -> Scalar {
    Scalar::from_bits(value.to_bits())
}

fn vertex(tag: u32) -> Vertex {
    Vertex {
        position: LyonPoint::new(scalar(tag as f32), scalar(0.0)),
        original_position: LyonPoint::new(scalar(tag as f32), scalar(0.0)),
        normal: LyonVector::new(scalar(0.0), scalar(0.0)),
        color: tag,
        primitive_type: 1,
        fill_ind: 0,
        shape_ind: 0,
    }
}

fn indices(geometry: &GeometryOutput) -> Vec<u32> {
    (0..geometry.index_count()).map(|i| geometry.index(i)).collect()
}

#[test]
fn widths_have_their_capacities() {
    assert_eq!(IndexWidth::Sixteen.max_vertices(), 65_535);
    assert_eq!(IndexWidth::Sixteen.max_vertices(), u16::MAX as u32);
    assert_eq!(IndexWidth::ThirtyTwo.max_vertices(), 4_294_967_295);
    assert_eq!(IndexWidth::ThirtyTwo.max_vertices(), u32::MAX);
}

#[test]
fn new_output_is_empty() {
    let geometry = GeometryOutput::new(IndexWidth::Sixteen);
    assert_eq!(geometry.index_width(), IndexWidth::Sixteen);
    assert_eq!(geometry.vertex_count(), 0);
    assert_eq!(geometry.index_count(), 0);
    assert_eq!(geometry.triangle_count(), 0);
    assert_eq!(GeometryOutput::new(IndexWidth::ThirtyTwo).index_width(), IndexWidth::ThirtyTwo);
}

#[test]
fn vertices_are_numbered_in_the_order_they_come() {
    let mut geometry = GeometryOutput::new(IndexWidth::Sixteen);
    geometry.begin_geometry();
    assert_eq!(geometry.add_vertex(vertex(10)), Ok(0));
    assert_eq!(geometry.add_vertex(vertex(11)), Ok(1));
    assert_eq!(geometry.add_vertex(vertex(12)), Ok(2));
    assert_eq!(geometry.vertex_count(), 3);
    assert_eq!(geometry.vertex(0), vertex(10));
    assert_eq!(geometry.vertex(1), vertex(11));
    assert_eq!(geometry.vertex(2), vertex(12));
}

#[test]
fn triangles_add_three_indices_each() {
    let mut geometry = GeometryOutput::new(IndexWidth::ThirtyTwo);
    geometry.begin_geometry();
    for tag in 0..4 {
        geometry.add_vertex(vertex(tag)).unwrap();
    }
    assert_eq!(geometry.add_triangle(0, 1, 2), Ok(()));
    assert_eq!(geometry.add_triangle(0, 2, 3), Ok(()));
    assert_eq!(indices(&geometry), vec![0, 1, 2, 0, 2, 3]);
    assert_eq!(geometry.index_count(), 6);
    assert_eq!(geometry.triangle_count(), 2);
}

#[test]
fn a_triangle_that_names_no_vertex_is_refused() {
    let mut geometry = GeometryOutput::new(IndexWidth::Sixteen);
    geometry.begin_geometry();
    for tag in 0..3 {
        geometry.add_vertex(vertex(tag)).unwrap();
    }
    assert_eq!(geometry.add_triangle(0, 1, 3), Err(GeometryBuilderError::InvalidVertex));
    assert_eq!(geometry.add_triangle(3, 1, 2), Err(GeometryBuilderError::InvalidVertex));
    assert_eq!(geometry.add_triangle(0, u32::MAX, 2), Err(GeometryBuilderError::InvalidVertex));
    assert_eq!(geometry.index_count(), 0);
    assert_eq!(geometry.vertex_count(), 3);
    assert_eq!(geometry.add_triangle(2, 1, 0), Ok(()));
    assert_eq!(indices(&geometry), vec![2, 1, 0]);
}

#[test]
fn a_triangle_may_not_name_a_vertex_of_an_earlier_geometry() {
    let mut geometry = GeometryOutput::new(IndexWidth::Sixteen);
    geometry.begin_geometry();
    for tag in 0..3 {
        geometry.add_vertex(vertex(tag)).unwrap();
    }
    geometry.add_triangle(0, 1, 2).unwrap();
    geometry.begin_geometry();
    for tag in 3..6 {
        geometry.add_vertex(vertex(tag)).unwrap();
    }
    assert!(!geometry.holds_vertex(2));
    assert!(geometry.holds_vertex(3));
    assert!(geometry.holds_vertex(5));
    assert!(!geometry.holds_vertex(6));
    assert_eq!(geometry.add_triangle(2, 3, 4), Err(GeometryBuilderError::InvalidVertex));
    assert_eq!(geometry.add_triangle(3, 4, 5), Ok(()));
    assert_eq!(indices(&geometry), vec![0, 1, 2, 3, 4, 5]);
}

#[test]
fn abort_takes_away_the_current_geometry_only() {
    let mut geometry = GeometryOutput::new(IndexWidth::Sixteen);
    geometry.begin_geometry();
    for tag in 0..3 {
        geometry.add_vertex(vertex(tag)).unwrap();
    }
    geometry.add_triangle(0, 1, 2).unwrap();
    geometry.begin_geometry();
    for tag in 3..7 {
        geometry.add_vertex(vertex(tag)).unwrap();
    }
    geometry.add_triangle(3, 4, 5).unwrap();
    geometry.add_triangle(3, 5, 6).unwrap();
    assert_eq!(geometry.vertex_count(), 7);
    assert_eq!(geometry.index_count(), 9);
    geometry.abort_geometry();
    assert_eq!(geometry.vertex_count(), 3);
    assert_eq!(indices(&geometry), vec![0, 1, 2]);
    assert_eq!(geometry.vertex(2), vertex(2));
    // The next vertex takes the first free number again.
    assert_eq!(geometry.add_vertex(vertex(99)), Ok(3));
}

#[test]
fn abort_of_the_only_geometry_leaves_nothing() {
    let mut geometry = GeometryOutput::new(IndexWidth::ThirtyTwo);
    geometry.begin_geometry();
    for tag in 0..3 {
        geometry.add_vertex(vertex(tag)).unwrap();
    }
    geometry.add_triangle(0, 1, 2).unwrap();
    geometry.abort_geometry();
    assert_eq!(geometry.vertex_count(), 0);
    assert_eq!(geometry.index_count(), 0);
}

#[test]
fn sixteen_bits_hold_65535_vertices_and_not_one_more() {
    let mut geometry = GeometryOutput::new(IndexWidth::Sixteen);
    geometry.begin_geometry();
    for tag in 0..65_535u32 {
        assert_eq!(geometry.add_vertex(vertex(tag)), Ok(tag));
    }
    assert_eq!(geometry.vertex_count(), 65_535);
    assert_eq!(geometry.add_vertex(vertex(65_535)), Err(GeometryBuilderError::TooManyVertices));
    assert_eq!(geometry.add_vertex(vertex(65_536)), Err(GeometryBuilderError::TooManyVertices));
    assert_eq!(geometry.vertex_count(), 65_535);
    assert_eq!(geometry.vertex(65_534), vertex(65_534));
    assert_eq!(geometry.index_count(), 0);
}

#[test]
fn thirty_two_bits_hold_what_sixteen_refuse() {
    let mut narrow = GeometryOutput::new(IndexWidth::Sixteen);
    let mut wide = GeometryOutput::new(IndexWidth::ThirtyTwo);
    narrow.begin_geometry();
    wide.begin_geometry();
    let mut refused = 0;
    for tag in 0..66_000u32 {
        if narrow.add_vertex(vertex(tag)).is_err() {
            refused += 1;
        }
        assert_eq!(wide.add_vertex(vertex(tag)), Ok(tag));
    }
    assert_eq!(refused, 66_000 - 65_535);
    assert_eq!(narrow.vertex_count(), 65_535);
    assert_eq!(wide.vertex_count(), 66_000);
    assert_eq!(wide.add_triangle(65_535, 65_536, 65_999), Ok(()));
    assert_eq!(indices(&wide), vec![65_535, 65_536, 65_999]);
}

#[test]
fn narrow_indices_keep_their_values() {
    let mut geometry = GeometryOutput::new(IndexWidth::Sixteen);
    geometry.begin_geometry();
    for tag in 0..65_535u32 {
        geometry.add_vertex(vertex(tag)).unwrap();
    }
    geometry.add_triangle(0, 1, 2).unwrap();
    geometry.add_triangle(65_534, 300, 40_000).unwrap();
    assert_eq!(geometry.narrow_indices(), Some(vec![0u16, 1, 2, 65_534, 300, 40_000]));
    assert_eq!(GeometryOutput::new(IndexWidth::Sixteen).narrow_indices(), Some(vec![]));
}

#[test]
fn wide_indices_are_not_narrowed() {
    let mut geometry = GeometryOutput::new(IndexWidth::ThirtyTwo);
    geometry.begin_geometry();
    for tag in 0..3 {
        geometry.add_vertex(vertex(tag)).unwrap();
    }
    geometry.add_triangle(0, 1, 2).unwrap();
    assert_eq!(geometry.narrow_indices(), None);
    assert_eq!(GeometryOutput::new(IndexWidth::ThirtyTwo).narrow_indices(), None);
}

#[test]
fn every_index_names_a_vertex() {
    let mut geometry = GeometryOutput::new(IndexWidth::Sixteen);
    geometry.begin_geometry();
    for tag in 0..5 {
        geometry.add_vertex(vertex(tag)).unwrap();
    }
    let _ = geometry.add_triangle(0, 1, 2);
    let _ = geometry.add_triangle(4, 5, 6);
    let _ = geometry.add_triangle(2, 3, 4);
    geometry.begin_geometry();
    let _ = geometry.add_vertex(vertex(5));
    let _ = geometry.add_triangle(5, 5, 5);
    let _ = geometry.add_triangle(0, 5, 5);
    geometry.abort_geometry();
    assert_eq!(geometry.index_count() % 3, 0);
    for index in indices(&geometry) {
        assert!(index < geometry.vertex_count());
    }
    assert_eq!(indices(&geometry), vec![0, 1, 2, 2, 3, 4]);
}
