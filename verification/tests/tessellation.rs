//! Tests of path building, fill and stroke tessellation, the winding
//! adapter, and mesh construction.

use shape_tess::draw::{DrawMode, FillMode, FillOptions, StrokeMode, StrokeOptions};
use shape_tess::mesh::build_mesh;
use shape_tess::path::{PathBuilder, PathCmd, ShapePath};
use shape_tess::tess::{fill, stroke, FillTess, StrokeTess};
use shape_tess::vertex::{CcwBuffersBuilder, Vertex, VertexBuffers};

const RED: u32 = 0xff00_00ff;
const BLUE: u32 = 0x0000_ffff;

fn bits(v: f32) -> u32 {
    v.to_bits()
}

fn triangle_path() -> ShapePath {
    let mut b = PathBuilder::new();
    b.move_to(bits(0.0), bits(0.0));
    b.line_to(bits(1.0), bits(0.0));
    b.line_to(bits(0.0), bits(1.0));
    b.close();
    b.build()
}

fn square_path() -> ShapePath {
    let mut b = PathBuilder::new();
    b.move_to(bits(0.0), bits(0.0));
    b.line_to(bits(2.0), bits(0.0));
    b.line_to(bits(2.0), bits(2.0));
    b.line_to(bits(0.0), bits(2.0));
    b.close();
    b.build()
}

fn pentagon_path() -> ShapePath {
    let mut b = PathBuilder::new();
    b.move_to(bits(0.0), bits(2.0));
    b.line_to(bits(-1.9), bits(0.6));
    b.line_to(bits(-1.2), bits(-1.6));
    b.line_to(bits(1.2), bits(-1.6));
    b.line_to(bits(1.9), bits(0.6));
    b.close();
    b.build()
}

/// Signed area of one triangle, positive when counter-clockwise.
fn signed_area(a: (f32, f32), b: (f32, f32), c: (f32, f32)) -> f32 {
    0.5 * ((b.0 - a.0) * (c.1 - a.1) - (c.0 - a.0) * (b.1 - a.1))
}

fn triangle_areas(buffers: &VertexBuffers) -> Vec<f32> {
    let mut areas = Vec::new();
    let verts: Vec<(f32, f32)> = buffers
        .vertices
        .iter()
        .map(|v| (f32::from_bits(v.x), f32::from_bits(v.y)))
        .collect();
    let mut i = 0;
    while i < buffers.indices.len() {
        let a = verts[buffers.indices[i] as usize];
        let b = verts[buffers.indices[i + 1] as usize];
        let c = verts[buffers.indices[i + 2] as usize];
        areas.push(signed_area(a, b, c));
        i += 3;
    }
    areas
}

#[test]
fn path_builder_records_commands() {
    let p = triangle_path();
    assert_eq!(
        p.cmds,
        vec![
            PathCmd::MoveTo { x: bits(0.0), y: bits(0.0) },
            PathCmd::LineTo { x: bits(1.0), y: bits(0.0) },
            PathCmd::LineTo { x: bits(0.0), y: bits(1.0) },
            PathCmd::Close,
        ]
    );
}

#[test]
fn path_builder_segment_without_subpath_starts_one() {
    let mut b = PathBuilder::new();
    b.line_to(bits(3.0), bits(4.0));
    b.line_to(bits(5.0), bits(6.0));
    let p = b.build();
    assert_eq!(
        p.cmds,
        vec![
            PathCmd::MoveTo { x: bits(3.0), y: bits(4.0) },
            PathCmd::LineTo { x: bits(5.0), y: bits(6.0) },
        ]
    );
}

#[test]
fn path_builder_close_without_subpath_is_ignored() {
    let mut b = PathBuilder::new();
    b.close();
    b.move_to(bits(1.0), bits(1.0));
    let p = b.build();
    assert_eq!(p.cmds, vec![PathCmd::MoveTo { x: bits(1.0), y: bits(1.0) }]);
}

#[test]
fn winding_adapter_swaps_triangle_and_passes_vertices_through() {
    let mut buffers = VertexBuffers::new();
    let adapter = CcwBuffersBuilder::new(&buffers, RED);
    adapter.add_vertex(&mut buffers, bits(0.0), bits(0.0));
    adapter.add_vertex(&mut buffers, bits(1.0), bits(0.0));
    adapter.add_vertex(&mut buffers, bits(0.0), bits(1.0));
    adapter.add_triangle(&mut buffers, 0, 1, 2);
    assert_eq!(
        buffers.vertices,
        vec![
            Vertex { x: bits(0.0), y: bits(0.0), color: RED },
            Vertex { x: bits(1.0), y: bits(0.0), color: RED },
            Vertex { x: bits(0.0), y: bits(1.0), color: RED },
        ]
    );
    assert_eq!(buffers.indices, vec![0, 2, 1]);
}

#[test]
fn winding_adapter_applies_vertex_offset() {
    let mut buffers = VertexBuffers::new();
    let first = CcwBuffersBuilder::new(&buffers, RED);
    first.add_vertex(&mut buffers, bits(9.0), bits(9.0));
    let second = CcwBuffersBuilder::new(&buffers, BLUE);
    assert_eq!(second.base, 1);
    second.add_vertex(&mut buffers, bits(1.0), bits(2.0));
    second.add_triangle(&mut buffers, 0, 1, 2);
    assert_eq!(buffers.indices, vec![1, 3, 2]);
    assert_eq!(buffers.vertices[1].color, BLUE);
}

#[test]
fn fill_triangle_scenario_three_red_vertices_one_triangle() {
    let mut tess = FillTess::new();
    let path = triangle_path();
    let mode = FillMode { options: FillOptions::new(), color: RED };
    let mut buffers = VertexBuffers::new();
    let ok = fill(&mut tess, &path, &mode, &mut buffers);
    assert!(ok);
    assert_eq!(buffers.vertices.len(), 3);
    assert_eq!(buffers.indices.len(), 3);
    for v in &buffers.vertices {
        assert_eq!(v.color, RED);
    }
    let mut positions: Vec<(f32, f32)> = buffers
        .vertices
        .iter()
        .map(|v| (f32::from_bits(v.x), f32::from_bits(v.y)))
        .collect();
    positions.sort_by(|a, b| a.partial_cmp(b).unwrap());
    assert_eq!(positions, vec![(0.0, 0.0), (0.0, 1.0), (1.0, 0.0)]);
    let mesh = build_mesh(&buffers);
    assert_eq!(mesh.positions.len(), 3);
    for p in &mesh.positions {
        assert_eq!(p.z, 0);
        assert_eq!(f32::from_bits(p.z), 0.0);
    }
    assert_eq!(mesh.colors, vec![RED, RED, RED]);
    assert_eq!(mesh.indices, buffers.indices);
}

#[test]
fn fill_convex_polygons_yield_ccw_triangles() {
    for path in [triangle_path(), square_path(), pentagon_path()] {
        let mut tess = FillTess::new();
        let mode = FillMode { options: FillOptions::new(), color: RED };
        let mut buffers = VertexBuffers::new();
        let ok = fill(&mut tess, &path, &mode, &mut buffers);
        assert!(ok);
        assert!(buffers.vertices.len() >= 3);
        assert!(buffers.indices.len() % 3 == 0);
        assert!(!buffers.indices.is_empty());
        for area in triangle_areas(&buffers) {
            assert!(area > 0.0, "triangle area {} is not positive", area);
        }
    }
}

#[test]
fn stroke_emits_ccw_triangles_with_stamped_color() {
    let mut tess = StrokeTess::new();
    let path = square_path();
    let mode = StrokeMode { options: StrokeOptions::new(), color: BLUE };
    let mut buffers = VertexBuffers::new();
    let ok = stroke(&mut tess, &path, &mode, &mut buffers);
    assert!(ok);
    assert!(buffers.vertices.len() >= 3);
    assert!(buffers.indices.len() % 3 == 0);
    assert!(!buffers.indices.is_empty());
    for v in &buffers.vertices {
        assert_eq!(v.color, BLUE);
    }
    for area in triangle_areas(&buffers) {
        assert!(area > 0.0, "triangle area {} is not positive", area);
    }
}

#[test]
fn tessellation_is_idempotent_bit_for_bit() {
    let path = triangle_path();
    let fill_mode = FillMode { options: FillOptions::new(), color: RED };
    let stroke_mode = StrokeMode { options: StrokeOptions::new(), color: BLUE };

    let mut fill_tess = FillTess::new();
    let mut stroke_tess = StrokeTess::new();
    let mut first = VertexBuffers::new();
    fill(&mut fill_tess, &path, &fill_mode, &mut first);
    stroke(&mut stroke_tess, &path, &stroke_mode, &mut first);

    let mut second = VertexBuffers::new();
    fill(&mut fill_tess, &path, &fill_mode, &mut second);
    stroke(&mut stroke_tess, &path, &stroke_mode, &mut second);

    assert_eq!(first.vertices, second.vertices);
    assert_eq!(first.indices, second.indices);
}

#[test]
fn outlined_buffer_is_fill_buffer_then_shifted_stroke_buffer() {
    let path = square_path();
    let fill_mode = FillMode { options: FillOptions::new(), color: RED };
    let stroke_mode = StrokeMode { options: StrokeOptions::new(), color: BLUE };

    let mut fill_tess = FillTess::new();
    let mut stroke_tess = StrokeTess::new();

    let mut outlined = VertexBuffers::new();
    fill(&mut fill_tess, &path, &fill_mode, &mut outlined);
    stroke(&mut stroke_tess, &path, &stroke_mode, &mut outlined);

    let mut fill_only = VertexBuffers::new();
    fill(&mut fill_tess, &path, &fill_mode, &mut fill_only);
    let mut stroke_only = VertexBuffers::new();
    stroke(&mut stroke_tess, &path, &stroke_mode, &mut stroke_only);

    let mut expected_vertices = fill_only.vertices.clone();
    expected_vertices.extend(stroke_only.vertices.iter().cloned());
    assert_eq!(outlined.vertices, expected_vertices);

    let offset = fill_only.vertices.len() as u32;
    let mut expected_indices = fill_only.indices.clone();
    expected_indices.extend(stroke_only.indices.iter().map(|ix| ix + offset));
    assert_eq!(outlined.indices, expected_indices);
}

#[test]
fn failed_fill_keeps_prior_buffer_contents() {
    let path = triangle_path();
    let mut fill_tess = FillTess::new();
    let good = FillMode { options: FillOptions::new(), color: RED };
    let mut buffers = VertexBuffers::new();
    assert!(fill(&mut fill_tess, &path, &good, &mut buffers));
    let before_vertices = buffers.vertices.clone();
    let before_indices = buffers.indices.clone();

    // A zero tolerance is rejected by the tessellator: the run fails, the
    // buffer keeps what earlier passes accumulated.
    let bad = FillMode { options: FillOptions { tolerance: 0 }, color: RED };
    let ok = fill(&mut fill_tess, &path, &bad, &mut buffers);
    assert!(!ok);
    assert_eq!(buffers.vertices, before_vertices);
    assert_eq!(buffers.indices, before_indices);
}

#[test]
fn quadratic_and_cubic_segments_tessellate() {
    let mut b = PathBuilder::new();
    b.move_to(bits(0.0), bits(0.0));
    b.quadratic_bezier_to(bits(1.0), bits(2.0), bits(2.0), bits(0.0));
    b.cubic_bezier_to(bits(2.5), bits(-1.0), bits(0.5), bits(-1.0), bits(0.0), bits(0.0));
    b.close();
    let path = b.build();
    let mut tess = FillTess::new();
    let mode = FillMode { options: FillOptions::new(), color: RED };
    let mut buffers = VertexBuffers::new();
    let ok = fill(&mut tess, &path, &mode, &mut buffers);
    assert!(ok);
    assert!(buffers.vertices.len() >= 3);
    assert!(buffers.indices.len() % 3 == 0);
}

#[test]
fn stroke_caps_change_the_emitted_geometry() {
    let mut b = PathBuilder::new();
    b.move_to(bits(0.0), bits(0.0));
    b.line_to(bits(2.0), bits(0.0));
    let path = b.build();

    let mut tess = StrokeTess::new();
    let butt = StrokeMode { options: StrokeOptions::new(), color: BLUE };
    let mut square_options = StrokeOptions::new();
    square_options.start_cap = shape_tess::draw::CapStyle::Square;
    square_options.end_cap = shape_tess::draw::CapStyle::Square;
    let square = StrokeMode { options: square_options, color: BLUE };

    let mut butt_buffers = VertexBuffers::new();
    assert!(stroke(&mut tess, &path, &butt, &mut butt_buffers));
    let mut square_buffers = VertexBuffers::new();
    assert!(stroke(&mut tess, &path, &square, &mut square_buffers));

    // Square caps extend the ribbon past the endpoints, so the two runs
    // cannot emit identical vertices.
    assert_ne!(butt_buffers.vertices, square_buffers.vertices);
}

#[test]
fn well_formedness_check_accepts_built_paths_and_rejects_raw_ones() {
    assert!(triangle_path().is_well_formed());
    let orphan_segment = ShapePath {
        cmds: vec![PathCmd::LineTo { x: bits(1.0), y: bits(1.0) }],
    };
    assert!(!orphan_segment.is_well_formed());
    let nan_coordinate = ShapePath {
        cmds: vec![PathCmd::MoveTo { x: f32::NAN.to_bits(), y: bits(0.0) }],
    };
    assert!(!nan_coordinate.is_well_formed());
}

#[test]
fn stroke_options_validity_check() {
    assert!(StrokeOptions::new().is_valid());
    let mut zero_tolerance = StrokeOptions::new();
    zero_tolerance.tolerance = 0;
    assert!(!zero_tolerance.is_valid());
    let mut tiny_miter = StrokeOptions::new();
    tiny_miter.miter_limit = 0.5f32.to_bits();
    assert!(!tiny_miter.is_valid());
    let mut draw = DrawMode::Stroke(StrokeMode { options: StrokeOptions::new(), color: RED });
    assert!(draw.is_valid());
    draw = DrawMode::Stroke(StrokeMode { options: zero_tolerance, color: RED });
    assert!(!draw.is_valid());
}
