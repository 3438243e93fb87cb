//! Tests of the change-driven mesh system, the mesh store and the plugin
//! surface.

use shape_tess::draw::{DrawMode, FillMode, FillOptions, StrokeMode, StrokeOptions};
use shape_tess::path::{PathBuilder, ShapePath};
use shape_tess::plugin::{mesh_shapes_system, MeshHandle, MeshStore, ShapeEntity, ShapePlugin, Stage};
use shape_tess::tess::{FillTess, StrokeTess};

const RED: u32 = 0xff00_00ff;
const BLUE: u32 = 0x0000_ffff;

fn bits(v: f32) -> u32 {
    v.to_bits()
}

fn triangle_path() -> ShapePath {
    let mut b = PathBuilder::new();
    b.move_to(bits(0.0), bits(0.0));
    b.line_to(bits(1.0), bits(0.0));
    b.line_to(bits(0.0), bits(1.0));
    b.close();
    b.build()
}

fn fill_entity(color: u32, changed: bool) -> ShapeEntity {
    ShapeEntity {
        mode: DrawMode::Fill(FillMode { options: FillOptions::new(), color }),
        path: triangle_path(),
        mesh: MeshHandle::default(),
        changed,
    }
}

#[test]
fn changed_entities_are_meshed_and_handles_point_at_their_meshes() {
    let mut store = MeshStore::new();
    let (mut fill_tess, mut stroke_tess) = ShapePlugin.build();
    let mut query = vec![fill_entity(RED, true), fill_entity(BLUE, true)];
    mesh_shapes_system(&mut store, &mut fill_tess, &mut stroke_tess, &mut query);
    assert_eq!(store.len(), 2);
    assert_eq!(query[0].mesh.id, 0);
    assert_eq!(query[1].mesh.id, 1);
    let first = store.get(0);
    assert_eq!(first.positions.len(), 3);
    assert_eq!(first.colors, vec![RED, RED, RED]);
    let second = store.get(1);
    assert_eq!(second.colors, vec![BLUE, BLUE, BLUE]);
}

#[test]
fn unchanged_entities_trigger_nothing_and_keep_their_handles() {
    let mut store = MeshStore::new();
    let (mut fill_tess, mut stroke_tess) = ShapePlugin.build();
    let mut query = vec![fill_entity(RED, true), fill_entity(BLUE, true)];
    mesh_shapes_system(&mut store, &mut fill_tess, &mut stroke_tess, &mut query);
    assert_eq!(store.len(), 2);
    let handles: Vec<u64> = query.iter().map(|e| e.mesh.id).collect();

    // Second pass with the change flags cleared: no tessellation run, no new
    // mesh, handles untouched.
    for e in query.iter_mut() {
        e.changed = false;
    }
    mesh_shapes_system(&mut store, &mut fill_tess, &mut stroke_tess, &mut query);
    assert_eq!(store.len(), 2);
    let after: Vec<u64> = query.iter().map(|e| e.mesh.id).collect();
    assert_eq!(after, handles);
}

#[test]
fn remeshing_a_changed_entity_allocates_a_fresh_mesh() {
    let mut store = MeshStore::new();
    let (mut fill_tess, mut stroke_tess) = ShapePlugin.build();
    let mut query = vec![fill_entity(RED, true)];
    mesh_shapes_system(&mut store, &mut fill_tess, &mut stroke_tess, &mut query);
    assert_eq!(query[0].mesh.id, 0);

    // The entity stays marked changed: the pass re-tessellates and the
    // handle moves to a freshly registered mesh.
    mesh_shapes_system(&mut store, &mut fill_tess, &mut stroke_tess, &mut query);
    assert_eq!(store.len(), 2);
    assert_eq!(query[0].mesh.id, 1);
}

#[test]
fn failing_entity_does_not_disturb_later_entities() {
    let mut store = MeshStore::new();
    let (mut fill_tess, mut stroke_tess) = ShapePlugin.build();
    // A zero tolerance makes the fill run fail; the entity gets an empty
    // mesh and the pass goes on.
    let bad = ShapeEntity {
        mode: DrawMode::Fill(FillMode { options: FillOptions { tolerance: 0 }, color: RED }),
        path: triangle_path(),
        mesh: MeshHandle::default(),
        changed: true,
    };
    let mut query = vec![bad, fill_entity(BLUE, true)];
    mesh_shapes_system(&mut store, &mut fill_tess, &mut stroke_tess, &mut query);
    assert_eq!(store.len(), 2);
    let failed = store.get(0);
    assert_eq!(failed.positions.len(), 0);
    assert_eq!(failed.indices.len(), 0);
    let good = store.get(1);
    assert_eq!(good.positions.len(), 3);
    assert_eq!(good.colors, vec![BLUE, BLUE, BLUE]);
    assert_eq!(query[1].mesh.id, 1);
}

#[test]
fn outlined_entity_gets_one_combined_mesh() {
    let mut store = MeshStore::new();
    let (mut fill_tess, mut stroke_tess) = ShapePlugin.build();
    let entity = ShapeEntity {
        mode: DrawMode::Outlined {
            fill_mode: FillMode { options: FillOptions::new(), color: RED },
            outline_mode: StrokeMode { options: StrokeOptions::new(), color: BLUE },
        },
        path: triangle_path(),
        mesh: MeshHandle::default(),
        changed: true,
    };
    let mut query = vec![entity];
    mesh_shapes_system(&mut store, &mut fill_tess, &mut stroke_tess, &mut query);
    assert_eq!(store.len(), 1);
    let mesh = store.get(0);
    // Fill triangles first (red vertices), stroke triangles after (blue).
    assert!(mesh.colors.len() > 3);
    assert_eq!(mesh.colors[0], RED);
    assert_eq!(*mesh.colors.last().unwrap(), BLUE);
    assert!(mesh.indices.len() % 3 == 0);
}

#[test]
fn stage_and_default_handle() {
    assert_eq!(Stage::Shape, Stage::Shape.clone());
    assert_eq!(MeshHandle::default().id, 0);
}
