//! The change-driven mesh system and the plugin surface around it.
//!
//! Each shape entity carries a draw mode, a path, a mesh handle slot and a
//! host-maintained "changed this pass" flag. One pass re-tessellates exactly
//! the changed entities, registers each fresh mesh with the mesh store, and
//! overwrites the entity's handle; unchanged entities are untouched and cost
//! no tessellation run.

use vstd::prelude::*;
use crate::draw::DrawMode;
use crate::mesh::{MeshData, MeshView, build_mesh, mesh_of};
use crate::path::{PathCmd, ShapePath, cmds_wf};
use crate::tess::{FillTess, StrokeTess, fill, mode_output, stroke};
use crate::vertex::{VertexBuffers, empty_buffers};

verus! {

/// Stages for this plugin.
#[derive(Debug, Clone, PartialEq, Eq, Hash)]
pub enum Stage {
    /// The stage where spawned shape entities get their mesh, scheduled
    /// after the host's shape-spawning systems of the same frame.
    Shape,
}

/// The plugin: owns the creation of the long-lived tessellator resources
/// and names the schedule point ([`Stage::Shape`]) where the host runs
/// [`mesh_shapes_system`] once per frame.
pub struct ShapePlugin;

impl ShapePlugin {
    /// Create the two process-wide tessellator resources the mesh system
    /// borrows exclusively during a pass. The host registers them and
    /// schedules [`mesh_shapes_system`] at [`Stage::Shape`].
    pub fn build(&self) -> (r: (FillTess, StrokeTess))
        ensures
            r.0.calls@ == 0,
            r.1.calls@ == 0,
    {
        (FillTess::new(), StrokeTess::new())
    }
}

/// Opaque handle to a mesh registered with the mesh store.
#[derive(Clone, Copy, Debug, PartialEq, Eq, Structural)]
pub struct MeshHandle {
    /// The store's identifier for the mesh.
    pub id: u64,
}

impl Default for MeshHandle {
    /// The unset handle an entity starts with.
    fn default() -> (r: Self)
        ensures
            r.id == 0,
    {
        MeshHandle { id: 0 }
    }
}

/// Mathematical view of a shape entity.
pub struct EntityView {
    /// How the shape is drawn.
    pub mode: DrawMode,
    /// The shape's path commands.
    pub path: Seq<PathCmd>,
    /// The entity's mesh handle slot.
    pub mesh: MeshHandle,
    /// Whether path or mode changed this pass.
    pub changed: bool,
}

/// One shape entity: a draw mode, a path, a mesh-handle slot, and the
/// host's per-pass change signal (true when the path or the mode was
/// written since the last pass).
pub struct ShapeEntity {
    /// How the shape is drawn.
    pub mode: DrawMode,
    /// The shape's outline.
    pub path: ShapePath,
    /// Slot for the handle of the entity's current mesh.
    pub mesh: MeshHandle,
    /// Host-maintained change signal for this pass.
    pub changed: bool,
}

impl View for ShapeEntity {
    type V = EntityView;

    open spec fn view(&self) -> EntityView {
        EntityView { mode: self.mode, path: self.path@, mesh: self.mesh, changed: self.changed }
    }
}

/// A processable entity: well-formed path and valid stroke options.
pub open spec fn entity_wf(e: EntityView) -> bool {
    cmds_wf(e.path) && e.mode.wf()
}

/// The mesh store: the external asset collaborator, modeled as the ordered
/// list of meshes registered so far. Registering returns a fresh handle;
/// nothing is ever freed or reused by this core.
pub struct MeshStore {
    /// Registered meshes, in registration order.
    pub meshes: Vec<MeshData>,
}

impl View for MeshStore {
    type V = Seq<MeshView>;

    open spec fn view(&self) -> Seq<MeshView> {
        self.meshes@.map(|_i: int, m: MeshData| m@)
    }
}

impl MeshStore {
    /// An empty store.
    pub fn new() -> (r: Self)
        ensures
            r@ == Seq::<MeshView>::empty(),
    {
        let r = MeshStore { meshes: Vec::new() };
        proof {
            assert(r@ =~= Seq::<MeshView>::empty());
        }
        r
    }

    /// Number of registered meshes.
    pub fn len(&self) -> (n: usize)
        ensures
            n == self@.len(),
    {
        self.meshes.len()
    }

    /// The mesh a handle with identifier `i` refers to.
    pub fn get(&self, i: usize) -> (m: &MeshData)
        requires
            i < self@.len(),
        ensures
            m@ == self@[i as int],
    {
        &self.meshes[i]
    }

    /// Register a mesh; the returned fresh handle identifies it.
    pub fn add(&mut self, mesh: MeshData) -> (h: MeshHandle)
        ensures
            final(self)@ == old(self)@.push(mesh@),
            h.id == old(self)@.len(),
    {
        let ghost pre = self.meshes@;
        let h = MeshHandle { id: self.meshes.len() as u64 };
        self.meshes.push(mesh);
        proof {
            assert(self@ =~= pre.map(|_i: int, m: MeshData| m@).push(mesh@));
        }
        h
    }
}

/// The mesh a changed entity receives: its path tessellated with its draw
/// mode into a fresh buffer, built as a triangle-list mesh.
pub open spec fn entity_mesh(e: EntityView) -> MeshView {
    mesh_of(mode_output(empty_buffers(), e.mode, e.path))
}

/// The meshes one pass registers, in entity order: one per changed entity.
pub open spec fn pass_meshes(s: Seq<EntityView>) -> Seq<MeshView>
    decreases s.len(),
{
    if s.len() == 0 {
        Seq::<MeshView>::empty()
    } else {
        pass_meshes(s.drop_last()) + (if s.last().changed {
            seq![entity_mesh(s.last())]
        } else {
            Seq::<MeshView>::empty()
        })
    }
}

/// How many entities of the sequence are marked changed.
pub open spec fn changed_count(s: Seq<EntityView>) -> nat
    decreases s.len(),
{
    if s.len() == 0 {
        0
    } else {
        changed_count(s.drop_last()) + (if s.last().changed {
            1nat
        } else {
            0nat
        })
    }
}

/// Whether meshing an entity runs the fill tessellator (fill and outlined
/// modes do).
pub open spec fn needs_fill(m: DrawMode) -> bool {
    match m {
        DrawMode::Fill(_) => true,
        DrawMode::Stroke(_) => false,
        DrawMode::Outlined { .. } => true,
    }
}

/// Whether meshing an entity runs the stroke tessellator.
pub open spec fn needs_stroke(m: DrawMode) -> bool {
    match m {
        DrawMode::Fill(_) => false,
        DrawMode::Stroke(_) => true,
        DrawMode::Outlined { .. } => true,
    }
}

/// Fill tessellation runs one pass performs over the sequence.
pub open spec fn fill_runs(s: Seq<EntityView>) -> nat
    decreases s.len(),
{
    if s.len() == 0 {
        0
    } else {
        fill_runs(s.drop_last()) + (if s.last().changed && needs_fill(s.last().mode) {
            1nat
        } else {
            0nat
        })
    }
}

/// Stroke tessellation runs one pass performs over the sequence.
pub open spec fn stroke_runs(s: Seq<EntityView>) -> nat
    decreases s.len(),
{
    if s.len() == 0 {
        0
    } else {
        stroke_runs(s.drop_last()) + (if s.last().changed && needs_stroke(s.last().mode) {
            1nat
        } else {
            0nat
        })
    }
}

/// The views of a sequence of entities.
pub open spec fn views_of(q: Seq<ShapeEntity>) -> Seq<EntityView> {
    q.map(|_i: int, e: ShapeEntity| e@)
}

/// The pass registers exactly as many meshes as there are changed entities.
pub proof fn lemma_pass_meshes_len(s: Seq<EntityView>)
    ensures
        pass_meshes(s).len() == changed_count(s),
    decreases s.len(),
{
    if s.len() > 0 {
        lemma_pass_meshes_len(s.drop_last());
    }
}

/// Law (failure containment): the mesh a pass registers for the `i`-th
/// entity, when that entity is marked changed, stands at offset
/// `changed_count(s.take(i))` of the pass's meshes and is that entity's own
/// mesh — a function of its path and draw mode alone. Other entities in
/// the pass, failing or not, cannot disturb it: with
/// [`mesh_shapes_system`]'s contract, the entity's new handle points at
/// exactly this mesh.
pub proof fn lemma_pass_mesh_of_changed(s: Seq<EntityView>, i: int)
    requires
        0 <= i < s.len(),
        s[i].changed,
    ensures
        changed_count(s.take(i)) < pass_meshes(s).len(),
        pass_meshes(s)[changed_count(s.take(i)) as int] == entity_mesh(s[i]),
    decreases s.len(),
{
    lemma_pass_meshes_len(s.drop_last());
    if i == s.len() - 1 {
        assert(s.take(i) =~= s.drop_last());
        assert(pass_meshes(s) == pass_meshes(s.drop_last()) + seq![entity_mesh(s.last())]);
    } else {
        lemma_pass_mesh_of_changed(s.drop_last(), i);
        assert(s.drop_last().take(i) =~= s.take(i));
        assert(pass_meshes(s)[changed_count(s.take(i)) as int] == pass_meshes(s.drop_last())[
            changed_count(s.take(i)) as int
        ]);
    }
}

/// Law (change gating): a pass over entities none of which is marked
/// changed registers no mesh and performs no fill or stroke tessellation
/// run. Together with [`mesh_shapes_system`]'s contract — an unchanged
/// entity comes out identical, handle included — change detection is the
/// sole trigger for re-meshing.
pub proof fn lemma_change_gating(s: Seq<EntityView>)
    requires
        forall|i: int| 0 <= i < s.len() ==> !s[i].changed,
    ensures
        pass_meshes(s) == Seq::<MeshView>::empty(),
        fill_runs(s) == 0,
        stroke_runs(s) == 0,
        changed_count(s) == 0,
    decreases s.len(),
{
    if s.len() == 0 {
        assert(pass_meshes(s) =~= Seq::<MeshView>::empty());
    } else {
        assert(forall|i: int|
            0 <= i < s.drop_last().len() ==> !s.drop_last()[i].changed);
        lemma_change_gating(s.drop_last());
        assert(!s[s.len() - 1].changed);
        assert(pass_meshes(s) =~= Seq::<MeshView>::empty());
    }
}

/// One pass of the change-driven mesh system.
///
/// For every entity marked changed: tessellate its path with its draw mode
/// into a fresh buffer (fill, stroke, or fill then stroke for outlined),
/// build a triangle-list mesh from the result, register it with the store,
/// and overwrite the entity's handle with the fresh one. Entities not
/// marked changed are left untouched — same handle, no tessellation run —
/// and a failed tessellation still yields a (possibly empty or partial)
/// mesh for its own entity without disturbing any other entity's.
pub fn mesh_shapes_system(
    meshes: &mut MeshStore,
    fill_tess: &mut FillTess,
    stroke_tess: &mut StrokeTess,
    query: &mut Vec<ShapeEntity>,
)
    requires
        forall|i: int| 0 <= i < old(query)@.len() ==> entity_wf(#[trigger] old(query)@[i]@),
    ensures
        final(query)@.len() == old(query)@.len(),
        forall|i: int|
            0 <= i < old(query)@.len() && !old(query)@[i]@.changed ==> final(query)@[i] == old(
                query,
            )@[i],
        forall|i: int|
            0 <= i < old(query)@.len() && old(query)@[i]@.changed ==> {
                let before = #[trigger] old(query)@[i]@;
                let after = final(query)@[i]@;
                after.mode == before.mode && after.path == before.path && after.changed
                    == before.changed && after.mesh.id == old(meshes)@.len() + changed_count(
                    views_of(old(query)@).take(i),
                )
            },
        final(meshes)@ == old(meshes)@ + pass_meshes(views_of(old(query)@)),
        final(fill_tess).calls@ == old(fill_tess).calls@ + fill_runs(views_of(old(query)@)),
        final(stroke_tess).calls@ == old(stroke_tess).calls@ + stroke_runs(views_of(old(query)@)),
{
    let ghost orig: Seq<ShapeEntity> = query@;
    let ghost base_meshes: Seq<MeshView> = meshes@;
    let ghost base_fill: nat = fill_tess.calls@;
    let ghost base_stroke: nat = stroke_tess.calls@;
    let mut done: Vec<ShapeEntity> = Vec::new();
    while query.len() > 0
        invariant
            done@.len() + query@.len() == orig.len(),
            query@ == orig.skip(done@.len() as int),
            forall|i: int| 0 <= i < orig.len() ==> entity_wf(#[trigger] orig[i]@),
            forall|i: int|
                0 <= i < done@.len() && !orig[i]@.changed ==> done@[i] == orig[i],
            forall|i: int|
                0 <= i < done@.len() && orig[i]@.changed ==> {
                    let before = #[trigger] orig[i]@;
                    let after = done@[i]@;
                    after.mode == before.mode && after.path == before.path && after.changed
                        == before.changed && after.mesh.id == base_meshes.len() + changed_count(
                        views_of(orig).take(i),
                    )
                },
            meshes@ == base_meshes + pass_meshes(views_of(orig).take(done@.len() as int)),
            fill_tess.calls@ == base_fill + fill_runs(views_of(orig).take(done@.len() as int)),
            stroke_tess.calls@ == base_stroke + stroke_runs(
                views_of(orig).take(done@.len() as int),
            ),
        decreases query@.len(),
    {
        let ghost k: int = done@.len() as int;
        let ghost prefix: Seq<EntityView> = views_of(orig).take(k);
        let e = query.remove(0);
        proof {
            assert(e == orig[k]);
            assert(query@ =~= orig.skip(k + 1));
            assert(views_of(orig).take(k + 1).drop_last() =~= prefix);
            assert(views_of(orig).take(k + 1).last() == orig[k]@);
            assert(entity_wf(orig[k]@));
        }
        if e.changed {
            let mut buffers = VertexBuffers::new();
            match &e.mode {
                DrawMode::Fill(mode) => {
                    fill(fill_tess, &e.path, mode, &mut buffers);
                },
                DrawMode::Stroke(mode) => {
                    stroke(stroke_tess, &e.path, mode, &mut buffers);
                },
                DrawMode::Outlined { fill_mode, outline_mode } => {
                    fill(fill_tess, &e.path, fill_mode, &mut buffers);
                    stroke(stroke_tess, &e.path, outline_mode, &mut buffers);
                },
            }
            proof {
                assert(buffers@ == mode_output(empty_buffers(), e@.mode, e@.path));
            }
            let mesh = build_mesh(&buffers);
            proof {
                assert(mesh@ == entity_mesh(orig[k]@));
                lemma_pass_meshes_len(prefix);
            }
            let handle = meshes.add(mesh);
            let done_entity = ShapeEntity {
                mode: e.mode,
                path: e.path,
                mesh: handle,
                changed: e.changed,
            };
            done.push(done_entity);
            proof {
                assert(pass_meshes(views_of(orig).take(k + 1)) =~= pass_meshes(prefix).push(
                    entity_mesh(orig[k]@),
                ));
                assert(meshes@ =~= base_meshes + pass_meshes(views_of(orig).take(k + 1)));
                assert(changed_count(views_of(orig).take(k + 1)) == changed_count(prefix) + 1);
                assert(fill_runs(views_of(orig).take(k + 1)) == fill_runs(prefix) + (
                if needs_fill(orig[k]@.mode) {
                    1nat
                } else {
                    0nat
                }));
                assert(stroke_runs(views_of(orig).take(k + 1)) == stroke_runs(prefix) + (
                if needs_stroke(orig[k]@.mode) {
                    1nat
                } else {
                    0nat
                }));
            }
        } else {
            done.push(e);
            proof {
                assert(pass_meshes(views_of(orig).take(k + 1)) =~= pass_meshes(prefix));
                assert(meshes@ =~= base_meshes + pass_meshes(views_of(orig).take(k + 1)));
            }
        }
    }
    proof {
        assert(views_of(orig).take(orig.len() as int) =~= views_of(orig));
    }
    *query = done;
}

} // verus!
