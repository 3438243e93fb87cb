//! Tessellation drivers: the two entry points (fill and stroke) that run the
//! tessellation library on a path and accumulate output into a shared
//! [`VertexBuffers`] through the winding adapter.
//!
//! The tessellation library's own output — which vertices and which (native,
//! clockwise) triangles a given path and options produce — is named by the
//! uninterpreted functions [`fill_out_of`] and [`stroke_out_of`]; everything
//! that happens to that output afterwards (color stamping, the winding flip,
//! offsetting into a shared buffer) is verified code.

use vstd::prelude::*;
use bytemuck::cast;
use lyon_tessellation::geometry_builder::Positions;
use lyon_tessellation::math::point;
use lyon_tessellation::BuffersBuilder;
use crate::draw::{CapStyle, DrawMode, FillMode, JoinStyle, StrokeMode};
use crate::path::{PathCmd, ShapePath};
use crate::vertex::{BuffersView, CcwBuffersBuilder, Vertex, VertexBuffers, buffers_wf, empty_buffers};

verus! {

#[verifier::external_type_specification]
#[verifier::external_body]
/// The fill tessellator of the tessellation library, declared so that it can
/// be held and passed by reference. Opaque to the verifier.
pub struct ExFillTessellator(lyon_tessellation::FillTessellator);

#[verifier::external_type_specification]
#[verifier::external_body]
/// The stroke tessellator of the tessellation library. Opaque to the verifier.
pub struct ExStrokeTessellator(lyon_tessellation::StrokeTessellator);

#[verifier::external_type_specification]
#[verifier::external_body]
/// The tessellation library's path type: an opaque store of the commands it
/// was built from. [`path_cmds_of`] names those commands.
pub struct ExLyonPath(lyon_tessellation::path::Path);

/// The commands a tessellation-library path was built from.
pub uninterp spec fn path_cmds_of(p: lyon_tessellation::path::Path) -> Seq<PathCmd>;

/// One vertex as the tessellator emits it: a 2D position, as `f32` bit
/// patterns, before any color is attached.
#[derive(Clone, Copy, Debug, PartialEq, Eq, Structural)]
pub struct RawVertex {
    /// X coordinate, as an `f32` bit pattern.
    pub x: u32,
    /// Y coordinate, as an `f32` bit pattern.
    pub y: u32,
}

/// Mathematical view of one tessellation run's raw output.
pub struct RawTessView {
    /// Emitted vertices, in emission order.
    pub vertices: Seq<RawVertex>,
    /// Emitted indices, in triples, in the tessellator's native (clockwise)
    /// winding, relative to `vertices`.
    pub indices: Seq<u32>,
    /// Whether the run completed; on failure the library discards the run's
    /// partial geometry, so the sequences then hold what was left standing.
    pub ok: bool,
}

/// Raw output of one tessellation run.
pub struct RawBuffers {
    /// Emitted vertices.
    pub vertices: Vec<RawVertex>,
    /// Emitted index triples, native winding.
    pub indices: Vec<u32>,
    /// Whether the run completed.
    pub ok: bool,
}

impl View for RawBuffers {
    type V = RawTessView;

    open spec fn view(&self) -> RawTessView {
        RawTessView { vertices: self.vertices@, indices: self.indices@, ok: self.ok }
    }
}

/// Invariant of raw tessellation output: indices come in triples, each
/// addresses an emitted vertex, and the vertex count fits the `u32` index
/// type. The library's buffer sink guarantees this: it hands out vertex ids
/// numbered from zero, refuses to grow past the index type's maximum, pushes
/// indices three at a time, and rolls the run back on failure.
pub open spec fn raw_wf(r: RawTessView) -> bool {
    r.indices.len() % 3 == 0 && r.vertices.len() <= u32::MAX && (forall|i: int|
        0 <= i < r.indices.len() ==> (r.indices[i] as int) < r.vertices.len())
}

/// What fill tessellation of the given commands at the given tolerance
/// emits. A pure function of its arguments: the tessellator resets its
/// scratch state on every run, so equal inputs give equal output.
pub uninterp spec fn fill_out_of(cmds: Seq<PathCmd>, tolerance: u32) -> RawTessView;

/// What stroke tessellation of the given commands with the given options
/// emits. A pure function of its arguments, as for [`fill_out_of`].
pub uninterp spec fn stroke_out_of(cmds: Seq<PathCmd>, options: crate::draw::StrokeOptions) -> RawTessView;

/// Relies on the tessellation library's path builder (`Path::builder`,
/// `with_svg`, `move_to`, `line_to`, `quadratic_bezier_to`,
/// `cubic_bezier_to`, `close`, `build`): replaying a well-formed command
/// sequence builds the path holding exactly those commands. Well-formedness
/// is required because the builder rejects non-finite coordinates, and
/// because on a sequence that breaks subpath discipline it would silently
/// rewrite commands.
#[verifier::external_body]
fn build_lyon_path(p: &ShapePath) -> (r: lyon_tessellation::path::Path)
    requires
        p.wf(),
    ensures
        path_cmds_of(r) == p@,
{
    let mut b = lyon_tessellation::path::Path::builder().with_svg();
    let pt = |v: u32, w: u32| point(cast(v), cast(w));
    for c in &p.cmds {
        match *c {
            PathCmd::MoveTo { x, y } => { b.move_to(pt(x, y)); }
            PathCmd::LineTo { x, y } => { b.line_to(pt(x, y)); }
            PathCmd::QuadraticTo { cx, cy, x, y } => { b.quadratic_bezier_to(pt(cx, cy), pt(x, y)); }
            PathCmd::CubicTo { c1x, c1y, c2x, c2y, x, y } => { b.cubic_bezier_to(pt(c1x, c1y), pt(c2x, c2y), pt(x, y)); }
            PathCmd::Close => { b.close(); }
        }
    }
    b.build()
}

/// Relies on `FillTessellator::tessellate_path` collecting through the
/// library's `BuffersBuilder` into fresh buffers: the output is a function
/// of the path and tolerance alone, satisfies [`raw_wf`], and `ok` reports
/// whether the run completed (a non-positive or NaN tolerance, and paths the
/// algorithm cannot triangulate, are reported as failures, never panics).
#[verifier::external_body]
fn fill_path_raw(
    tess: &mut lyon_tessellation::FillTessellator,
    path: &lyon_tessellation::path::Path,
    tolerance: u32,
) -> (r: RawBuffers)
    ensures
        r@ == fill_out_of(path_cmds_of(*path), tolerance),
        raw_wf(r@),
{
    let mut buf: lyon_tessellation::VertexBuffers<lyon_tessellation::math::Point, u32> =
        lyon_tessellation::VertexBuffers::new();
    let opts = lyon_tessellation::FillOptions::tolerance(cast(tolerance));
    let res = tess.tessellate_path(path, &opts, &mut BuffersBuilder::new(&mut buf, Positions));
    RawBuffers {
        vertices: buf.vertices.iter().map(|v| RawVertex { x: cast(v.x), y: cast(v.y) }).collect(),
        indices: buf.indices,
        ok: res.is_ok(),
    }
}

#[verifier::external_type_specification]
#[verifier::external_body]
/// The tessellation library's line cap enumeration. Opaque to the verifier.
pub struct ExLineCap(lyon_tessellation::LineCap);

#[verifier::external_type_specification]
#[verifier::external_body]
/// The tessellation library's line join enumeration. Opaque to the verifier.
pub struct ExLineJoin(lyon_tessellation::LineJoin);

/// Relies on converting this crate's cap variants to the tessellation
/// library's `LineCap`, one variant each.
#[verifier::external_body]
fn to_lyon_cap(c: CapStyle) -> lyon_tessellation::LineCap {
    match c {
        CapStyle::Butt => lyon_tessellation::LineCap::Butt,
        CapStyle::Square => lyon_tessellation::LineCap::Square,
        CapStyle::Round => lyon_tessellation::LineCap::Round,
    }
}

/// Relies on converting this crate's join variants to the tessellation
/// library's `LineJoin`, one variant each.
#[verifier::external_body]
fn to_lyon_join(j: JoinStyle) -> lyon_tessellation::LineJoin {
    match j {
        JoinStyle::Miter => lyon_tessellation::LineJoin::Miter,
        JoinStyle::MiterClip => lyon_tessellation::LineJoin::MiterClip,
        JoinStyle::Round => lyon_tessellation::LineJoin::Round,
        JoinStyle::Bevel => lyon_tessellation::LineJoin::Bevel,
    }
}

/// Relies on `StrokeTessellator::tessellate_path`, as [`fill_path_raw`]
/// relies on the fill side. Valid options are required: the library asserts
/// a miter limit of at least `1.0`, and a non-positive tolerance or
/// non-finite width would make it misbehave instead of failing cleanly.
#[verifier::external_body]
fn stroke_path_raw(
    tess: &mut lyon_tessellation::StrokeTessellator,
    path: &lyon_tessellation::path::Path,
    options: &crate::draw::StrokeOptions,
) -> (r: RawBuffers)
    requires
        options.wf(),
    ensures
        r@ == stroke_out_of(path_cmds_of(*path), *options),
        raw_wf(r@),
{
    let mut buf: lyon_tessellation::VertexBuffers<lyon_tessellation::math::Point, u32> =
        lyon_tessellation::VertexBuffers::new();
    let opts = lyon_tessellation::StrokeOptions::tolerance(cast(options.tolerance))
        .with_line_width(cast(options.line_width)).with_miter_limit(cast(options.miter_limit))
        .with_start_cap(to_lyon_cap(options.start_cap)).with_end_cap(to_lyon_cap(options.end_cap))
        .with_line_join(to_lyon_join(options.line_join));
    let res = tess.tessellate_path(path, &opts, &mut BuffersBuilder::new(&mut buf, Positions));
    RawBuffers {
        vertices: buf.vertices.iter().map(|v| RawVertex { x: cast(v.x), y: cast(v.y) }).collect(),
        indices: buf.indices,
        ok: res.is_ok(),
    }
}

/// Relies on `FillTessellator::new`.
#[verifier::external_body]
fn new_lyon_fill_tessellator() -> lyon_tessellation::FillTessellator {
    lyon_tessellation::FillTessellator::new()
}

/// Relies on `StrokeTessellator::new`.
#[verifier::external_body]
fn new_lyon_stroke_tessellator() -> lyon_tessellation::StrokeTessellator {
    lyon_tessellation::StrokeTessellator::new()
}

/// A long-lived fill tessellator, reused across runs to amortize its
/// internal scratch allocations. `calls` counts tessellation runs, so that
/// contracts can state when no tessellation happened.
pub struct FillTess {
    /// The tessellation library's fill tessellator.
    pub tess: lyon_tessellation::FillTessellator,
    /// Number of fill runs performed through this instance.
    pub calls: Ghost<nat>,
}

impl FillTess {
    /// A fresh fill tessellator that has run nothing yet.
    pub fn new() -> (r: Self)
        ensures
            r.calls@ == 0,
    {
        FillTess { tess: new_lyon_fill_tessellator(), calls: Ghost(0) }
    }
}

/// A long-lived stroke tessellator; see [`FillTess`].
pub struct StrokeTess {
    /// The tessellation library's stroke tessellator.
    pub tess: lyon_tessellation::StrokeTessellator,
    /// Number of stroke runs performed through this instance.
    pub calls: Ghost<nat>,
}

impl StrokeTess {
    /// A fresh stroke tessellator that has run nothing yet.
    pub fn new() -> (r: Self)
        ensures
            r.calls@ == 0,
    {
        StrokeTess { tess: new_lyon_stroke_tessellator(), calls: Ghost(0) }
    }
}

/// Vertices stamped with one color.
pub open spec fn stamped(verts: Seq<RawVertex>, color: u32) -> Seq<Vertex> {
    verts.map(|_i: int, v: RawVertex| Vertex { x: v.x, y: v.y, color })
}

/// Position of the index each output slot takes its value from: within each
/// triple the last two are exchanged (the winding flip).
pub open spec fn swap_pos(i: int) -> int {
    if i % 3 == 1 {
        i + 1
    } else if i % 3 == 2 {
        i - 1
    } else {
        i
    }
}

/// Raw native-winding indices turned into counter-clockwise indices offset
/// into a shared buffer: each triple `(a, b, c)` becomes
/// `(base + a, base + c, base + b)`.
pub open spec fn ccw_indices(raw: Seq<u32>, base: int) -> Seq<u32> {
    Seq::new(raw.len(), |i: int| (base + raw[swap_pos(i)]) as u32)
}

/// Whether one run's vertices still fit the `u32` index space on top of a
/// buffer's existing vertices.
pub open spec fn raw_fits(b: BuffersView, raw: RawTessView) -> bool {
    b.vertices.len() + raw.vertices.len() <= u32::MAX
}

/// A buffer pair after one tessellation run is appended to it: the run's
/// vertices stamped with the style color, and its triangles flipped to
/// counter-clockwise and offset past the existing vertices. A run that is
/// malformed or would overflow the index space leaves the buffer unchanged.
pub open spec fn append_output(b: BuffersView, raw: RawTessView, color: u32) -> BuffersView {
    if raw_wf(raw) && raw_fits(b, raw) {
        BuffersView {
            vertices: b.vertices + stamped(raw.vertices, color),
            indices: b.indices + ccw_indices(raw.indices, b.vertices.len() as int),
        }
    } else {
        b
    }
}

/// Append one run's raw output to a buffer pair, stamping `color`, flipping
/// each triangle's winding and offsetting indices past the existing
/// vertices. Returns whether the output fit (and was appended).
pub fn append_raw(buffers: &mut VertexBuffers, raw: &RawBuffers, color: u32) -> (appended: bool)
    requires
        buffers_wf(old(buffers)@),
        raw_wf(raw@),
    ensures
        buffers_wf(final(buffers)@),
        final(buffers)@ == append_output(old(buffers)@, raw@, color),
        appended == raw_fits(old(buffers)@, raw@),
{
    if raw.vertices.len() > (u32::MAX as usize) - buffers.vertices.len() {
        proof {
            assert(!raw_fits(buffers@, raw@));
            assert(append_output(buffers@, raw@, color) == buffers@);
        }
        return false;
    }
    let adapter = CcwBuffersBuilder::new(buffers, color);
    let ghost base: int = buffers@.vertices.len() as int;
    let ghost orig: BuffersView = buffers@;
    let mut i: usize = 0;
    while i < raw.vertices.len()
        invariant
            i <= raw.vertices.len(),
            adapter.base == base,
            adapter.color == color,
            base + raw@.vertices.len() <= u32::MAX,
            buffers@.vertices == orig.vertices + stamped(raw@.vertices.take(i as int), color),
            buffers@.indices == orig.indices,
            orig.vertices.len() == base,
        decreases raw@.vertices.len() - i,
    {
        let v = raw.vertices[i];
        adapter.add_vertex(buffers, v.x, v.y);
        proof {
            assert(stamped(raw@.vertices.take(i + 1), color) =~= stamped(
                raw@.vertices.take(i as int),
                color,
            ).push(Vertex { x: v.x, y: v.y, color }));
            assert(buffers@.vertices =~= orig.vertices + stamped(
                raw@.vertices.take(i + 1),
                color,
            ));
        }
        i = i + 1;
    }
    proof {
        assert(raw@.vertices.take(raw@.vertices.len() as int) =~= raw@.vertices);
    }
    let mut j: usize = 0;
    while j < raw.indices.len()
        invariant
            j <= raw.indices.len(),
            j % 3 == 0,
            raw_wf(raw@),
            adapter.base == base,
            adapter.color == color,
            base + raw@.vertices.len() <= u32::MAX,
            buffers@.vertices == orig.vertices + stamped(raw@.vertices, color),
            buffers@.indices == orig.indices + ccw_indices(raw@.indices.take(j as int), base),
            orig.vertices.len() == base,
        decreases raw@.indices.len() - j,
    {
        proof {
            assert(raw@.indices.len() % 3 == 0);
            assert(j + 2 < raw@.indices.len()) by {
                assert(j < raw@.indices.len());
                assert(j % 3 == 0);
            }
        }
        let a = raw.indices[j];
        let b = raw.indices[j + 1];
        let c = raw.indices[j + 2];
        adapter.add_triangle(buffers, a, b, c);
        proof {
            let pre = ccw_indices(raw@.indices.take(j as int), base);
            let post = ccw_indices(raw@.indices.take(j + 3), base);
            assert(post =~= pre.push((base + a) as u32).push((base + c) as u32).push(
                (base + b) as u32,
            )) by {
                assert forall|k: int| 0 <= k < post.len() implies post[k] == pre.push(
                    (base + a) as u32,
                ).push((base + c) as u32).push((base + b) as u32)[k] by {
                    assert(raw@.indices.take(j + 3)[swap_pos(k)] == raw@.indices[swap_pos(k)]);
                    if k < j {
                        assert(raw@.indices.take(j as int)[swap_pos(k)] == raw@.indices[swap_pos(
                            k,
                        )]);
                    }
                }
            }
            assert(buffers@.indices =~= orig.indices + post);
        }
        j = j + 3;
    }
    proof {
        assert(raw@.indices.take(raw@.indices.len() as int) =~= raw@.indices);
        assert(buffers@ == append_output(orig, raw@, color));
        assert(buffers_wf(buffers@)) by {
            assert forall|k: int| 0 <= k < buffers@.indices.len() implies (
            buffers@.indices[k] as int) < buffers@.vertices.len() by {
                if k >= orig.indices.len() {
                    let r = ccw_indices(raw@.indices, base);
                    assert(buffers@.indices[k] == r[k - orig.indices.len()]);
                }
            }
        }
    }
    true
}

/// Run fill tessellation of `path` with `mode`'s options, stamp every
/// emitted vertex with `mode`'s color, and append the result — winding
/// flipped to counter-clockwise — to `buffers`. Prior contents are kept.
/// Returns whether the run completed and its output was appended; on
/// failure whatever the run left standing is still appended, so the caller
/// can proceed with partial geometry.
pub fn fill(
    tess: &mut FillTess,
    path: &ShapePath,
    mode: &FillMode,
    buffers: &mut VertexBuffers,
) -> (ok: bool)
    requires
        path.wf(),
        buffers_wf(old(buffers)@),
    ensures
        buffers_wf(final(buffers)@),
        final(buffers)@ == append_output(
            old(buffers)@,
            fill_out_of(path@, mode.options.tolerance),
            mode.color,
        ),
        final(tess).calls@ == old(tess).calls@ + 1,
        ok == (fill_out_of(path@, mode.options.tolerance).ok && raw_fits(
            old(buffers)@,
            fill_out_of(path@, mode.options.tolerance),
        )),
{
    let lp = build_lyon_path(path);
    let raw = fill_path_raw(&mut tess.tess, &lp, mode.options.tolerance);
    proof {
        tess.calls@ = tess.calls@ + 1;
    }
    let appended = append_raw(buffers, &raw, mode.color);
    appended && raw.ok
}

/// Run stroke tessellation of `path` with `mode`'s options and append the
/// result to `buffers`, exactly as [`fill`] does for fills.
pub fn stroke(
    tess: &mut StrokeTess,
    path: &ShapePath,
    mode: &StrokeMode,
    buffers: &mut VertexBuffers,
) -> (ok: bool)
    requires
        path.wf(),
        mode.options.wf(),
        buffers_wf(old(buffers)@),
    ensures
        buffers_wf(final(buffers)@),
        final(buffers)@ == append_output(
            old(buffers)@,
            stroke_out_of(path@, mode.options),
            mode.color,
        ),
        final(tess).calls@ == old(tess).calls@ + 1,
        ok == (stroke_out_of(path@, mode.options).ok && raw_fits(
            old(buffers)@,
            stroke_out_of(path@, mode.options),
        )),
{
    let lp = build_lyon_path(path);
    let raw = stroke_path_raw(&mut tess.tess, &lp, &mode.options);
    proof {
        tess.calls@ = tess.calls@ + 1;
    }
    let appended = append_raw(buffers, &raw, mode.color);
    appended && raw.ok
}

/// A buffer pair after one draw mode is tessellated into it: one fill run,
/// one stroke run, or — for `Outlined` — the fill run first and the stroke
/// run appended after it.
pub open spec fn mode_output(b: BuffersView, mode: DrawMode, cmds: Seq<PathCmd>) -> BuffersView {
    match mode {
        DrawMode::Fill(m) => append_output(b, fill_out_of(cmds, m.options.tolerance), m.color),
        DrawMode::Stroke(m) => append_output(b, stroke_out_of(cmds, m.options), m.color),
        DrawMode::Outlined { fill_mode, outline_mode } => append_output(
            append_output(b, fill_out_of(cmds, fill_mode.options.tolerance), fill_mode.color),
            stroke_out_of(cmds, outline_mode.options),
            outline_mode.color,
        ),
    }
}

/// Law: tessellating the same path and draw mode twice, each time into a
/// fresh buffer, yields identical vertex and index sequences.
pub proof fn lemma_tessellation_idempotent(
    b1: BuffersView,
    b2: BuffersView,
    mode: DrawMode,
    cmds: Seq<PathCmd>,
)
    requires
        b1 == empty_buffers(),
        b2 == empty_buffers(),
    ensures
        mode_output(b1, mode, cmds) == mode_output(b2, mode, cmds),
{
}

/// Law: an `Outlined` draw mode's buffer is the fill pass's buffer followed
/// by the stroke pass's buffer, each independently indexed — the stroke
/// pass's indices are shifted past the fill pass's vertices, so the two
/// sub-passes share no vertices. Stated whenever the two passes together
/// fit the `u32` index space.
pub proof fn lemma_outlined_is_fill_then_stroke(
    cmds: Seq<PathCmd>,
    fill_mode: FillMode,
    outline_mode: StrokeMode,
)
    ensures
        ({
            let o = mode_output(empty_buffers(), DrawMode::Outlined { fill_mode, outline_mode }, cmds);
            let f = mode_output(empty_buffers(), DrawMode::Fill(fill_mode), cmds);
            let s = mode_output(empty_buffers(), DrawMode::Stroke(outline_mode), cmds);
            fill_out_of(cmds, fill_mode.options.tolerance).vertices.len() + stroke_out_of(
                cmds,
                outline_mode.options,
            ).vertices.len() <= u32::MAX ==> o.vertices == f.vertices + s.vertices && o.indices
                == f.indices + s.indices.map(|_i: int, ix: u32| (ix + f.vertices.len()) as u32)
        }),
{
    let fraw = fill_out_of(cmds, fill_mode.options.tolerance);
    let sraw = stroke_out_of(cmds, outline_mode.options);
    let e = empty_buffers();
    let o = mode_output(e, DrawMode::Outlined { fill_mode, outline_mode }, cmds);
    let f = mode_output(e, DrawMode::Fill(fill_mode), cmds);
    let s = mode_output(e, DrawMode::Stroke(outline_mode), cmds);
    if fraw.vertices.len() + sraw.vertices.len() <= u32::MAX {
        if !(raw_wf(fraw) && raw_fits(e, fraw)) {
            assert(f == e);
            assert(o == append_output(e, sraw, outline_mode.color));
            assert(o.vertices =~= f.vertices + s.vertices);
            assert(o.indices =~= f.indices + s.indices.map(
                |_i: int, ix: u32| (ix + f.vertices.len()) as u32,
            ));
        } else {
            let base = f.vertices.len() as int;
            assert(base == fraw.vertices.len());
            if !(raw_wf(sraw) && raw_fits(f, sraw)) {
                assert(o == f);
                assert(s == e);
                assert(o.vertices =~= f.vertices + s.vertices);
                assert(o.indices =~= f.indices + s.indices.map(
                    |_i: int, ix: u32| (ix + f.vertices.len()) as u32,
                ));
            } else {
                assert(o.vertices =~= f.vertices + s.vertices);
                let shifted = s.indices.map(|_i: int, ix: u32| (ix + f.vertices.len()) as u32);
                assert(ccw_indices(sraw.indices, base) =~= shifted) by {
                    assert forall|k: int| 0 <= k < sraw.indices.len() implies ccw_indices(
                        sraw.indices,
                        base,
                    )[k] == shifted[k] by {
                        assert(0 <= swap_pos(k) < sraw.indices.len());
                        assert((sraw.indices[swap_pos(k)] as int) < sraw.vertices.len());
                        assert(s.indices[k] == (0 + sraw.indices[swap_pos(k)]) as u32);
                    }
                }
                assert(o.indices =~= f.indices + shifted);
            }
        }
    }
}

} // verus!
