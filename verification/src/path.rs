//! Vector paths: ordered sequences of move/line/curve commands describing
//! one or more contours.
//!
//! Coordinates are carried as the bit patterns of 32-bit IEEE-754 floats
//! (`f32::to_bits`), so that contracts can speak of them as plain integers.

use vstd::prelude::*;

verus! {

/// One command of a vector path. Each coordinate is an `f32` bit pattern.
#[derive(Clone, Copy, Debug, PartialEq, Eq, Structural)]
pub enum PathCmd {
    /// Start a new subpath at the given point.
    MoveTo { x: u32, y: u32 },
    /// Straight segment from the current point.
    LineTo { x: u32, y: u32 },
    /// Quadratic bezier segment with one control point.
    QuadraticTo { cx: u32, cy: u32, x: u32, y: u32 },
    /// Cubic bezier segment with two control points.
    CubicTo { c1x: u32, c1y: u32, c2x: u32, c2y: u32, x: u32, y: u32 },
    /// Close the current subpath back to its starting point.
    Close,
}

/// A `u32` bit pattern denotes a finite `f32` exactly when the exponent
/// field (bits 23 to 30) is not all ones (all-ones encodes infinities and
/// NaNs).
pub open spec fn finite_bits(b: u32) -> bool {
    (b / 0x0080_0000u32) % 256 != 255
}

/// Runtime check matching `finite_bits`.
pub fn is_finite_bits(b: u32) -> (r: bool)
    ensures
        r == finite_bits(b),
{
    (b / 0x0080_0000u32) % 256 != 255
}

/// All coordinates of one command are finite.
pub open spec fn cmd_finite(c: PathCmd) -> bool {
    match c {
        PathCmd::MoveTo { x, y } => finite_bits(x) && finite_bits(y),
        PathCmd::LineTo { x, y } => finite_bits(x) && finite_bits(y),
        PathCmd::QuadraticTo { cx, cy, x, y } => finite_bits(cx) && finite_bits(cy)
            && finite_bits(x) && finite_bits(y),
        PathCmd::CubicTo { c1x, c1y, c2x, c2y, x, y } => finite_bits(c1x) && finite_bits(c1y)
            && finite_bits(c2x) && finite_bits(c2y) && finite_bits(x) && finite_bits(y),
        PathCmd::Close => true,
    }
}

/// Whether a subpath is open after the given command sequence: a `MoveTo`
/// opens one, a `Close` closes it, and segments leave the state unchanged.
pub open spec fn open_after(cmds: Seq<PathCmd>) -> bool
    decreases cmds.len(),
{
    if cmds.len() == 0 {
        false
    } else {
        match cmds.last() {
            PathCmd::MoveTo { .. } => true,
            PathCmd::Close => false,
            _ => open_after(cmds.drop_last()),
        }
    }
}

/// A well-formed command sequence: every coordinate is finite, and every
/// segment or `Close` occurs inside an open subpath (after some `MoveTo`).
pub open spec fn cmds_wf(cmds: Seq<PathCmd>) -> bool
    decreases cmds.len(),
{
    if cmds.len() == 0 {
        true
    } else {
        cmds_wf(cmds.drop_last()) && cmd_finite(cmds.last()) && (match cmds.last() {
            PathCmd::MoveTo { .. } => true,
            _ => open_after(cmds.drop_last()),
        })
    }
}

/// An immutable vector shape path: an ordered command sequence describing one or
/// more closed or open contours. Replaced wholesale on edit, never mutated
/// in place.
pub struct ShapePath {
    pub cmds: Vec<PathCmd>,
}

impl View for ShapePath {
    type V = Seq<PathCmd>;

    open spec fn view(&self) -> Seq<PathCmd> {
        self.cmds@
    }
}

impl ShapePath {
    /// The path's commands are well formed (finite coordinates, subpath
    /// discipline).
    pub open spec fn wf(&self) -> bool {
        cmds_wf(self@)
    }

    /// Runtime check matching [`ShapePath::wf`], for callers that receive a
    /// path they did not build themselves.
    pub fn is_well_formed(&self) -> (r: bool)
        ensures
            r == self.wf(),
    {
        let mut opened = false;
        let mut i: usize = 0;
        while i < self.cmds.len()
            invariant
                i <= self.cmds@.len(),
                cmds_wf(self.cmds@.take(i as int)),
                opened == open_after(self.cmds@.take(i as int)),
            decreases self.cmds@.len() - i,
        {
            let c = self.cmds[i];
            proof {
                assert(self.cmds@.take(i + 1).drop_last() =~= self.cmds@.take(i as int));
                assert(self.cmds@.take(i + 1).last() == c);
            }
            let fin = match c {
                PathCmd::MoveTo { x, y } => is_finite_bits(x) && is_finite_bits(y),
                PathCmd::LineTo { x, y } => is_finite_bits(x) && is_finite_bits(y),
                PathCmd::QuadraticTo { cx, cy, x, y } => is_finite_bits(cx) && is_finite_bits(cy)
                    && is_finite_bits(x) && is_finite_bits(y),
                PathCmd::CubicTo { c1x, c1y, c2x, c2y, x, y } => is_finite_bits(c1x)
                    && is_finite_bits(c1y) && is_finite_bits(c2x) && is_finite_bits(c2y)
                    && is_finite_bits(x) && is_finite_bits(y),
                PathCmd::Close => true,
            };
            let starts = match c {
                PathCmd::MoveTo { .. } => true,
                _ => false,
            };
            if !(fin && (starts || opened)) {
                proof {
                    assert(!cmds_wf(self.cmds@.take(i + 1)));
                    lemma_cmds_wf_prefix(self.cmds@, i + 1);
                }
                return false;
            }
            opened = match c {
                PathCmd::MoveTo { .. } => true,
                PathCmd::Close => false,
                _ => opened,
            };
            i = i + 1;
        }
        proof {
            assert(self.cmds@.take(self.cmds@.len() as int) =~= self.cmds@);
        }
        true
    }
}

/// Well-formedness passes down to every prefix.
proof fn lemma_cmds_wf_prefix(s: Seq<PathCmd>, n: int)
    requires
        0 <= n <= s.len(),
    ensures
        cmds_wf(s) ==> cmds_wf(s.take(n)),
    decreases s.len(),
{
    if n < s.len() && s.len() > 0 {
        assert(s.drop_last() =~= s.take(s.len() - 1));
        lemma_cmds_wf_prefix(s.take(s.len() - 1), n);
        assert(s.take(s.len() - 1).take(n) =~= s.take(n));
    } else {
        assert(s.take(s.len() as int) =~= s);
    }
}

proof fn lemma_push_drop_last<A>(s: Seq<A>, x: A)
    ensures
        s.push(x).drop_last() == s,
        s.push(x).last() == x,
{
    assert(s.push(x).drop_last() =~= s);
}

/// Builds a well-formed [`ShapePath`] command by command.
///
/// Mirrors SVG path semantics: a segment issued while no subpath is open
/// starts a fresh subpath at the segment's endpoint, and `close` outside a
/// subpath does nothing.
pub struct PathBuilder {
    pub cmds: Vec<PathCmd>,
    pub opened: bool,
}

impl PathBuilder {
    /// The builder's accumulated commands are well formed and `opened`
    /// tracks the subpath state.
    pub open spec fn wf(&self) -> bool {
        cmds_wf(self.cmds@) && self.opened == open_after(self.cmds@)
    }

    /// An empty builder.
    pub fn new() -> (r: Self)
        ensures
            r.wf(),
            r.cmds@ == Seq::<PathCmd>::empty(),
    {
        PathBuilder { cmds: Vec::new(), opened: false }
    }

    /// Start a new subpath at `(x, y)`.
    pub fn move_to(&mut self, x: u32, y: u32)
        requires
            old(self).wf(),
            finite_bits(x),
            finite_bits(y),
        ensures
            final(self).wf(),
            final(self).cmds@ == old(self).cmds@.push(PathCmd::MoveTo { x, y }),
    {
        proof {
            lemma_push_drop_last(self.cmds@, PathCmd::MoveTo { x, y });
        }
        self.cmds.push(PathCmd::MoveTo { x, y });
        self.opened = true;
    }

    /// Straight segment to `(x, y)`; starts a subpath there if none is open.
    pub fn line_to(&mut self, x: u32, y: u32)
        requires
            old(self).wf(),
            finite_bits(x),
            finite_bits(y),
        ensures
            final(self).wf(),
            final(self).cmds@ == old(self).cmds@.push(
                if old(self).opened { PathCmd::LineTo { x, y } } else { PathCmd::MoveTo { x, y } }
            ),
    {
        let c = if self.opened { PathCmd::LineTo { x, y } } else { PathCmd::MoveTo { x, y } };
        proof {
            lemma_push_drop_last(self.cmds@, c);
        }
        self.cmds.push(c);
        self.opened = true;
    }

    /// Quadratic bezier segment; starts a subpath at `(x, y)` if none is open.
    pub fn quadratic_bezier_to(&mut self, cx: u32, cy: u32, x: u32, y: u32)
        requires
            old(self).wf(),
            finite_bits(cx),
            finite_bits(cy),
            finite_bits(x),
            finite_bits(y),
        ensures
            final(self).wf(),
            final(self).cmds@ == old(self).cmds@.push(
                if old(self).opened {
                    PathCmd::QuadraticTo { cx, cy, x, y }
                } else {
                    PathCmd::MoveTo { x, y }
                }
            ),
    {
        let c = if self.opened {
            PathCmd::QuadraticTo { cx, cy, x, y }
        } else {
            PathCmd::MoveTo { x, y }
        };
        proof {
            lemma_push_drop_last(self.cmds@, c);
        }
        self.cmds.push(c);
        self.opened = true;
    }

    /// Cubic bezier segment; starts a subpath at `(x, y)` if none is open.
    pub fn cubic_bezier_to(&mut self, c1x: u32, c1y: u32, c2x: u32, c2y: u32, x: u32, y: u32)
        requires
            old(self).wf(),
            finite_bits(c1x),
            finite_bits(c1y),
            finite_bits(c2x),
            finite_bits(c2y),
            finite_bits(x),
            finite_bits(y),
        ensures
            final(self).wf(),
            final(self).cmds@ == old(self).cmds@.push(
                if old(self).opened {
                    PathCmd::CubicTo { c1x, c1y, c2x, c2y, x, y }
                } else {
                    PathCmd::MoveTo { x, y }
                }
            ),
    {
        let c = if self.opened {
            PathCmd::CubicTo { c1x, c1y, c2x, c2y, x, y }
        } else {
            PathCmd::MoveTo { x, y }
        };
        proof {
            lemma_push_drop_last(self.cmds@, c);
        }
        self.cmds.push(c);
        self.opened = true;
    }

    /// Close the current subpath; does nothing if none is open.
    pub fn close(&mut self)
        requires
            old(self).wf(),
        ensures
            final(self).wf(),
            final(self).cmds@ == if old(self).opened {
                old(self).cmds@.push(PathCmd::Close)
            } else {
                old(self).cmds@
            },
    {
        if self.opened {
            proof {
                lemma_push_drop_last(self.cmds@, PathCmd::Close);
            }
            self.cmds.push(PathCmd::Close);
            self.opened = false;
        }
    }

    /// Finish building; the result is well formed.
    pub fn build(self) -> (p: ShapePath)
        requires
            self.wf(),
        ensures
            p.wf(),
            p@ == self.cmds@,
    {
        ShapePath { cmds: self.cmds }
    }
}

} // verus!
