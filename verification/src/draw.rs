//! Fill, stroke and outlined draw styles with their tessellation options.
//!
//! Floating-point quantities (tolerance, line width, miter limit) are carried
//! as `f32` bit patterns, like path coordinates.

use vstd::prelude::*;
use crate::path::finite_bits;

verus! {

/// Bit pattern of `0.1f32`, the default flattening tolerance.
pub const DEFAULT_TOLERANCE_BITS: u32 = 0x3dcc_cccd;

/// Bit pattern of `1.0f32`.
pub const ONE_BITS: u32 = 0x3f80_0000;

/// Bit pattern of `4.0f32`, the default miter limit.
pub const DEFAULT_MITER_LIMIT_BITS: u32 = 0x4080_0000;

/// A bit pattern denoting a positive, finite, nonzero `f32`. For such
/// patterns the unsigned integer order coincides with the float order.
pub open spec fn positive_finite_bits(b: u32) -> bool {
    0 < b < 0x7f80_0000u32
}

/// Options for fill tessellation: the curve flattening tolerance.
#[derive(Clone, Copy, Debug, PartialEq, Eq, Structural)]
pub struct FillOptions {
    /// Flattening tolerance, as an `f32` bit pattern. A non-positive or NaN
    /// tolerance makes fill tessellation fail (it is rejected, not a panic).
    pub tolerance: u32,
}

impl FillOptions {
    /// Options with the default tolerance.
    pub fn new() -> (r: Self)
        ensures
            r.tolerance == DEFAULT_TOLERANCE_BITS,
    {
        FillOptions { tolerance: DEFAULT_TOLERANCE_BITS }
    }
}

/// Shape of a stroke's endpoints.
#[derive(Clone, Copy, Debug, PartialEq, Eq, Structural)]
pub enum CapStyle {
    /// The stroke ends exactly at the endpoint.
    Butt,
    /// The stroke is extended by half the line width, squared off.
    Square,
    /// The stroke is extended by a half circle.
    Round,
}

/// Shape of the joint between two stroked segments.
#[derive(Clone, Copy, Debug, PartialEq, Eq, Structural)]
pub enum JoinStyle {
    /// Sharp corner.
    Miter,
    /// Sharp corner, clipped at the miter limit.
    MiterClip,
    /// Rounded corner.
    Round,
    /// Bevelled corner.
    Bevel,
}

/// Options for stroke tessellation.
#[derive(Clone, Copy, Debug, PartialEq, Eq, Structural)]
pub struct StrokeOptions {
    /// Flattening tolerance, as an `f32` bit pattern.
    pub tolerance: u32,
    /// Width of the stroked ribbon, as an `f32` bit pattern.
    pub line_width: u32,
    /// Cap at a subpath's start.
    pub start_cap: CapStyle,
    /// Cap at a subpath's end.
    pub end_cap: CapStyle,
    /// Joint shape between segments.
    pub line_join: JoinStyle,
    /// Miter limit, as an `f32` bit pattern; must be at least `1.0`.
    pub miter_limit: u32,
}

impl StrokeOptions {
    /// Valid options: positive finite tolerance, finite line width, and a
    /// finite miter limit of at least `1.0`.
    pub open spec fn wf(&self) -> bool {
        positive_finite_bits(self.tolerance) && finite_bits(self.line_width)
            && ONE_BITS <= self.miter_limit < 0x7f80_0000u32
    }

    /// Runtime check matching [`StrokeOptions::wf`].
    pub fn is_valid(&self) -> (r: bool)
        ensures
            r == self.wf(),
    {
        0 < self.tolerance && self.tolerance < 0x7f80_0000u32
            && crate::path::is_finite_bits(self.line_width)
            && ONE_BITS <= self.miter_limit && self.miter_limit < 0x7f80_0000u32
    }

    /// Options with the default tolerance, a line width of `1.0`, butt caps,
    /// miter joins and the default miter limit.
    pub fn new() -> (r: Self)
        ensures
            r.wf(),
            r == (StrokeOptions {
                tolerance: DEFAULT_TOLERANCE_BITS,
                line_width: ONE_BITS,
                start_cap: CapStyle::Butt,
                end_cap: CapStyle::Butt,
                line_join: JoinStyle::Miter,
                miter_limit: DEFAULT_MITER_LIMIT_BITS,
            }),
    {
        StrokeOptions {
            tolerance: DEFAULT_TOLERANCE_BITS,
            line_width: ONE_BITS,
            start_cap: CapStyle::Butt,
            end_cap: CapStyle::Butt,
            line_join: JoinStyle::Miter,
            miter_limit: DEFAULT_MITER_LIMIT_BITS,
        }
    }
}

/// Fill style: fill options plus a packed RGBA color stamped on every vertex.
#[derive(Clone, Copy, Debug, PartialEq, Eq, Structural)]
pub struct FillMode {
    /// Tessellation options.
    pub options: FillOptions,
    /// Packed color value stamped on every emitted vertex.
    pub color: u32,
}

/// Stroke style: stroke options plus a packed RGBA color.
#[derive(Clone, Copy, Debug, PartialEq, Eq, Structural)]
pub struct StrokeMode {
    /// Tessellation options.
    pub options: StrokeOptions,
    /// Packed color value stamped on every emitted vertex.
    pub color: u32,
}

/// How a shape is drawn: filled, stroked, or filled then stroked into one
/// combined mesh.
#[derive(Clone, Copy, Debug, PartialEq, Eq, Structural)]
pub enum DrawMode {
    /// Fill the path's interior.
    Fill(FillMode),
    /// Stroke the path's outline.
    Stroke(StrokeMode),
    /// Fill first, then stroke on top, into the same buffer.
    Outlined {
        /// Style of the interior fill.
        fill_mode: FillMode,
        /// Style of the outline stroke.
        outline_mode: StrokeMode,
    },
}

impl DrawMode {
    /// Any stroke options involved are valid.
    pub open spec fn wf(&self) -> bool {
        match *self {
            DrawMode::Fill(_) => true,
            DrawMode::Stroke(m) => m.options.wf(),
            DrawMode::Outlined { fill_mode: _, outline_mode } => outline_mode.options.wf(),
        }
    }

    /// Runtime check matching [`DrawMode::wf`].
    pub fn is_valid(&self) -> (r: bool)
        ensures
            r == self.wf(),
    {
        match self {
            DrawMode::Fill(_) => true,
            DrawMode::Stroke(m) => m.options.is_valid(),
            DrawMode::Outlined { fill_mode: _, outline_mode } => outline_mode.options.is_valid(),
        }
    }
}

} // verus!
