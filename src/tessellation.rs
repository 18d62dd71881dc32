//! Stroke and fill tessellation through lyon. The path events handed to
//! lyon are recorded in the contracts, so the geometry that comes back is
//! pinned to the path it was built from.
use crate::path::Point;
use lyon::math::point;
use lyon::path::builder::PathBuilder;
use lyon::path::path::Builder;
use lyon::path::Path as LyonPath;
use lyon::path::Winding;
use lyon::tessellation as lt;
use lyon::tessellation::{FillRule as LyonRule, LineCap as LyonCap, LineJoin as LyonJoin};
use lyon::tessellation::{
    BuffersBuilder, FillTessellator, FillVertex, StrokeTessellator, StrokeVertex, VertexBuffers,
};
use vstd::prelude::*;

verus! {

/// Line cap at the two ends of an open stroke.
#[derive(Clone, Copy, Debug, PartialEq, Eq, Structural)]
pub enum LineCap {
    Butt,
    Square,
    Round,
}

/// Line join at the corners of a stroke.
#[derive(Clone, Copy, Debug, PartialEq, Eq, Structural)]
pub enum LineJoin {
    Miter,
    Round,
    Bevel,
}

/// Policy deciding which regions of a self-overlapping polygon are inside.
#[derive(Clone, Copy, Debug, PartialEq, Eq, Structural)]
pub enum FillRule {
    EvenOdd,
    NonZero,
}

/// Stroke parameters; the width is in device units.
#[derive(Clone, Copy, Debug, PartialEq, Eq, Structural)]
pub struct StrokeOptions {
    pub line_width: u32,
    pub line_cap: LineCap,
    pub line_join: LineJoin,
}

/// Fill parameters.
#[derive(Clone, Copy, Debug, PartialEq, Eq, Structural)]
pub struct FillOptions {
    pub fill_rule: FillRule,
}

impl StrokeOptions {
    pub open spec fn with_width_spec(line_width: u32) -> Self {
        StrokeOptions { line_width, line_cap: LineCap::Butt, line_join: LineJoin::Miter }
    }

    /// Butt caps and miter joins at the given width.
    pub fn with_width(line_width: u32) -> (r: Self)
        ensures
            r == Self::with_width_spec(line_width),
    {
        StrokeOptions { line_width, line_cap: LineCap::Butt, line_join: LineJoin::Miter }
    }
}

impl FillOptions {
    pub open spec fn default_spec() -> Self {
        FillOptions { fill_rule: FillRule::EvenOdd }
    }
}

impl Default for FillOptions {
    fn default() -> (r: Self)
        ensures
            r == FillOptions::default_spec(),
    {
        FillOptions { fill_rule: FillRule::EvenOdd }
    }
}

/// One command of the path description handed to the tessellator.
#[derive(Clone, Copy, Debug)]
pub enum PathEvent {
    Begin { at: Point },
    Line { to: Point },
    Quadratic { ctrl: Point, to: Point },
    Cubic { ctrl1: Point, ctrl2: Point, to: Point },
    End { close: bool },
}

/// The events recorded so far by a lyon path builder. The wrappers only
/// hand it coordinates that `f32` holds exactly, so the points it keeps are
/// the events' points.
pub uninterp spec fn builder_events(b: Builder) -> Seq<PathEvent>;

/// The events held by a built lyon path.
pub uninterp spec fn built_events(p: LyonPath) -> Seq<PathEvent>;

/// What lyon's stroke tessellator produces for a path and options: vertex
/// positions (truncated to integers) and a triangle index list, or `None`
/// where it reports an error.
pub uninterp spec fn stroke_tessellation(events: Seq<PathEvent>, options: StrokeOptions) -> Option<(Seq<Point>, Seq<u32>)>;

/// What lyon's fill tessellator produces for a path and options.
pub uninterp spec fn fill_tessellation(events: Seq<PathEvent>, options: FillOptions) -> Option<(Seq<Point>, Seq<u32>)>;

/// `v` converts to `f32` without rounding: lyon stores coordinates as
/// `f32`, which holds every integer up to 2^24 in magnitude exactly.
pub open spec fn f32_exact(v: int) -> bool {
    -0x100_0000 <= v <= 0x100_0000
}

pub open spec fn point_f32_exact(p: Point) -> bool {
    f32_exact(p.0 as int) && f32_exact(p.1 as int)
}

/// What lyon's fill tessellator produces, with default options, for the
/// circle that `add_circle` makes of a center and a radius.
pub uninterp spec fn circle_fill_tessellation(center: Point, radius: u32) -> Option<(Seq<Point>, Seq<u32>)>;

/// What lyon's stroke tessellator produces, at the given width with butt
/// caps and miter joins, for the circle that `add_circle` makes.
pub uninterp spec fn circle_stroke_tessellation(center: Point, radius: u32, width: u32) -> Option<(Seq<Point>, Seq<u32>)>;

/// A sub-path has begun and not ended.
pub open spec fn subpath_open(events: Seq<PathEvent>) -> bool
    decreases events.len(),
{
    if events.len() == 0 {
        false
    } else {
        match events.last() {
            PathEvent::Begin { .. } => true,
            PathEvent::End { .. } => false,
            _ => subpath_open(events.drop_last()),
        }
    }
}

pub open spec fn geometry_view(g: Option<(Vec<Point>, Vec<u32>)>) -> Option<(Seq<Point>, Seq<u32>)> {
    match g {
        Some((v, i)) => Some((v@, i@)),
        None => None,
    }
}

#[verifier::external_type_specification]
#[verifier::external_body]
pub struct ExBuilder(Builder);

#[verifier::external_type_specification]
#[verifier::external_body]
pub struct ExLyonPath(LyonPath);

/// Relies on lyon's `path::Builder::new`: an empty builder.
#[verifier::external_body]
pub(crate) fn lyon_builder() -> (r: Builder)
    ensures
        builder_events(r) == Seq::<PathEvent>::empty(),
{
    Builder::new()
}

/// Relies on lyon's `path::Builder::begin`, which panics in debug builds
/// inside an open sub-path.
#[verifier::external_body]
pub(crate) fn lyon_begin(b: &mut Builder, at: Point)
    requires
        point_f32_exact(at),
        !subpath_open(builder_events(*old(b))),
    ensures
        builder_events(*final(b)) == builder_events(*old(b)).push(PathEvent::Begin { at }),
{
    b.begin(point(at.0 as _, at.1 as _));
}

/// Relies on lyon's `path::Builder::line_to`, which panics in debug builds
/// outside a sub-path.
#[verifier::external_body]
pub(crate) fn lyon_line_to(b: &mut Builder, to: Point)
    requires
        point_f32_exact(to),
        subpath_open(builder_events(*old(b))),
    ensures
        builder_events(*final(b)) == builder_events(*old(b)).push(PathEvent::Line { to }),
{
    b.line_to(point(to.0 as _, to.1 as _));
}

/// Relies on lyon's `path::Builder::quadratic_bezier_to`, which panics in
/// debug builds outside a sub-path.
#[verifier::external_body]
pub(crate) fn lyon_quadratic_to(b: &mut Builder, ctrl: Point, to: Point)
    requires
        point_f32_exact(ctrl),
        point_f32_exact(to),
        subpath_open(builder_events(*old(b))),
    ensures
        builder_events(*final(b)) == builder_events(*old(b)).push(PathEvent::Quadratic { ctrl, to }),
{
    b.quadratic_bezier_to(point(ctrl.0 as _, ctrl.1 as _), point(to.0 as _, to.1 as _));
}

/// Relies on lyon's `path::Builder::cubic_bezier_to`, which panics in debug
/// builds outside a sub-path.
#[verifier::external_body]
pub(crate) fn lyon_cubic_to(b: &mut Builder, ctrl1: Point, ctrl2: Point, to: Point)
    requires
        point_f32_exact(ctrl1),
        point_f32_exact(ctrl2),
        point_f32_exact(to),
        subpath_open(builder_events(*old(b))),
    ensures
        builder_events(*final(b)) == builder_events(*old(b)).push(PathEvent::Cubic { ctrl1, ctrl2, to }),
{
    b.cubic_bezier_to(
        point(ctrl1.0 as _, ctrl1.1 as _),
        point(ctrl2.0 as _, ctrl2.1 as _),
        point(to.0 as _, to.1 as _),
    );
}

/// Relies on lyon's `path::Builder::end`, which panics in debug builds
/// outside a sub-path.
#[verifier::external_body]
pub(crate) fn lyon_end(b: &mut Builder, close: bool)
    requires
        subpath_open(builder_events(*old(b))),
    ensures
        builder_events(*final(b)) == builder_events(*old(b)).push(PathEvent::End { close }),
{
    b.end(close);
}

/// Relies on lyon's `PathBuilder::add_circle` (positive winding) on a new
/// builder, then `path::Builder::build` and `FillTessellator::tessellate_path`
/// with default options: the result depends on the center and radius alone.
/// lyon reports tessellation failures as `Err`, returned here as `None`;
/// its remaining asserts and `unwrap`s check its own internal invariants
/// and state no condition on the path or the options.
#[verifier::external_body]
pub(crate) fn lyon_circle_fill(center: Point, radius: u32) -> (r: Option<(Vec<Point>, Vec<u32>)>)
    requires
        point_f32_exact(center),
        f32_exact(radius as int),
    ensures
        geometry_view(r) == circle_fill_tessellation(center, radius),
{
    let mut b = Builder::new();
    b.add_circle(point(center.0 as _, center.1 as _), radius as _, Winding::Positive);
    let mut g = VertexBuffers::new();
    let mut out = BuffersBuilder::new(&mut g, |v: FillVertex| (v.position().x as i32, v.position().y as i32));
    let opts = lt::FillOptions::DEFAULT;
    FillTessellator::new().tessellate_path(&b.build(), &opts, &mut out).ok()?;
    Some((g.vertices, g.indices))
}

/// Relies on lyon's `PathBuilder::add_circle` (positive winding) on a new
/// builder, then `path::Builder::build` and `StrokeTessellator::tessellate_path`
/// with the given width and otherwise default options: the result depends
/// on the center, radius and width alone.
/// lyon reports tessellation failures as `Err`, returned here as `None`;
/// its remaining asserts and `unwrap`s check its own internal invariants
/// and state no condition on the path or the options.
#[verifier::external_body]
pub(crate) fn lyon_circle_stroke(center: Point, radius: u32, width: u32) -> (r: Option<(Vec<Point>, Vec<u32>)>)
    requires
        point_f32_exact(center),
        f32_exact(radius as int),
    ensures
        geometry_view(r) == circle_stroke_tessellation(center, radius, width),
{
    let mut b = Builder::new();
    b.add_circle(point(center.0 as _, center.1 as _), radius as _, Winding::Positive);
    let mut g = VertexBuffers::new();
    let mut out = BuffersBuilder::new(&mut g, |v: StrokeVertex| (v.position().x as i32, v.position().y as i32));
    let opts = lt::StrokeOptions::DEFAULT.with_line_width(width as _);
    StrokeTessellator::new().tessellate_path(&b.build(), &opts, &mut out).ok()?;
    Some((g.vertices, g.indices))
}

/// Relies on lyon's `path::Builder::build`, which keeps the recorded
/// events and panics in debug builds inside an open sub-path.
#[verifier::external_body]
pub(crate) fn lyon_build(b: Builder) -> (r: LyonPath)
    requires
        !subpath_open(builder_events(b)),
    ensures
        built_events(r) == builder_events(b),
{
    b.build()
}

/// Relies on lyon's `StrokeTessellator::tessellate_path`: the result depends
/// on the path and the options alone. Positions are truncated to integers.
/// lyon reports tessellation failures as `Err`, returned here as `None`;
/// its remaining asserts and `unwrap`s check its own internal invariants
/// and state no condition on the path or the options.
#[verifier::external_body]
pub(crate) fn lyon_stroke(path: &LyonPath, options: StrokeOptions) -> (r: Option<(Vec<Point>, Vec<u32>)>)
    ensures
        geometry_view(r) == stroke_tessellation(built_events(*path), options),
{
    let cap = match options.line_cap {
        LineCap::Butt => LyonCap::Butt,
        LineCap::Square => LyonCap::Square,
        LineCap::Round => LyonCap::Round,
    };
    let join = match options.line_join {
        LineJoin::Miter => LyonJoin::Miter,
        LineJoin::Round => LyonJoin::Round,
        LineJoin::Bevel => LyonJoin::Bevel,
    };
    let opts = lt::StrokeOptions::DEFAULT.with_line_width(options.line_width as _).with_line_cap(cap).with_line_join(join);
    let mut g = VertexBuffers::new();
    let mut out = BuffersBuilder::new(&mut g, |v: StrokeVertex| (v.position().x as i32, v.position().y as i32));
    StrokeTessellator::new().tessellate_path(path, &opts, &mut out).ok()?;
    Some((g.vertices, g.indices))
}

/// Relies on lyon's `FillTessellator::tessellate_path`: the result depends
/// on the path and the options alone. Positions are truncated to integers.
/// lyon reports tessellation failures as `Err`, returned here as `None`;
/// its remaining asserts and `unwrap`s check its own internal invariants
/// and state no condition on the path or the options.
#[verifier::external_body]
pub(crate) fn lyon_fill(path: &LyonPath, options: FillOptions) -> (r: Option<(Vec<Point>, Vec<u32>)>)
    ensures
        geometry_view(r) == fill_tessellation(built_events(*path), options),
{
    let rule = match options.fill_rule {
        FillRule::EvenOdd => LyonRule::EvenOdd,
        FillRule::NonZero => LyonRule::NonZero,
    };
    let opts = lt::FillOptions::DEFAULT.with_fill_rule(rule);
    let mut g = VertexBuffers::new();
    let mut out = BuffersBuilder::new(&mut g, |v: FillVertex| (v.position().x as i32, v.position().y as i32));
    FillTessellator::new().tessellate_path(path, &opts, &mut out).ok()?;
    Some((g.vertices, g.indices))
}

} // verus!
