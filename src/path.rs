//! Path segments and the path builder state machine.
use crate::tessellation::{
    builder_events, fill_tessellation, lyon_begin, lyon_build, lyon_builder, lyon_cubic_to, lyon_end,
    lyon_fill, lyon_line_to, lyon_quadratic_to, lyon_stroke, point_f32_exact, stroke_tessellation,
    subpath_open, FillOptions, PathEvent, StrokeOptions,
};
use lyon::path::path::Builder;
use vstd::prelude::*;

verus! {

/// A point in integer device units.
pub type Point = (i32, i32);

/// One segment of a path. `from` is always the end point of the previous
/// segment, or the start point for the first one.
#[derive(Clone, Copy, Debug)]
pub enum PathLine {
    Straight { from: Point, to: Point },
    Quadratic { from: Point, to: Point, ctrl: Point },
    Cubic { from: Point, to: Point, ctrl1: Point, ctrl2: Point },
}

impl PathLine {
    pub open spec fn from_point(self) -> Point {
        match self {
            PathLine::Straight { from, .. } => from,
            PathLine::Quadratic { from, .. } => from,
            PathLine::Cubic { from, .. } => from,
        }
    }

    pub open spec fn to_point(self) -> Point {
        match self {
            PathLine::Straight { to, .. } => to,
            PathLine::Quadratic { to, .. } => to,
            PathLine::Cubic { to, .. } => to,
        }
    }
}

/// Abstract state of a path builder.
pub struct PathModel {
    /// `begin` has been called.
    pub started: bool,
    /// `end` has been called.
    pub finished: bool,
    /// The path was ended with its closing edge.
    pub closed: bool,
    pub start: Point,
    pub last: Point,
    pub lines: Seq<PathLine>,
}

/// The segments form one connected chain that starts at `start`.
pub open spec fn connected(start: Point, lines: Seq<PathLine>) -> bool {
    &&& lines.len() > 0 ==> lines[0].from_point() == start
    &&& forall|i: int| 0 < i < lines.len() ==> #[trigger] lines[i].from_point() == lines[i - 1].to_point()
}

/// End point of a chain of segments that starts at `start`.
pub open spec fn chain_end(start: Point, lines: Seq<PathLine>) -> Point {
    if lines.len() == 0 { start } else { lines.last().to_point() }
}

/// Accumulates the segments of a path: `begin`, then segments, then `end`.
#[derive(Debug)]
pub struct PathBuilder {
    lines: Vec<PathLine>,
    initialized: bool,
    finished: bool,
    closed: bool,
    first_point: Point,
    last_point: Point,
}

impl View for PathBuilder {
    type V = PathModel;

    closed spec fn view(&self) -> PathModel {
        PathModel {
            started: self.initialized,
            finished: self.finished,
            closed: self.closed,
            start: self.first_point,
            last: self.last_point,
            lines: self.lines@,
        }
    }
}

impl PathBuilder {
    /// The builder's invariant: the segments are connected, the last point is
    /// the end of the chain, and segments only exist once the path has begun.
    pub open spec fn wf(&self) -> bool {
        &&& connected(self@.start, self@.lines)
        &&& self@.last == chain_end(self@.start, self@.lines)
        &&& !self@.started ==> self@.lines.len() == 0 && !self@.finished
        &&& !self@.finished ==> !self@.closed
    }

    /// Ready for segments: begun and not yet ended.
    pub open spec fn is_open(&self) -> bool {
        self@.started && !self@.finished
    }

    /// Ended with at least one segment: ready to be stroked or filled.
    pub open spec fn is_complete(&self) -> bool {
        self@.finished && self@.lines.len() > 0
    }

    pub fn new() -> (r: Self)
        ensures
            r.wf(),
            !r@.started,
            !r@.finished,
            !r@.closed,
            r@.lines.len() == 0,
    {
        PathBuilder {
            initialized: false,
            finished: false,
            lines: Vec::new(),
            closed: false,
            last_point: (0, 0),
            first_point: (0, 0),
        }
    }

    /// Sets the start point.
    pub fn begin(&mut self, x: i32, y: i32)
        requires
            old(self).wf(),
            !old(self)@.started,
        ensures
            final(self).wf(),
            final(self).is_open(),
            final(self)@.start == (x, y),
            final(self)@.last == (x, y),
            final(self)@.lines.len() == 0,
            !final(self)@.closed,
    {
        self.initialized = true;
        self.first_point = (x, y);
        self.last_point = (x, y);
    }

    /// Finishes the path; with `close` the tessellator adds the edge from the
    /// last point back to the start.
    pub fn end(&mut self, close: bool)
        requires
            old(self).wf(),
            old(self).is_open(),
        ensures
            final(self).wf(),
            final(self)@ == (PathModel { finished: true, closed: close, ..old(self)@ }),
    {
        self.finished = true;
        self.closed = close;
    }

    fn push_line(&mut self, line: PathLine)
        requires
            old(self).wf(),
            old(self).is_open(),
            line.from_point() == old(self)@.last,
        ensures
            final(self).wf(),
            final(self)@ == (PathModel {
                lines: old(self)@.lines.push(line),
                last: line.to_point(),
                ..old(self)@
            }),
    {
        let to = match line {
            PathLine::Straight { to, .. } => to,
            PathLine::Quadratic { to, .. } => to,
            PathLine::Cubic { to, .. } => to,
        };
        self.lines.push(line);
        self.last_point = to;
        proof {
            let s = self@.lines;
            assert forall|i: int| 0 < i < s.len() implies #[trigger] s[i].from_point() == s[i - 1].to_point() by {
                if i < s.len() - 1 {
                    assert(s[i] == old(self)@.lines[i]);
                }
            }
        }
    }

    /// Appends a straight segment from the last point to `(x, y)`.
    pub fn line_to(&mut self, x: i32, y: i32)
        requires
            old(self).wf(),
            old(self).is_open(),
        ensures
            final(self).wf(),
            final(self)@ == (PathModel {
                lines: old(self)@.lines.push(PathLine::Straight { from: old(self)@.last, to: (x, y) }),
                last: (x, y),
                ..old(self)@
            }),
    {
        let from = self.last_point;
        self.push_line(PathLine::Straight { from, to: (x, y) });
    }

    /// Appends a quadratic curve from the last point to `to`.
    pub fn quadratic_bezier_to(&mut self, ctrl: Point, to: Point)
        requires
            old(self).wf(),
            old(self).is_open(),
        ensures
            final(self).wf(),
            final(self)@ == (PathModel {
                lines: old(self)@.lines.push(PathLine::Quadratic { from: old(self)@.last, to, ctrl }),
                last: to,
                ..old(self)@
            }),
    {
        let from = self.last_point;
        self.push_line(PathLine::Quadratic { from, to, ctrl });
    }

    /// Appends a cubic curve from the last point to `to`.
    pub fn cubic_bezier_to(&mut self, ctrl1: Point, ctrl2: Point, to: Point)
        requires
            old(self).wf(),
            old(self).is_open(),
        ensures
            final(self).wf(),
            final(self)@ == (PathModel {
                lines: old(self)@.lines.push(PathLine::Cubic { from: old(self)@.last, to, ctrl1, ctrl2 }),
                last: to,
                ..old(self)@
            }),
    {
        let from = self.last_point;
        self.push_line(PathLine::Cubic { from, to, ctrl1, ctrl2 });
    }
}

/// The tessellator's command for one segment.
pub open spec fn line_event(l: PathLine) -> PathEvent {
    match l {
        PathLine::Straight { to, .. } => PathEvent::Line { to },
        PathLine::Quadratic { ctrl, to, .. } => PathEvent::Quadratic { ctrl, to },
        PathLine::Cubic { ctrl1, ctrl2, to, .. } => PathEvent::Cubic { ctrl1, ctrl2, to },
    }
}

/// The whole description of a finished path: begin at the start point, one
/// command per segment, then end (with the closing edge when closed).
pub open spec fn path_events(m: PathModel) -> Seq<PathEvent> {
    seq![PathEvent::Begin { at: m.start }] + m.lines.map_values(|l: PathLine| line_event(l))
        + seq![PathEvent::End { close: m.closed }]
}

/// Every index refers to a vertex, and the indices form whole triangles.
pub open spec fn valid_mesh(vertices: Seq<Point>, indices: Seq<u32>) -> bool {
    &&& indices.len() % 3 == 0
    &&& forall|k: int| 0 <= k < indices.len() ==> (#[trigger] indices[k] as int) < vertices.len()
}

/// Tessellator output as a path keeps it: valid meshes are kept as they are,
/// failures and invalid meshes become empty geometry.
pub open spec fn mesh_or_empty(g: Option<(Seq<Point>, Seq<u32>)>) -> (Seq<Point>, Seq<u32>) {
    match g {
        Some((v, i)) => if valid_mesh(v, i) { (v, i) } else { (Seq::empty(), Seq::empty()) },
        None => (Seq::empty(), Seq::empty()),
    }
}

/// The points that a segment adds after its start: control points, then
/// the end point.
pub open spec fn line_points(l: PathLine) -> Seq<Point> {
    match l {
        PathLine::Straight { to, .. } => seq![to],
        PathLine::Quadratic { ctrl, to, .. } => seq![ctrl, to],
        PathLine::Cubic { ctrl1, ctrl2, to, .. } => seq![ctrl1, ctrl2, to],
    }
}

/// The points of a chain of segments after its start, in order.
pub open spec fn points_of(lines: Seq<PathLine>) -> Seq<Point>
    decreases lines.len(),
{
    if lines.len() == 0 {
        Seq::empty()
    } else {
        points_of(lines.drop_last()) + line_points(lines.last())
    }
}

/// Every coordinate of the path, start point included, converts to `f32`
/// exactly (the tessellator works in `f32`).
pub open spec fn model_f32_exact(m: PathModel) -> bool {
    &&& point_f32_exact(m.start)
    &&& forall|i: int, j: int|
        0 <= i < m.lines.len() && 0 <= j < line_points(m.lines[i]).len()
            ==> point_f32_exact(#[trigger] line_points(m.lines[i])[j])
}

/// Twice the signed area of the triangle `a`, `b`, `c`.
pub open spec fn cross(a: Point, b: Point, c: Point) -> int {
    (b.0 - a.0) * (c.1 - a.1) - (b.1 - a.1) * (c.0 - a.0)
}

/// The first of `pts` that differs from `a`, or `a` when there is none.
pub open spec fn first_off(a: Point, pts: Seq<Point>) -> Point
    decreases pts.len(),
{
    if pts.len() == 0 {
        a
    } else if pts[0] != a {
        pts[0]
    } else {
        first_off(a, pts.drop_first())
    }
}

/// Every segment has zero length: all points of the path are its start.
pub open spec fn zero_length(m: PathModel) -> bool {
    forall|i: int| 0 <= i < points_of(m.lines).len() ==> #[trigger] points_of(m.lines)[i] == m.start
}

/// The path encloses no area: all its points lie on one line, the line
/// through the start and the first point that differs from it.
pub open spec fn zero_area(m: PathModel) -> bool {
    forall|i: int|
        0 <= i < points_of(m.lines).len()
            ==> cross(m.start, first_off(m.start, points_of(m.lines)), #[trigger] points_of(m.lines)[i]) == 0
}

/// Stroke geometry of a finished path; a zero width, or a path whose
/// segments all have zero length, is invisible.
pub open spec fn stroke_geometry(m: PathModel, options: StrokeOptions) -> (Seq<Point>, Seq<u32>) {
    if options.line_width == 0 || zero_length(m) {
        (Seq::empty(), Seq::empty())
    } else {
        mesh_or_empty(stroke_tessellation(path_events(m), options))
    }
}

/// Fill geometry of a finished path; a path that encloses no area is
/// invisible.
pub open spec fn fill_geometry(m: PathModel, options: FillOptions) -> (Seq<Point>, Seq<u32>) {
    if zero_area(m) {
        (Seq::empty(), Seq::empty())
    } else {
        mesh_or_empty(fill_tessellation(path_events(m), options))
    }
}

/// A tessellated path: triangle-list geometry and the segments it came from.
#[derive(Debug)]
pub struct Path {
    pub vertices: Vec<Point>,
    pub indices: Vec<u32>,
    pub lines: Vec<PathLine>,
    /// The path was ended with its closing edge.
    pub closed: bool,
}

impl Path {
    pub open spec fn wf(&self) -> bool {
        valid_mesh(self.vertices@, self.indices@)
    }

    pub fn builder() -> (r: PathBuilder)
        ensures
            r.wf(),
            !r@.started,
            !r@.finished,
            !r@.closed,
            r@.lines.len() == 0,
    {
        PathBuilder::new()
    }

    pub fn lines(&self) -> (r: &[PathLine])
        ensures
            r@ == self.lines@,
    {
        self.lines.as_slice()
    }

    /// Builds a path from what a tessellator returned: the geometry is kept
    /// when it is a valid triangle list and dropped otherwise.
    pub fn from_geometry(lines: Vec<PathLine>, closed: bool, geometry: Option<(Vec<Point>, Vec<u32>)>) -> (r: Path)
        ensures
            r.wf(),
            r.lines@ == lines@,
            r.closed == closed,
            (r.vertices@, r.indices@) == mesh_or_empty(crate::tessellation::geometry_view(geometry)),
    {
        match geometry {
            Some((vertices, indices)) => {
                if is_valid_mesh(&vertices, &indices) {
                    Path { vertices, indices, lines, closed }
                } else {
                    Path { vertices: Vec::new(), indices: Vec::new(), lines, closed }
                }
            },
            None => Path { vertices: Vec::new(), indices: Vec::new(), lines, closed },
        }
    }
}

/// Tests `valid_mesh`.
pub fn is_valid_mesh(vertices: &Vec<Point>, indices: &Vec<u32>) -> (r: bool)
    ensures
        r == valid_mesh(vertices@, indices@),
{
    if indices.len() % 3 != 0 {
        return false;
    }
    let mut k: usize = 0;
    while k < indices.len()
        invariant
            k <= indices.len(),
            forall|j: int| 0 <= j < k ==> (#[trigger] indices@[j] as int) < vertices@.len(),
        decreases indices.len() - k,
    {
        if indices[k] as usize >= vertices.len() {
            return false;
        }
        k = k + 1;
    }
    true
}

proof fn lemma_edge_keeps_open(s: Seq<PathEvent>, e: PathEvent)
    requires
        subpath_open(s),
        !(e is Begin),
        !(e is End),
    ensures
        subpath_open(s.push(e)),
{
    assert(s.push(e).drop_last() =~= s);
}

/// Whatever the tessellator returns, the geometry of a stroked or filled
/// path is a triangle list whose every index refers to one of its vertices.
pub proof fn lemma_tessellated_meshes_are_valid(m: PathModel, so: StrokeOptions, fo: FillOptions)
    ensures
        valid_mesh(stroke_geometry(m, so).0, stroke_geometry(m, so).1),
        valid_mesh(fill_geometry(m, fo).0, fill_geometry(m, fo).1),
{
}

/// Closing a path or leaving it open hands the tessellator the same
/// commands but for the last one, which says whether to add the closing
/// edge: the geometries can differ by that edge alone.
pub proof fn lemma_close_changes_only_the_closing_edge(m: PathModel)
    ensures
        path_events(PathModel { closed: true, ..m }).len() == path_events(PathModel { closed: false, ..m }).len(),
        path_events(PathModel { closed: true, ..m }).drop_last()
            == path_events(PathModel { closed: false, ..m }).drop_last(),
        path_events(PathModel { closed: true, ..m }).last() == (PathEvent::End { close: true }),
        path_events(PathModel { closed: false, ..m }).last() == (PathEvent::End { close: false }),
{
    let c = PathModel { closed: true, ..m };
    let o = PathModel { closed: false, ..m };
    assert(path_events(c).drop_last() =~= path_events(o).drop_last());
}

proof fn lemma_mul_bound(x: int, y: int)
    requires
        -0x1_0000_0000 <= x <= 0x1_0000_0000,
        -0x1_0000_0000 <= y <= 0x1_0000_0000,
    ensures
        -0x1_0000_0000_0000_0000 <= x * y <= 0x1_0000_0000_0000_0000,
{
    assert(-0x1_0000_0000_0000_0000 <= x * y <= 0x1_0000_0000_0000_0000) by (nonlinear_arith)
        requires
            -0x1_0000_0000 <= x <= 0x1_0000_0000,
            -0x1_0000_0000 <= y <= 0x1_0000_0000,
    ;
}

/// Computes `cross` without overflow.
fn cross_exec(a: Point, b: Point, c: Point) -> (r: i128)
    ensures
        r as int == cross(a, b, c),
{
    let (bx, by) = (b.0 as i128 - a.0 as i128, b.1 as i128 - a.1 as i128);
    let (cx, cy) = (c.0 as i128 - a.0 as i128, c.1 as i128 - a.1 as i128);
    proof {
        lemma_mul_bound(bx as int, cy as int);
        lemma_mul_bound(by as int, cx as int);
    }
    bx * cy - by * cx
}

fn same_point(p: Point, q: Point) -> (r: bool)
    ensures
        r == (p == q),
{
    p.0 == q.0 && p.1 == q.1
}

/// Computes `first_off`.
fn first_off_exec(a: Point, pts: &Vec<Point>) -> (r: Point)
    ensures
        r == first_off(a, pts@),
{
    let mut k: usize = 0;
    assert(pts@.subrange(0, pts@.len() as int) =~= pts@);
    while k < pts.len()
        invariant
            k <= pts@.len(),
            first_off(a, pts@) == first_off(a, pts@.subrange(k as int, pts@.len() as int)),
        decreases pts@.len() - k,
    {
        let ghost rest = pts@.subrange(k as int, pts@.len() as int);
        if !same_point(pts[k], a) {
            assert(rest[0] == pts@[k as int]);
            return pts[k];
        }
        assert(rest.drop_first() =~= pts@.subrange(k + 1, pts@.len() as int));
        k = k + 1;
    }
    assert(pts@.subrange(k as int, pts@.len() as int) =~= Seq::<Point>::empty());
    a
}

impl PathBuilder {
    /// The points of the segments, in order.
    fn points(&self) -> (r: Vec<Point>)
        requires
            self.wf(),
        ensures
            r@ == points_of(self@.lines),
    {
        let mut out: Vec<Point> = Vec::new();
        let mut i: usize = 0;
        while i < self.lines.len()
            invariant
                i <= self@.lines.len(),
                out@ == points_of(self@.lines.take(i as int)),
            decreases self@.lines.len() - i,
        {
            let ghost before = out@;
            match self.lines[i] {
                PathLine::Straight { to, .. } => {
                    out.push(to);
                },
                PathLine::Quadratic { ctrl, to, .. } => {
                    out.push(ctrl);
                    out.push(to);
                },
                PathLine::Cubic { ctrl1, ctrl2, to, .. } => {
                    out.push(ctrl1);
                    out.push(ctrl2);
                    out.push(to);
                },
            }
            proof {
                let t = self@.lines.take(i + 1);
                assert(t.drop_last() =~= self@.lines.take(i as int));
                assert(t.last() == self@.lines[i as int]);
                assert(out@ =~= before + line_points(self@.lines[i as int]));
            }
            i = i + 1;
        }
        assert(self@.lines.take(i as int) =~= self@.lines);
        out
    }

    /// Tests `zero_length`.
    fn has_zero_length(&self) -> (r: bool)
        requires
            self.wf(),
        ensures
            r == zero_length(self@),
    {
        let pts = self.points();
        let mut i: usize = 0;
        while i < pts.len()
            invariant
                i <= pts@.len(),
                pts@ == points_of(self@.lines),
                forall|j: int| 0 <= j < i ==> #[trigger] pts@[j] == self@.start,
            decreases pts@.len() - i,
        {
            if !same_point(pts[i], self.first_point) {
                return false;
            }
            i = i + 1;
        }
        true
    }

    /// Tests `zero_area`.
    fn has_zero_area(&self) -> (r: bool)
        requires
            self.wf(),
        ensures
            r == zero_area(self@),
    {
        let pts = self.points();
        let a = self.first_point;
        let b = first_off_exec(a, &pts);
        let mut i: usize = 0;
        while i < pts.len()
            invariant
                i <= pts@.len(),
                pts@ == points_of(self@.lines),
                a == self@.start,
                b == first_off(a, pts@),
                forall|j: int| 0 <= j < i ==> cross(a, b, #[trigger] pts@[j]) == 0,
            decreases pts@.len() - i,
        {
            if cross_exec(a, b, pts[i]) != 0 {
                return false;
            }
            i = i + 1;
        }
        true
    }

    /// Hands the finished path to a lyon builder, one command per event.
    fn to_lyon(&self) -> (b: Builder)
        requires
            self.wf(),
            self@.finished,
            model_f32_exact(self@),
        ensures
            builder_events(b) == path_events(self@),
    {
        let mut b = lyon_builder();
        lyon_begin(&mut b, self.first_point);
        let ghost head = seq![PathEvent::Begin { at: self@.start }];
        let ghost mapped = self@.lines.map_values(|l: PathLine| line_event(l));
        assert(head.drop_last() =~= Seq::<PathEvent>::empty());
        let mut i: usize = 0;
        while i < self.lines.len()
            invariant
                i <= self.lines@.len(),
                mapped == self@.lines.map_values(|l: PathLine| line_event(l)),
                builder_events(b) == head + mapped.take(i as int),
                model_f32_exact(self@),
                subpath_open(builder_events(b)),
            decreases self.lines@.len() - i,
        {
            let ghost before = builder_events(b);
            proof {
                let lp = line_points(self@.lines[i as int]);
                assert(forall|j: int| 0 <= j < lp.len() ==> point_f32_exact(#[trigger] lp[j]));
                if lp.len() >= 1 {
                    assert(point_f32_exact(lp[0]));
                }
                if lp.len() >= 2 {
                    assert(point_f32_exact(lp[1]));
                }
                if lp.len() >= 3 {
                    assert(point_f32_exact(lp[2]));
                }
            }
            match self.lines[i] {
                PathLine::Straight { to, .. } => lyon_line_to(&mut b, to),
                PathLine::Quadratic { ctrl, to, .. } => lyon_quadratic_to(&mut b, ctrl, to),
                PathLine::Cubic { ctrl1, ctrl2, to, .. } => lyon_cubic_to(&mut b, ctrl1, ctrl2, to),
            }
            proof {
                lemma_edge_keeps_open(before, mapped[i as int]);
                assert(mapped.take(i + 1) =~= mapped.take(i as int).push(mapped[i as int]));
            }
            i = i + 1;
        }
        assert(mapped.take(i as int) =~= mapped);
        lyon_end(&mut b, self.closed);
        b
    }

    /// Strokes the finished path with the given width, butt caps and miter
    /// joins.
    pub fn stroke(self, line_width: u32) -> (r: Path)
        requires
            self.wf(),
            self.is_complete(),
            model_f32_exact(self@),
        ensures
            r.wf(),
            r.lines@ == self@.lines,
            r.closed == self@.closed,
            (r.vertices@, r.indices@) == stroke_geometry(self@, StrokeOptions::with_width_spec(line_width)),
    {
        self.stroke_with_options(StrokeOptions::with_width(line_width))
    }

    /// Expands the finished path into a ribbon of triangles.
    pub fn stroke_with_options(self, options: StrokeOptions) -> (r: Path)
        requires
            self.wf(),
            self.is_complete(),
            model_f32_exact(self@),
        ensures
            r.wf(),
            r.lines@ == self@.lines,
            r.closed == self@.closed,
            (r.vertices@, r.indices@) == stroke_geometry(self@, options),
    {
        if options.line_width == 0 || self.has_zero_length() {
            return Path { vertices: Vec::new(), indices: Vec::new(), lines: self.lines, closed: self.closed };
        }
        let path = lyon_build(self.to_lyon());
        let geometry = lyon_stroke(&path, options);
        Path::from_geometry(self.lines, self.closed, geometry)
    }

    /// Fills the finished path with the even-odd rule.
    pub fn fill(self) -> (r: Path)
        requires
            self.wf(),
            self.is_complete(),
            model_f32_exact(self@),
        ensures
            r.wf(),
            r.lines@ == self@.lines,
            r.closed == self@.closed,
            (r.vertices@, r.indices@) == fill_geometry(self@, FillOptions::default_spec()),
    {
        self.fill_with_options(FillOptions::default())
    }

    /// Triangulates the polygon that the finished path encloses.
    pub fn fill_with_options(self, options: FillOptions) -> (r: Path)
        requires
            self.wf(),
            self.is_complete(),
            model_f32_exact(self@),
        ensures
            r.wf(),
            r.lines@ == self@.lines,
            r.closed == self@.closed,
            (r.vertices@, r.indices@) == fill_geometry(self@, options),
    {
        if self.has_zero_area() {
            return Path { vertices: Vec::new(), indices: Vec::new(), lines: self.lines, closed: self.closed };
        }
        let path = lyon_build(self.to_lyon());
        let geometry = lyon_fill(&path, options);
        Path::from_geometry(self.lines, self.closed, geometry)
    }
}

} // verus!
