//! The immediate-mode draw state machine: a frame is `begin`, primitive
//! calls, `end`. Each primitive is tessellated, mapped by the transform in
//! effect, painted with the current color times the global alpha, and
//! appended to the frame's batches in call order.
use crate::path::{
    fill_geometry, is_valid_mesh, line_points, mesh_or_empty, model_f32_exact, stroke_geometry, valid_mesh,
    Path, PathBuilder, PathLine, PathModel, Point,
};
use crate::tessellation::{
    circle_fill_tessellation, circle_stroke_tessellation, f32_exact, lyon_circle_fill, lyon_circle_stroke,
    point_f32_exact, FillOptions, StrokeOptions,
};
use crate::transform::{
    apply, compose, dot, fits, fits_i32, in_i32, maps_in_range, scaling, translation, Affine, Matrix,
    TransformStack,
};
use vstd::prelude::*;

verus! {

/// RGBA color, 8 bits per channel; 255 is full intensity or opaque.
#[derive(Clone, Copy, Debug, PartialEq, Eq, Structural)]
pub struct Color {
    pub r: u8,
    pub g: u8,
    pub b: u8,
    pub a: u8,
}

/// `c` with its alpha multiplied by `alpha / 255`, rounded down.
pub open spec fn paint(c: Color, alpha: u8) -> Color {
    Color { a: ((c.a as int) * (alpha as int) / 255) as u8, ..c }
}

impl Color {
    pub fn new(r: u8, g: u8, b: u8, a: u8) -> (c: Color)
        ensures
            c == (Color { r, g, b, a }),
    {
        Color { r, g, b, a }
    }

    /// The same color with another alpha.
    pub fn with_alpha(&self, a: u8) -> (c: Color)
        ensures
            c == (Color { a, ..*self }),
    {
        Color { a, ..*self }
    }

    /// The color as painted under a global alpha.
    pub fn paint(&self, alpha: u8) -> (c: Color)
        ensures
            c == paint(*self, alpha),
    {
        let (x, y) = (self.a as u32, alpha as u32);
        assert(x * y <= 255 * 255) by (nonlinear_arith)
            requires
                x <= 255,
                y <= 255,
        ;
        Color { a: (x * y / 255) as u8, ..*self }
    }
}

/// The point `p` mapped by `m`, where it fits.
pub open spec fn map_point(m: Affine, p: Point) -> Point {
    (apply(m, p.0 as int, p.1 as int).0 as i32, apply(m, p.0 as int, p.1 as int).1 as i32)
}

pub open spec fn all_in_range(m: Affine, s: Seq<Point>) -> bool {
    forall|i: int| 0 <= i < s.len() ==> maps_in_range(m, #[trigger] s[i])
}

pub open spec fn map_points(m: Affine, s: Seq<Point>) -> Seq<Point> {
    s.map_values(|p: Point| map_point(m, p))
}

/// The GPU pipeline that a batch needs.
#[derive(Clone, Copy, Debug, PartialEq, Eq, Structural)]
pub enum Pipeline {
    /// Solid color.
    Color,
    /// Sampling the texture with the given backend handle.
    Image { texture: u32 },
}

/// A loaded texture: its backend handle and its size in texels.
#[derive(Clone, Copy, Debug, PartialEq, Eq, Structural)]
pub struct Texture {
    pub id: u32,
    pub width: i32,
    pub height: i32,
}

/// Geometry ready for the backend: the pipeline it needs, mapped vertices,
/// texture coordinates in texels (one per vertex, for images only), a
/// triangle list over the vertices, and the color to paint or tint with.
#[derive(Debug)]
pub struct Batch {
    pub pipeline: Pipeline,
    pub vertices: Vec<Point>,
    pub texcoords: Vec<Point>,
    pub indices: Vec<u32>,
    pub color: Color,
}

pub struct BatchView {
    pub pipeline: Pipeline,
    pub vertices: Seq<Point>,
    pub texcoords: Seq<Point>,
    pub indices: Seq<u32>,
    pub color: Color,
}

impl View for Batch {
    type V = BatchView;

    open spec fn view(&self) -> BatchView {
        BatchView {
            pipeline: self.pipeline,
            vertices: self.vertices@,
            texcoords: self.texcoords@,
            indices: self.indices@,
            color: self.color,
        }
    }
}

/// The solid-color batch that a primitive with the given geometry yields
/// under transform `m`, color `c` and global alpha `alpha`.
pub open spec fn batch_of(m: Affine, c: Color, alpha: u8, vertices: Seq<Point>, indices: Seq<u32>) -> BatchView {
    BatchView {
        pipeline: Pipeline::Color,
        vertices: map_points(m, vertices),
        texcoords: Seq::empty(),
        indices,
        color: paint(c, alpha),
    }
}

/// The textured batch of an image quad.
pub open spec fn image_batch(
    m: Affine,
    c: Color,
    alpha: u8,
    texture: u32,
    vertices: Seq<Point>,
    texcoords: Seq<Point>,
    indices: Seq<u32>,
) -> BatchView {
    BatchView {
        pipeline: Pipeline::Image { texture },
        vertices: map_points(m, vertices),
        texcoords,
        indices,
        color: paint(c, alpha),
    }
}

/// Pending batches after one more primitive: it comes last.
pub open spec fn submit(pending: Seq<BatchView>, b: BatchView) -> Seq<BatchView> {
    pending.push(b)
}

pub open spec fn batches_view(s: Seq<Batch>) -> Seq<BatchView> {
    s.map_values(|b: Batch| b@)
}

/// What a frame hands to the backend: the clear color, if any, then the
/// batches in the order they were drawn.
#[derive(Debug)]
pub struct Frame {
    pub clear: Option<Color>,
    pub batches: Vec<Batch>,
}

/// Why a primitive drew nothing.
#[derive(Clone, Copy, Debug, PartialEq, Eq, Structural)]
pub enum DrawError {
    /// A mapped vertex does not fit in `i32` coordinates.
    OutOfRange,
    /// An index refers to no vertex, or the indices are not whole triangles.
    InvalidMesh,
}

/// Rectangle corners, clockwise from `(x, y)` in screen orientation.
pub open spec fn rect_vertices(x: int, y: int, w: int, h: int) -> Seq<Point> {
    seq![(x as i32, y as i32), ((x + w) as i32, y as i32), ((x + w) as i32, (y + h) as i32), (x as i32, (y + h) as i32)]
}

pub open spec fn rect_indices() -> Seq<u32> {
    seq![0u32, 1, 2, 0, 2, 3]
}

/// The open path from `(x1, y1)` to `(x2, y2)`.
pub open spec fn segment_model(x1: i32, y1: i32, x2: i32, y2: i32) -> PathModel {
    PathModel {
        started: true,
        finished: true,
        closed: false,
        start: (x1, y1),
        last: (x2, y2),
        lines: seq![PathLine::Straight { from: (x1, y1), to: (x2, y2) }],
    }
}

/// Fill geometry of a circle; a zero radius is invisible.
pub open spec fn circle_fill(x: i32, y: i32, radius: u32) -> (Seq<Point>, Seq<u32>) {
    if radius == 0 {
        (Seq::empty(), Seq::empty())
    } else {
        mesh_or_empty(circle_fill_tessellation((x, y), radius))
    }
}

/// Stroke geometry of a circle's outline.
pub open spec fn circle_stroke(x: i32, y: i32, radius: u32, width: u32) -> (Seq<Point>, Seq<u32>) {
    if radius == 0 || width == 0 {
        (Seq::empty(), Seq::empty())
    } else {
        mesh_or_empty(circle_stroke_tessellation((x, y), radius, width))
    }
}

/// Maps every point by `m`, or `None` when one does not fit.
pub fn map_all(m: &Matrix, points: &Vec<Point>) -> (r: Option<Vec<Point>>)
    ensures
        r is Some <==> all_in_range(m@, points@),
        r is Some ==> r->0@ == map_points(m@, points@),
{
    let mut out: Vec<Point> = Vec::new();
    let mut i: usize = 0;
    while i < points.len()
        invariant
            i <= points@.len(),
            all_in_range(m@, points@.take(i as int)),
            out@ == map_points(m@, points@.take(i as int)),
        decreases points@.len() - i,
    {
        let p = points[i];
        if !in_range(m, p) {
            assert(!all_in_range(m@, points@)) by {
                assert(!maps_in_range(m@, points@[i as int]));
            }
            return None;
        }
        let q = m.apply(p);
        out.push(q);
        proof {
            assert(points@.take(i + 1) =~= points@.take(i as int).push(p));
            assert(out@ =~= map_points(m@, points@.take(i + 1)));
        }
        i = i + 1;
    }
    assert(points@.take(i as int) =~= points@);
    Some(out)
}

/// Tests `maps_in_range`.
fn in_range(m: &Matrix, p: Point) -> (r: bool)
    ensures
        r == maps_in_range(m@, p),
{
    let x = dot(m.a, p.0, m.c, p.1, m.e);
    let y = dot(m.b, p.0, m.d, p.1, m.f);
    in_i32(x) && in_i32(y)
}

/// The draw state: paint, transform stack and the current frame.
pub struct Draw {
    color: Color,
    alpha: u8,
    recording: bool,
    transform: TransformStack,
    clear: Option<Color>,
    batches: Vec<Batch>,
}

impl Draw {
    pub closed spec fn wf(&self) -> bool {
        self.transform.wf()
    }

    /// Color of the next primitives; it persists across frames.
    pub closed spec fn paint_color(&self) -> Color {
        self.color
    }

    /// Global alpha applied on top of the color's own; it persists across
    /// frames.
    pub closed spec fn global_alpha(&self) -> u8 {
        self.alpha
    }

    /// A frame is open.
    pub closed spec fn recording(&self) -> bool {
        self.recording
    }

    /// The transform stack, base frame first.
    pub closed spec fn transforms(&self) -> Seq<Affine> {
        self.transform@
    }

    pub closed spec fn clear_color(&self) -> Option<Color> {
        self.clear
    }

    /// The batches of the current frame, in drawing order.
    pub closed spec fn pending(&self) -> Seq<BatchView> {
        batches_view(self.batches@)
    }

    pub proof fn lemma_wf(&self)
        requires
            self.wf(),
        ensures
            self.transforms().len() >= 1,
    {
        self.transform.lemma_nonempty();
    }

    /// Idle, opaque white, full alpha, identity transform.
    pub fn new() -> (r: Draw)
        ensures
            r.wf(),
            !r.recording(),
            r.paint_color() == (Color { r: 255, g: 255, b: 255, a: 255 }),
            r.global_alpha() == 255,
            r.transforms() == seq![crate::transform::identity()],
            r.clear_color() is None,
            r.pending().len() == 0,
    {
        Draw {
            color: Color { r: 255, g: 255, b: 255, a: 255 },
            alpha: 255,
            recording: false,
            transform: TransformStack::new(),
            clear: None,
            batches: Vec::new(),
        }
    }

    /// Opens a frame: the transform stack is back to the identity, no batch
    /// is pending, and the target is to be cleared with `clear` if given.
    /// Color and alpha are kept from the previous frame.
    pub fn begin(&mut self, clear: Option<Color>)
        requires
            old(self).wf(),
            !old(self).recording(),
        ensures
            final(self).wf(),
            final(self).recording(),
            final(self).transforms() == seq![crate::transform::identity()],
            final(self).clear_color() == clear,
            final(self).pending().len() == 0,
            final(self).paint_color() == old(self).paint_color(),
            final(self).global_alpha() == old(self).global_alpha(),
    {
        self.recording = true;
        self.transform.reset();
        self.clear = clear;
        self.batches = Vec::new();
        assert(self.pending() =~= Seq::<BatchView>::empty());
    }

    /// Closes the frame and hands over its batches in drawing order.
    pub fn end(&mut self) -> (r: Frame)
        requires
            old(self).wf(),
            old(self).recording(),
        ensures
            final(self).wf(),
            !final(self).recording(),
            batches_view(r.batches@) == old(self).pending(),
            r.clear == old(self).clear_color(),
            final(self).pending().len() == 0,
            final(self).transforms() == old(self).transforms(),
            final(self).paint_color() == old(self).paint_color(),
            final(self).global_alpha() == old(self).global_alpha(),
    {
        self.recording = false;
        let mut batches: Vec<Batch> = Vec::new();
        core::mem::swap(&mut batches, &mut self.batches);
        let clear = self.clear;
        self.clear = None;
        assert(self.pending() =~= Seq::<BatchView>::empty());
        Frame { clear, batches }
    }

    /// Sets the color of the next primitives.
    pub fn set_color(&mut self, c: Color)
        ensures
            final(self).paint_color() == c,
            final(self).global_alpha() == old(self).global_alpha(),
            final(self).wf() == old(self).wf(),
            final(self).recording() == old(self).recording(),
            final(self).transforms() == old(self).transforms(),
            final(self).clear_color() == old(self).clear_color(),
            final(self).pending() == old(self).pending(),
    {
        self.color = c;
    }

    /// Sets the global alpha; 255 leaves colors as they are.
    pub fn set_alpha(&mut self, alpha: u8)
        ensures
            final(self).global_alpha() == alpha,
            final(self).paint_color() == old(self).paint_color(),
            final(self).wf() == old(self).wf(),
            final(self).recording() == old(self).recording(),
            final(self).transforms() == old(self).transforms(),
            final(self).clear_color() == old(self).clear_color(),
            final(self).pending() == old(self).pending(),
    {
        self.alpha = alpha;
    }

    pub fn color(&self) -> (r: Color)
        ensures
            r == self.paint_color(),
    {
        self.color
    }

    pub fn alpha(&self) -> (r: u8)
        ensures
            r == self.global_alpha(),
    {
        self.alpha
    }

    /// The transform stack.
    pub fn transform(&self) -> (r: &TransformStack)
        ensures
            r@ == self.transforms(),
    {
        &self.transform
    }

    /// Duplicates the transform in effect on a new frame.
    pub fn push(&mut self)
        requires
            old(self).wf(),
        ensures
            final(self).wf(),
            final(self).transforms() == crate::transform::push_spec(old(self).transforms()),
            final(self).unchanged_but_transform(*old(self)),
    {
        self.transform.push();
    }

    /// Pushes the transform in effect after `m`.
    pub fn push_matrix(&mut self, m: Matrix)
        requires
            old(self).wf(),
            fits(compose(old(self).transforms().last(), m@)),
        ensures
            final(self).wf(),
            final(self).transforms() == crate::transform::push_matrix_spec(old(self).transforms(), m@),
            final(self).unchanged_but_transform(*old(self)),
    {
        self.transform.push_matrix(m);
    }

    /// Drops the top transform; the base frame is never popped.
    pub fn pop(&mut self)
        requires
            old(self).wf(),
            old(self).transforms().len() > 1,
        ensures
            final(self).wf(),
            final(self).transforms() == crate::transform::pop_spec(old(self).transforms()),
            final(self).unchanged_but_transform(*old(self)),
    {
        self.transform.pop();
    }

    /// Scales in the current frame (see `TransformStack::scale`).
    pub fn scale(&mut self, sx: i32, sy: i32)
        requires
            old(self).wf(),
            fits(compose(old(self).transforms().last(), scaling(sx as int, sy as int))),
        ensures
            final(self).wf(),
            final(self).transforms() == crate::transform::scale_spec(old(self).transforms(), sx as int, sy as int),
            final(self).unchanged_but_transform(*old(self)),
    {
        self.transform.scale(sx, sy);
    }

    /// Translates in the current frame (see `TransformStack::translate`).
    pub fn translate(&mut self, dx: i32, dy: i32)
        requires
            old(self).wf(),
            fits(compose(old(self).transforms().last(), translation(dx as int, dy as int))),
        ensures
            final(self).wf(),
            final(self).transforms() == crate::transform::translate_spec(old(self).transforms(), dx as int, dy as int),
            final(self).unchanged_but_transform(*old(self)),
    {
        self.transform.translate(dx, dy);
    }

    /// Everything but the transform stack is as in `o`.
    pub open spec fn unchanged_but_transform(&self, o: Draw) -> bool {
        &&& self.recording() == o.recording()
        &&& self.pending() == o.pending()
        &&& self.clear_color() == o.clear_color()
        &&& self.paint_color() == o.paint_color()
        &&& self.global_alpha() == o.global_alpha()
    }

    /// Everything but the pending batches is as in `o`.
    pub open spec fn unchanged_but_pending(&self, o: Draw) -> bool {
        &&& self.recording() == o.recording()
        &&& self.transforms() == o.transforms()
        &&& self.clear_color() == o.clear_color()
        &&& self.paint_color() == o.paint_color()
        &&& self.global_alpha() == o.global_alpha()
    }

    /// The outcome of drawing a primitive whose vertices are `vertices` in
    /// the current state: `b` is appended when every vertex maps in range,
    /// and nothing changes otherwise.
    pub open spec fn draws_batch(&self, o: Draw, r: Result<(), DrawError>, vertices: Seq<Point>, b: BatchView) -> bool {
        &&& self.wf()
        &&& self.unchanged_but_pending(o)
        &&& (r is Ok <==> all_in_range(o.transforms().last(), vertices))
        &&& r is Ok ==> self.pending() == submit(o.pending(), b)
        &&& r is Err ==> r == Err::<(), DrawError>(DrawError::OutOfRange) && self.pending() == o.pending()
    }

    /// The outcome of drawing solid geometry in the current state.
    pub open spec fn draws(&self, o: Draw, r: Result<(), DrawError>, vertices: Seq<Point>, indices: Seq<u32>) -> bool {
        self.draws_batch(o, r, vertices, batch_of(o.transforms().last(), o.paint_color(), o.global_alpha(), vertices, indices))
    }

    fn submit_batch(&mut self, pipeline: Pipeline, vertices: &Vec<Point>, texcoords: Vec<Point>, indices: Vec<u32>) -> (r: Result<(), DrawError>)
        requires
            old(self).wf(),
        ensures
            final(self).draws_batch(*old(self), r, vertices@, BatchView {
                pipeline,
                vertices: map_points(old(self).transforms().last(), vertices@),
                texcoords: texcoords@,
                indices: indices@,
                color: paint(old(self).paint_color(), old(self).global_alpha()),
            }),
    {
        proof { self.transform.lemma_nonempty(); }
        let m = self.transform.current();
        match map_all(&m, vertices) {
            Some(mapped) => {
                let color = self.color.paint(self.alpha);
                let batch = Batch { pipeline, vertices: mapped, texcoords, indices, color };
                self.batches.push(batch);
                assert(self.pending() =~= submit(old(self).pending(), batch@));
                Ok(())
            },
            None => Err(DrawError::OutOfRange),
        }
    }

    fn submit_mesh(&mut self, vertices: &Vec<Point>, indices: Vec<u32>) -> (r: Result<(), DrawError>)
        requires
            old(self).wf(),
        ensures
            final(self).draws(*old(self), r, vertices@, indices@),
    {
        let r = self.submit_batch(Pipeline::Color, vertices, Vec::new(), indices);
        proof {
            let b = batch_of(old(self).transforms().last(), old(self).paint_color(), old(self).global_alpha(), vertices@, indices@);
            assert(b.texcoords =~= Seq::<Point>::empty());
        }
        r
    }

    /// Draws the part of `texture` at texels `(sx, sy)` to `(sx + sw, sy + sh)`
    /// as a `sw` by `sh` rectangle at `(x, y)`, tinted with the current color.
    pub fn image_crop(&mut self, texture: &Texture, x: i32, y: i32, sx: i32, sy: i32, sw: i32, sh: i32) -> (r: Result<(), DrawError>)
        requires
            old(self).wf(),
            old(self).recording(),
            fits_i32(x + sw),
            fits_i32(y + sh),
            fits_i32(sx + sw),
            fits_i32(sy + sh),
        ensures
            final(self).draws_batch(
                *old(self),
                r,
                rect_vertices(x as int, y as int, sw as int, sh as int),
                image_batch(
                    old(self).transforms().last(),
                    old(self).paint_color(),
                    old(self).global_alpha(),
                    texture.id,
                    rect_vertices(x as int, y as int, sw as int, sh as int),
                    rect_vertices(sx as int, sy as int, sw as int, sh as int),
                    rect_indices(),
                ),
            ),
    {
        let vertices = vec![(x, y), (x + sw, y), (x + sw, y + sh), (x, y + sh)];
        let texcoords = vec![(sx, sy), (sx + sw, sy), (sx + sw, sy + sh), (sx, sy + sh)];
        let indices = vec![0u32, 1, 2, 0, 2, 3];
        assert(vertices@ =~= rect_vertices(x as int, y as int, sw as int, sh as int));
        assert(texcoords@ =~= rect_vertices(sx as int, sy as int, sw as int, sh as int));
        assert(indices@ =~= rect_indices());
        self.submit_batch(Pipeline::Image { texture: texture.id }, &vertices, texcoords, indices)
    }

    /// Draws the whole of `texture` at `(x, y)`, one texel per unit.
    pub fn image(&mut self, texture: &Texture, x: i32, y: i32) -> (r: Result<(), DrawError>)
        requires
            old(self).wf(),
            old(self).recording(),
            fits_i32(x + texture.width),
            fits_i32(y + texture.height),
        ensures
            final(self).draws_batch(
                *old(self),
                r,
                rect_vertices(x as int, y as int, texture.width as int, texture.height as int),
                image_batch(
                    old(self).transforms().last(),
                    old(self).paint_color(),
                    old(self).global_alpha(),
                    texture.id,
                    rect_vertices(x as int, y as int, texture.width as int, texture.height as int),
                    rect_vertices(0, 0, texture.width as int, texture.height as int),
                    rect_indices(),
                ),
            ),
    {
        self.image_crop(texture, x, y, 0, 0, texture.width, texture.height)
    }

    /// Draws a tessellated path.
    pub fn path(&mut self, p: &Path) -> (r: Result<(), DrawError>)
        requires
            old(self).wf(),
            old(self).recording(),
            p.wf(),
        ensures
            final(self).draws(*old(self), r, p.vertices@, p.indices@),
    {
        let indices = p.indices.clone();
        self.submit_mesh(&p.vertices, indices)
    }

    /// Draws raw geometry: vertices and a triangle list over them.
    pub fn geometry(&mut self, vertices: &Vec<Point>, indices: &Vec<u32>) -> (r: Result<(), DrawError>)
        requires
            old(self).wf(),
            old(self).recording(),
        ensures
            !valid_mesh(vertices@, indices@) ==> r == Err::<(), DrawError>(DrawError::InvalidMesh)
                && *final(self) == *old(self),
            valid_mesh(vertices@, indices@) ==> final(self).draws(*old(self), r, vertices@, indices@),
    {
        if !is_valid_mesh(vertices, indices) {
            return Err(DrawError::InvalidMesh);
        }
        let indices = indices.clone();
        self.submit_mesh(vertices, indices)
    }

    /// Fills the rectangle with corner `(x, y)`, width `w` and height `h`,
    /// as two triangles.
    pub fn rect(&mut self, x: i32, y: i32, w: i32, h: i32) -> (r: Result<(), DrawError>)
        requires
            old(self).wf(),
            old(self).recording(),
            fits_i32(x + w),
            fits_i32(y + h),
        ensures
            final(self).draws(*old(self), r, rect_vertices(x as int, y as int, w as int, h as int), rect_indices()),
    {
        let (x2, y2) = (x + w, y + h);
        let vertices = vec![(x, y), (x2, y), (x2, y2), (x, y2)];
        let indices = vec![0u32, 1, 2, 0, 2, 3];
        assert(vertices@ =~= rect_vertices(x as int, y as int, w as int, h as int));
        assert(indices@ =~= rect_indices());
        self.submit_mesh(&vertices, indices)
    }

    /// Strokes the segment from `(x1, y1)` to `(x2, y2)` with butt caps.
    pub fn line(&mut self, x1: i32, y1: i32, x2: i32, y2: i32, width: u32) -> (r: Result<(), DrawError>)
        requires
            point_f32_exact((x1, y1)),
            point_f32_exact((x2, y2)),
            old(self).wf(),
            old(self).recording(),
        ensures
            final(self).draws(
                *old(self),
                r,
                stroke_geometry(segment_model(x1, y1, x2, y2), StrokeOptions::with_width_spec(width)).0,
                stroke_geometry(segment_model(x1, y1, x2, y2), StrokeOptions::with_width_spec(width)).1,
            ),
    {
        let mut b = PathBuilder::new();
        b.begin(x1, y1);
        b.line_to(x2, y2);
        b.end(false);
        assert(b@ == segment_model(x1, y1, x2, y2)) by {
            assert(b@.lines =~= segment_model(x1, y1, x2, y2).lines);
        }
        assert(line_points(b@.lines[0]) =~= seq![(x2, y2)]);
        let p = b.stroke(width);
        self.path(&p)
    }

    /// Fills the circle of center `(x, y)`.
    pub fn circle(&mut self, x: i32, y: i32, radius: u32) -> (r: Result<(), DrawError>)
        requires
            point_f32_exact((x, y)),
            f32_exact(radius as int),
            old(self).wf(),
            old(self).recording(),
        ensures
            final(self).draws(*old(self), r, circle_fill(x, y, radius).0, circle_fill(x, y, radius).1),
    {
        if radius == 0 {
            return self.submit_mesh(&Vec::new(), Vec::new());
        }
        let geometry = lyon_circle_fill((x, y), radius);
        let p = Path::from_geometry(Vec::new(), true, geometry);
        self.path(&p)
    }

    /// Strokes the outline of the circle of center `(x, y)`.
    pub fn stroke_circle(&mut self, x: i32, y: i32, radius: u32, width: u32) -> (r: Result<(), DrawError>)
        requires
            point_f32_exact((x, y)),
            f32_exact(radius as int),
            old(self).wf(),
            old(self).recording(),
        ensures
            final(self).draws(
                *old(self),
                r,
                circle_stroke(x, y, radius, width).0,
                circle_stroke(x, y, radius, width).1,
            ),
    {
        if radius == 0 || width == 0 {
            return self.submit_mesh(&Vec::new(), Vec::new());
        }
        let geometry = lyon_circle_stroke((x, y), radius, width);
        let p = Path::from_geometry(Vec::new(), true, geometry);
        self.path(&p)
    }

    /// Fills the triangle with the three given corners.
    pub fn triangle(&mut self, x1: i32, y1: i32, x2: i32, y2: i32, x3: i32, y3: i32) -> (r: Result<(), DrawError>)
        requires
            old(self).wf(),
            old(self).recording(),
        ensures
            final(self).draws(*old(self), r, seq![(x1, y1), (x2, y2), (x3, y3)], seq![0u32, 1, 2]),
    {
        let vertices = vec![(x1, y1), (x2, y2), (x3, y3)];
        let indices = vec![0u32, 1, 2];
        assert(vertices@ =~= seq![(x1, y1), (x2, y2), (x3, y3)]);
        assert(indices@ =~= seq![0u32, 1, 2]);
        self.submit_mesh(&vertices, indices)
    }
}

/// Frame order: starting from a frame with nothing pending, drawing A and
/// then B (both drawn, whatever their pipelines) leaves A's batch first and
/// B's second, which is the order in which `end` hands them over.
pub proof fn lemma_frame_order(d0: Draw, d1: Draw, d2: Draw, va: Seq<Point>, a: BatchView, vb: Seq<Point>, b: BatchView)
    requires
        d0.pending().len() == 0,
        d1.draws_batch(d0, Ok(()), va, a),
        d2.draws_batch(d1, Ok(()), vb, b),
    ensures
        d2.pending() == seq![a, b],
{
    assert(d2.pending() =~= seq![a, b]);
}

/// Pushing a frame, scaling and translating in it, then popping, as `Draw`
/// does it, leaves the transform stack, the transform in effect and so the
/// mapping of everything drawn next, as before the push; paint and pending
/// batches are untouched.
pub proof fn lemma_draw_push_scale_translate_pop(
    d0: Draw,
    d1: Draw,
    d2: Draw,
    d3: Draw,
    d4: Draw,
    sx: int,
    sy: int,
    dx: int,
    dy: int,
)
    requires
        d0.wf(),
        d1.transforms() == crate::transform::push_spec(d0.transforms()),
        d1.unchanged_but_transform(d0),
        d2.transforms() == crate::transform::scale_spec(d1.transforms(), sx, sy),
        d2.unchanged_but_transform(d1),
        d3.transforms() == crate::transform::translate_spec(d2.transforms(), dx, dy),
        d3.unchanged_but_transform(d2),
        d4.transforms() == crate::transform::pop_spec(d3.transforms()),
        d4.unchanged_but_transform(d3),
    ensures
        d4.transforms() == d0.transforms(),
        d4.transforms().last() == d0.transforms().last(),
        d4.unchanged_but_transform(d0),
{
    d0.lemma_wf();
    crate::transform::lemma_push_scale_translate_pop(d0.transforms(), sx, sy, dx, dy);
}

/// A path under construction, drawn into a `Draw` when it is finished.
pub struct DrawPath {
    builder: PathBuilder,
}

impl View for DrawPath {
    type V = PathModel;

    closed spec fn view(&self) -> PathModel {
        self.builder@
    }
}

impl DrawPath {
    pub closed spec fn wf(&self) -> bool {
        self.builder.wf()
    }

    /// A path begun at `(x, y)`.
    pub fn new(x: i32, y: i32) -> (r: DrawPath)
        ensures
            r.wf(),
            r@.started && !r@.finished && !r@.closed,
            r@.start == (x, y),
            r@.last == (x, y),
            r@.lines.len() == 0,
    {
        let mut builder = PathBuilder::new();
        builder.begin(x, y);
        DrawPath { builder }
    }

    pub fn line_to(self, x: i32, y: i32) -> (r: DrawPath)
        requires
            self.wf(),
            self@.started && !self@.finished,
        ensures
            r.wf(),
            r@ == (PathModel {
                lines: self@.lines.push(PathLine::Straight { from: self@.last, to: (x, y) }),
                last: (x, y),
                ..self@
            }),
    {
        let mut builder = self.builder;
        builder.line_to(x, y);
        DrawPath { builder }
    }

    pub fn quadratic_bezier_to(self, ctrl: Point, to: Point) -> (r: DrawPath)
        requires
            self.wf(),
            self@.started && !self@.finished,
        ensures
            r.wf(),
            r@ == (PathModel {
                lines: self@.lines.push(PathLine::Quadratic { from: self@.last, to, ctrl }),
                last: to,
                ..self@
            }),
    {
        let mut builder = self.builder;
        builder.quadratic_bezier_to(ctrl, to);
        DrawPath { builder }
    }

    pub fn cubic_bezier_to(self, ctrl1: Point, ctrl2: Point, to: Point) -> (r: DrawPath)
        requires
            self.wf(),
            self@.started && !self@.finished,
        ensures
            r.wf(),
            r@ == (PathModel {
                lines: self@.lines.push(PathLine::Cubic { from: self@.last, to, ctrl1, ctrl2 }),
                last: to,
                ..self@
            }),
    {
        let mut builder = self.builder;
        builder.cubic_bezier_to(ctrl1, ctrl2, to);
        DrawPath { builder }
    }

    pub fn end(self, close: bool) -> (r: DrawPath)
        requires
            self.wf(),
            self@.started && !self@.finished,
        ensures
            r.wf(),
            r@ == (PathModel { finished: true, closed: close, ..self@ }),
    {
        let mut builder = self.builder;
        builder.end(close);
        DrawPath { builder }
    }

    /// Strokes the finished path into `draw`.
    pub fn stroke(self, draw: &mut Draw, width: u32) -> (r: Result<(), DrawError>)
        requires
            model_f32_exact(self@),
            self.wf(),
            self@.finished && self@.lines.len() > 0,
            old(draw).wf(),
            old(draw).recording(),
        ensures
            final(draw).draws(
                *old(draw),
                r,
                stroke_geometry(self@, StrokeOptions::with_width_spec(width)).0,
                stroke_geometry(self@, StrokeOptions::with_width_spec(width)).1,
            ),
    {
        self.stroke_with_options(draw, StrokeOptions::with_width(width))
    }

    pub fn stroke_with_options(self, draw: &mut Draw, options: StrokeOptions) -> (r: Result<(), DrawError>)
        requires
            model_f32_exact(self@),
            self.wf(),
            self@.finished && self@.lines.len() > 0,
            old(draw).wf(),
            old(draw).recording(),
        ensures
            final(draw).draws(*old(draw), r, stroke_geometry(self@, options).0, stroke_geometry(self@, options).1),
    {
        let p = self.builder.stroke_with_options(options);
        draw.path(&p)
    }

    /// Fills the finished path into `draw` with the even-odd rule.
    pub fn fill(self, draw: &mut Draw) -> (r: Result<(), DrawError>)
        requires
            model_f32_exact(self@),
            self.wf(),
            self@.finished && self@.lines.len() > 0,
            old(draw).wf(),
            old(draw).recording(),
        ensures
            final(draw).draws(
                *old(draw),
                r,
                fill_geometry(self@, FillOptions::default_spec()).0,
                fill_geometry(self@, FillOptions::default_spec()).1,
            ),
    {
        self.fill_with_options(draw, FillOptions::default())
    }

    pub fn fill_with_options(self, draw: &mut Draw, options: FillOptions) -> (r: Result<(), DrawError>)
        requires
            model_f32_exact(self@),
            self.wf(),
            self@.finished && self@.lines.len() > 0,
            old(draw).wf(),
            old(draw).recording(),
        ensures
            final(draw).draws(*old(draw), r, fill_geometry(self@, options).0, fill_geometry(self@, options).1),
    {
        let p = self.builder.fill_with_options(options);
        draw.path(&p)
    }
}

} // verus!
