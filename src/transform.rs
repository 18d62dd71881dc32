//! Integer affine transforms and the transform stack.
use crate::path::Point;
use vstd::arithmetic::mul::{lemma_mul_is_associative, lemma_mul_is_distributive_add};
use vstd::prelude::*;

verus! {

/// An affine map over the integers:
/// `x' = a*x + c*y + e`, `y' = b*x + d*y + f`.
pub struct Affine {
    pub a: int,
    pub b: int,
    pub c: int,
    pub d: int,
    pub e: int,
    pub f: int,
}

pub open spec fn identity() -> Affine {
    Affine { a: 1, b: 0, c: 0, d: 1, e: 0, f: 0 }
}

pub open spec fn scaling(sx: int, sy: int) -> Affine {
    Affine { a: sx, b: 0, c: 0, d: sy, e: 0, f: 0 }
}

pub open spec fn translation(dx: int, dy: int) -> Affine {
    Affine { a: 1, b: 0, c: 0, d: 1, e: dx, f: dy }
}

/// `m` after `n`: the map that applies `n` first, then `m`.
pub open spec fn compose(m: Affine, n: Affine) -> Affine {
    Affine {
        a: m.a * n.a + m.c * n.b,
        b: m.b * n.a + m.d * n.b,
        c: m.a * n.c + m.c * n.d,
        d: m.b * n.c + m.d * n.d,
        e: m.a * n.e + m.c * n.f + m.e,
        f: m.b * n.e + m.d * n.f + m.f,
    }
}

proof fn lemma_assoc_row(p: int, q: int, r: int, x1: int, x2: int, y1: int, y2: int, w1: int, w2: int, z1: int, z2: int)
    ensures
        (p * x1 + q * x2) * z1 + (p * y1 + q * y2) * z2 + (p * w1 + q * w2 + r)
            == p * (x1 * z1 + y1 * z2 + w1) + q * (x2 * z1 + y2 * z2 + w2) + r,
{
    assert((p * x1 + q * x2) * z1 == p * (x1 * z1) + q * (x2 * z1)) by (nonlinear_arith);
    assert((p * y1 + q * y2) * z2 == p * (y1 * z2) + q * (y2 * z2)) by (nonlinear_arith);
    assert(p * (x1 * z1 + y1 * z2 + w1) == p * (x1 * z1) + p * (y1 * z2) + p * w1) by (nonlinear_arith);
    assert(q * (x2 * z1 + y2 * z2 + w2) == q * (x2 * z1) + q * (y2 * z2) + q * w2) by (nonlinear_arith);
}

/// Composition is associative.
pub proof fn lemma_compose_assoc(m: Affine, n: Affine, k: Affine)
    ensures
        compose(compose(m, n), k) == compose(m, compose(n, k)),
{
    lemma_assoc_row(m.a, m.c, 0, n.a, n.b, n.c, n.d, 0, 0, k.a, k.b);
    lemma_assoc_row(m.b, m.d, 0, n.a, n.b, n.c, n.d, 0, 0, k.a, k.b);
    lemma_assoc_row(m.a, m.c, 0, n.a, n.b, n.c, n.d, 0, 0, k.c, k.d);
    lemma_assoc_row(m.b, m.d, 0, n.a, n.b, n.c, n.d, 0, 0, k.c, k.d);
    lemma_assoc_row(m.a, m.c, m.e, n.a, n.b, n.c, n.d, n.e, n.f, k.e, k.f);
    lemma_assoc_row(m.b, m.d, m.f, n.a, n.b, n.c, n.d, n.e, n.f, k.e, k.f);
}

/// The image of the point `(x, y)`.
pub open spec fn apply(m: Affine, x: int, y: int) -> (int, int) {
    (m.a * x + m.c * y + m.e, m.b * x + m.d * y + m.f)
}

pub open spec fn fits_i32(v: int) -> bool {
    i32::MIN <= v <= i32::MAX
}

/// Every coefficient fits in an `i32`.
pub open spec fn fits(m: Affine) -> bool {
    fits_i32(m.a) && fits_i32(m.b) && fits_i32(m.c) && fits_i32(m.d) && fits_i32(m.e) && fits_i32(m.f)
}

/// Both coordinates of the image of `p` under `m` fit in an `i32`.
pub open spec fn maps_in_range(m: Affine, p: Point) -> bool {
    fits_i32(apply(m, p.0 as int, p.1 as int).0) && fits_i32(apply(m, p.0 as int, p.1 as int).1)
}

/// An affine transform with `i32` coefficients.
#[derive(Clone, Copy, Debug, PartialEq, Eq, Structural)]
pub struct Matrix {
    pub a: i32,
    pub b: i32,
    pub c: i32,
    pub d: i32,
    pub e: i32,
    pub f: i32,
}

impl View for Matrix {
    type V = Affine;

    open spec fn view(&self) -> Affine {
        Affine {
            a: self.a as int,
            b: self.b as int,
            c: self.c as int,
            d: self.d as int,
            e: self.e as int,
            f: self.f as int,
        }
    }
}

proof fn lemma_mul_i32(x: i32, y: i32)
    ensures
        -0x4000_0000_0000_0000 <= (x as int) * (y as int) <= 0x4000_0000_0000_0000,
{
    let (xi, yi) = (x as int, y as int);
    assert(-0x4000_0000_0000_0000 <= xi * yi <= 0x4000_0000_0000_0000) by (nonlinear_arith)
        requires
            -0x8000_0000 <= xi < 0x8000_0000,
            -0x8000_0000 <= yi < 0x8000_0000,
    ;
}

/// `p*q + r*s + t`, computed without overflow.
pub(crate) fn dot(p: i32, q: i32, r: i32, s: i32, t: i32) -> (out: i128)
    ensures
        out as int == (p as int) * (q as int) + (r as int) * (s as int) + t as int,
{
    proof {
        lemma_mul_i32(p, q);
        lemma_mul_i32(r, s);
    }
    (p as i128) * (q as i128) + (r as i128) * (s as i128) + (t as i128)
}

pub(crate) fn in_i32(v: i128) -> (r: bool)
    ensures
        r == fits_i32(v as int),
{
    i32::MIN as i128 <= v && v <= i32::MAX as i128
}

impl Matrix {
    pub fn identity() -> (r: Matrix)
        ensures
            r@ == identity(),
    {
        Matrix { a: 1, b: 0, c: 0, d: 1, e: 0, f: 0 }
    }

    pub fn scaling(sx: i32, sy: i32) -> (r: Matrix)
        ensures
            r@ == scaling(sx as int, sy as int),
    {
        Matrix { a: sx, b: 0, c: 0, d: sy, e: 0, f: 0 }
    }

    pub fn translation(dx: i32, dy: i32) -> (r: Matrix)
        ensures
            r@ == translation(dx as int, dy as int),
    {
        Matrix { a: 1, b: 0, c: 0, d: 1, e: dx, f: dy }
    }

    /// `self` after `other`; the coefficients of the result must fit.
    pub fn compose(&self, other: &Matrix) -> (r: Matrix)
        requires
            fits(compose(self@, other@)),
        ensures
            r@ == compose(self@, other@),
    {
        let a = dot(self.a, other.a, self.c, other.b, 0);
        let b = dot(self.b, other.a, self.d, other.b, 0);
        let c = dot(self.a, other.c, self.c, other.d, 0);
        let d = dot(self.b, other.c, self.d, other.d, 0);
        let e = dot(self.a, other.e, self.c, other.f, self.e);
        let f = dot(self.b, other.e, self.d, other.f, self.f);
        Matrix { a: a as i32, b: b as i32, c: c as i32, d: d as i32, e: e as i32, f: f as i32 }
    }

    /// Tests whether `self` after `other` has coefficients that fit, as
    /// `compose` requires.
    pub fn composes_in_range(&self, other: &Matrix) -> (r: bool)
        ensures
            r == fits(compose(self@, other@)),
    {
        let a = dot(self.a, other.a, self.c, other.b, 0);
        let b = dot(self.b, other.a, self.d, other.b, 0);
        let c = dot(self.a, other.c, self.c, other.d, 0);
        let d = dot(self.b, other.c, self.d, other.d, 0);
        let e = dot(self.a, other.e, self.c, other.f, self.e);
        let f = dot(self.b, other.e, self.d, other.f, self.f);
        in_i32(a) && in_i32(b) && in_i32(c) && in_i32(d) && in_i32(e) && in_i32(f)
    }

    /// The image of `p`; both of its coordinates must fit.
    pub fn apply(&self, p: Point) -> (r: Point)
        requires
            maps_in_range(self@, p),
        ensures
            (r.0 as int, r.1 as int) == apply(self@, p.0 as int, p.1 as int),
    {
        let x = dot(self.a, p.0, self.c, p.1, self.e);
        let y = dot(self.b, p.0, self.d, p.1, self.f);
        (x as i32, y as i32)
    }
}

/// The stack as a sequence of maps, base frame first.
pub open spec fn stack_view(s: Seq<Matrix>) -> Seq<Affine> {
    s.map_values(|m: Matrix| m@)
}

/// A new frame that starts as a copy of the top one.
pub open spec fn push_spec(s: Seq<Affine>) -> Seq<Affine> {
    s.push(s.last())
}

/// A new frame holding the top one after `m`.
pub open spec fn push_matrix_spec(s: Seq<Affine>, m: Affine) -> Seq<Affine> {
    s.push(compose(s.last(), m))
}

pub open spec fn pop_spec(s: Seq<Affine>) -> Seq<Affine> {
    s.drop_last()
}

/// The top frame replaced by itself after `delta`.
pub open spec fn compose_top(s: Seq<Affine>, delta: Affine) -> Seq<Affine> {
    s.update(s.len() - 1, compose(s.last(), delta))
}

/// The deltas after the top frame is composed with `delta`.
pub open spec fn top_after(deltas: Seq<Affine>, delta: Affine) -> Seq<Affine> {
    deltas.update(deltas.len() - 1, compose(deltas.last(), delta))
}

pub open spec fn scale_spec(s: Seq<Affine>, sx: int, sy: int) -> Seq<Affine> {
    compose_top(s, scaling(sx, sy))
}

pub open spec fn translate_spec(s: Seq<Affine>, dx: int, dy: int) -> Seq<Affine> {
    compose_top(s, translation(dx, dy))
}

/// The transform of frame `d`: the deltas of frames `0..=d`, each one
/// applied after (inside) its parent's.
pub open spec fn composed(deltas: Seq<Affine>, d: int) -> Affine
    decreases d,
{
    if d <= 0 {
        deltas[0]
    } else {
        compose(composed(deltas, d - 1), deltas[d])
    }
}

/// Every frame of the stack is the composition of the deltas up to it.
pub open spec fn frames_composed(stack: Seq<Affine>, deltas: Seq<Affine>) -> bool {
    &&& stack.len() == deltas.len()
    &&& forall|d: int| 0 <= d < stack.len() ==> #[trigger] stack[d] == composed(deltas, d)
}

proof fn lemma_composed_prefix(s: Seq<Affine>, t: Seq<Affine>, d: int)
    requires
        0 <= d < s.len(),
        d < t.len(),
        forall|i: int| 0 <= i <= d ==> s[i] == t[i],
    ensures
        composed(s, d) == composed(t, d),
    decreases d,
{
    if d > 0 {
        lemma_composed_prefix(s, t, d - 1);
    }
}

proof fn lemma_compose_identity(m: Affine)
    ensures
        compose(m, identity()) == m,
{
    assert(m.a * 1 + m.c * 0 == m.a && m.b * 1 + m.d * 0 == m.b) by (nonlinear_arith);
    assert(m.a * 0 + m.c * 1 == m.c && m.b * 0 + m.d * 1 == m.d) by (nonlinear_arith);
    assert(m.a * 0 + m.c * 0 + m.e == m.e && m.b * 0 + m.d * 0 + m.f == m.f) by (nonlinear_arith);
}

/// A stack of transforms over a base frame that is never popped. The top is
/// the transform in effect.
pub struct TransformStack {
    stack: Vec<Matrix>,
    /// What each frame adds to its parent: the matrix it was pushed with,
    /// composed with the scalings and translations applied to it since.
    deltas: Ghost<Seq<Affine>>,
}

impl View for TransformStack {
    type V = Seq<Affine>;

    closed spec fn view(&self) -> Seq<Affine> {
        stack_view(self.stack@)
    }
}

impl TransformStack {
    pub closed spec fn wf(&self) -> bool {
        &&& self.stack@.len() >= 1
        &&& frames_composed(self@, self.deltas@)
    }

    /// What each frame adds to its parent, base frame first.
    pub closed spec fn deltas(&self) -> Seq<Affine> {
        self.deltas@
    }

    /// Each frame is its parent's transform after the frame's own delta; the
    /// base frame is its delta alone.
    pub proof fn lemma_frames_composed(&self)
        requires
            self.wf(),
        ensures
            frames_composed(self@, self.deltas()),
    {
    }

    pub proof fn lemma_nonempty(&self)
        requires
            self.wf(),
        ensures
            self@.len() >= 1,
    {
    }

    /// A stack holding only the identity.
    pub fn new() -> (r: Self)
        ensures
            r.wf(),
            r@ == seq![identity()],
            r.deltas() == seq![identity()],
    {
        let ghost base = seq![identity()];
        let r = TransformStack { stack: vec![Matrix::identity()], deltas: Ghost(base) };
        assert(r@ =~= seq![identity()]);
        r
    }

    /// The transform in effect.
    pub fn current(&self) -> (r: Matrix)
        requires
            self.wf(),
        ensures
            r@ == self@.last(),
    {
        self.stack[self.stack.len() - 1]
    }

    /// Number of frames, the base one included.
    pub fn depth(&self) -> (r: usize)
        requires
            self.wf(),
        ensures
            r == self@.len(),
    {
        self.stack.len()
    }

    /// Back to the identity alone.
    pub fn reset(&mut self)
        ensures
            final(self).wf(),
            final(self)@ == seq![identity()],
            final(self).deltas() == seq![identity()],
    {
        self.stack = vec![Matrix::identity()];
        let ghost base = seq![identity()];
        self.deltas = Ghost(base);
        assert(self@ =~= seq![identity()]);
    }

    /// Duplicates the top frame, so that later changes leave the parent as
    /// it was.
    pub fn push(&mut self)
        requires
            old(self).wf(),
        ensures
            final(self).wf(),
            final(self)@ == push_spec(old(self)@),
            final(self).deltas() == old(self).deltas().push(identity()),
    {
        let top = self.current();
        self.stack.push(top);
        let ghost old_deltas = self.deltas@;
        self.deltas = Ghost(old_deltas.push(identity()));
        assert(self@ =~= push_spec(old(self)@));
        proof {
            lemma_compose_identity(top@);
            self.lemma_extend(old(self)@, old_deltas);
        }
    }

    /// Pushes the top frame after `m`: geometry is mapped by `m`, then by the
    /// parent's transform.
    pub fn push_matrix(&mut self, m: Matrix)
        requires
            old(self).wf(),
            fits(compose(old(self)@.last(), m@)),
        ensures
            final(self).wf(),
            final(self)@ == push_matrix_spec(old(self)@, m@),
            final(self).deltas() == old(self).deltas().push(m@),
    {
        let top = self.current().compose(&m);
        self.stack.push(top);
        let ghost old_deltas = self.deltas@;
        self.deltas = Ghost(old_deltas.push(m@));
        assert(self@ =~= push_matrix_spec(old(self)@, m@));
        proof { self.lemma_extend(old(self)@, old_deltas); }
    }

    /// A frame pushed on a well-formed stack keeps the composition invariant
    /// when its delta composes with the old top to the new top.
    proof fn lemma_extend(&self, old_stack: Seq<Affine>, old_deltas: Seq<Affine>)
        requires
            old_stack.len() >= 1,
            frames_composed(old_stack, old_deltas),
            self.stack@.len() == old_stack.len() + 1,
            self.deltas@.len() == old_deltas.len() + 1,
            forall|d: int| 0 <= d < old_stack.len() ==> self@[d] == old_stack[d],
            forall|d: int| 0 <= d < old_deltas.len() ==> self.deltas@[d] == old_deltas[d],
            self@.last() == compose(old_stack.last(), self.deltas@.last()),
        ensures
            frames_composed(self@, self.deltas@),
    {
        let n = old_stack.len() as int;
        assert forall|d: int| 0 <= d < self@.len() implies #[trigger] self@[d] == composed(self.deltas@, d) by {
            if d < n {
                lemma_composed_prefix(self.deltas@, old_deltas, d);
                assert(old_stack[d] == composed(old_deltas, d));
            } else {
                lemma_composed_prefix(self.deltas@, old_deltas, n - 1);
                assert(old_stack[n - 1] == composed(old_deltas, n - 1));
            }
        }
    }

    /// Drops the top frame; the base frame is never popped.
    pub fn pop(&mut self)
        requires
            old(self).wf(),
            old(self)@.len() > 1,
        ensures
            final(self).wf(),
            final(self)@ == pop_spec(old(self)@),
            final(self).deltas() == old(self).deltas().drop_last(),
    {
        self.stack.pop();
        let ghost old_deltas = self.deltas@;
        self.deltas = Ghost(old_deltas.drop_last());
        assert(self@ =~= pop_spec(old(self)@));
        assert forall|d: int| 0 <= d < self@.len() implies #[trigger] self@[d] == composed(self.deltas@, d) by {
            lemma_composed_prefix(self.deltas@, old_deltas, d);
            assert(old(self)@[d] == composed(old_deltas, d));
        }
    }

    fn replace_top(&mut self, delta: Matrix)
        requires
            old(self).wf(),
            fits(compose(old(self)@.last(), delta@)),
        ensures
            final(self).wf(),
            final(self)@ == compose_top(old(self)@, delta@),
            final(self).deltas() == top_after(old(self).deltas(), delta@),
    {
        let last = self.stack.len() - 1;
        let top = self.stack[last].compose(&delta);
        self.stack.set(last, top);
        let ghost old_deltas = self.deltas@;
        self.deltas = Ghost(top_after(old_deltas, delta@));
        assert(self@ =~= compose_top(old(self)@, delta@));
        proof {
            let n = last as int;
            let nd = self.deltas@;
            assert forall|d: int| 0 <= d < n implies #[trigger] self@[d] == composed(nd, d) by {
                lemma_composed_prefix(nd, old_deltas, d);
                assert(old(self)@[d] == composed(old_deltas, d));
            }
            assert(old(self)@[n] == composed(old_deltas, n));
            if n > 0 {
                lemma_composed_prefix(nd, old_deltas, n - 1);
                lemma_compose_assoc(composed(old_deltas, n - 1), old_deltas[n], delta@);
            }
            assert(self@[n] == composed(nd, n));
        }
    }

    /// Replaces the top with top after a scaling: the scaling acts in the
    /// current frame, before the transforms already in effect.
    pub fn scale(&mut self, sx: i32, sy: i32)
        requires
            old(self).wf(),
            fits(compose(old(self)@.last(), scaling(sx as int, sy as int))),
        ensures
            final(self).wf(),
            final(self)@ == scale_spec(old(self)@, sx as int, sy as int),
            final(self).deltas() == top_after(old(self).deltas(), scaling(sx as int, sy as int)),
    {
        self.replace_top(Matrix::scaling(sx, sy));
    }

    /// Replaces the top with top after a translation: the offset is in the
    /// current frame's units, before the transforms already in effect.
    pub fn translate(&mut self, dx: i32, dy: i32)
        requires
            old(self).wf(),
            fits(compose(old(self)@.last(), translation(dx as int, dy as int))),
        ensures
            final(self).wf(),
            final(self)@ == translate_spec(old(self)@, dx as int, dy as int),
            final(self).deltas() == top_after(old(self).deltas(), translation(dx as int, dy as int)),
    {
        self.replace_top(Matrix::translation(dx, dy));
    }
}

/// Pushing a frame, scaling and translating in it, then popping leaves the
/// stack, and so the transform in effect, as it was before the push.
pub proof fn lemma_push_scale_translate_pop(s: Seq<Affine>, sx: int, sy: int, dx: int, dy: int)
    requires
        s.len() >= 1,
    ensures
        pop_spec(translate_spec(scale_spec(push_spec(s), sx, sy), dx, dy)) == s,
        pop_spec(translate_spec(scale_spec(push_spec(s), sx, sy), dx, dy)).last() == s.last(),
{
    assert(pop_spec(translate_spec(scale_spec(push_spec(s), sx, sy), dx, dy)) =~= s);
}

proof fn lemma_row(ta: int, tc: int, te: int, ma: int, mc: int, me: int, sx: int, sy: int, dx: int, dy: int, x: int, y: int)
    requires
        ma == ta * sx + tc * 0,
        mc == ta * 0 + tc * sy,
        me == (ta * sx + tc * 0) * dx + (ta * 0 + tc * sy) * dy + (ta * 0 + tc * 0 + te),
    ensures
        ma * x + mc * y + me == ta * (sx * (x + dx)) + tc * (sy * (y + dy)) + te,
{
    lemma_mul_is_associative(ta, sx, x + dx);
    lemma_mul_is_distributive_add(ta * sx, x, dx);
    lemma_mul_is_associative(tc, sy, y + dy);
    lemma_mul_is_distributive_add(tc * sy, y, dy);
}

/// Scaling then translating the top maps a point `p` to
/// `top(sx * (p.x + dx), sy * (p.y + dy))`: the translation acts in the
/// scaled frame.
pub proof fn lemma_scale_then_translate(s: Seq<Affine>, sx: int, sy: int, dx: int, dy: int, x: int, y: int)
    requires
        s.len() >= 1,
    ensures
        apply(translate_spec(scale_spec(s, sx, sy), dx, dy).last(), x, y)
            == apply(s.last(), sx * (x + dx), sy * (y + dy)),
{
    let t = s.last();
    let m = compose(compose(t, scaling(sx, sy)), translation(dx, dy));
    assert(translate_spec(scale_spec(s, sx, sy), dx, dy).last() == m);
    lemma_row(t.a, t.c, t.e, m.a, m.c, m.e, sx, sy, dx, dy, x, y);
    lemma_row(t.b, t.d, t.f, m.b, m.d, m.f, sx, sy, dx, dy, x, y);
}

} // verus!
