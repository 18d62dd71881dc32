use nae::path::{Path, PathBuilder, PathLine};
use nae::tessellation::{FillOptions, FillRule, LineCap, LineJoin, StrokeOptions};

fn polygon(points: &[(i32, i32)], close: bool) -> PathBuilder {
    let mut b = Path::builder();
    b.begin(points[0].0, points[0].1);
    for p in &points[1..] {
        b.line_to(p.0, p.1);
    }
    b.end(close);
    b
}

fn bounds(p: &Path) -> (i32, i32, i32, i32) {
    let xs = p.vertices.iter().map(|v| v.0);
    let ys = p.vertices.iter().map(|v| v.1);
    (xs.clone().min().unwrap(), ys.clone().min().unwrap(), xs.max().unwrap(), ys.max().unwrap())
}

fn area(p: &Path) -> i64 {
    let mut twice = 0i64;
    for t in p.indices.chunks(3) {
        let (a, b, c) = (p.vertices[t[0] as usize], p.vertices[t[1] as usize], p.vertices[t[2] as usize]);
        let cross = (b.0 - a.0) as i64 * (c.1 - a.1) as i64 - (b.1 - a.1) as i64 * (c.0 - a.0) as i64;
        twice += cross.abs();
    }
    twice / 2
}

fn assert_valid(p: &Path) {
    assert_eq!(p.indices.len() % 3, 0);
    for i in &p.indices {
        assert!((*i as usize) < p.vertices.len());
    }
}

#[test]
fn builder_chains_segments() {
    let mut b = PathBuilder::new();
    b.begin(1, 2);
    b.line_to(3, 4);
    b.quadratic_bezier_to((5, 6), (7, 8));
    b.cubic_bezier_to((9, 10), (11, 12), (13, 14));
    b.end(false);
    let p = b.stroke(2);
    let lines = p.lines();
    assert_eq!(lines.len(), 3);
    match lines[0] {
        PathLine::Straight { from, to } => {
            assert_eq!(from, (1, 2));
            assert_eq!(to, (3, 4));
        }
        _ => panic!("expected a straight segment"),
    }
    match lines[1] {
        PathLine::Quadratic { from, to, ctrl } => {
            assert_eq!(from, (3, 4));
            assert_eq!(ctrl, (5, 6));
            assert_eq!(to, (7, 8));
        }
        _ => panic!("expected a quadratic segment"),
    }
    match lines[2] {
        PathLine::Cubic { from, to, ctrl1, ctrl2 } => {
            assert_eq!(from, (7, 8));
            assert_eq!(ctrl1, (9, 10));
            assert_eq!(ctrl2, (11, 12));
            assert_eq!(to, (13, 14));
        }
        _ => panic!("expected a cubic segment"),
    }
    assert!(!p.vertices.is_empty());
    assert_valid(&p);
}

#[test]
fn fill_convex_polygons_gives_n_minus_two_triangles() {
    let square = [(0, 0), (100, 0), (100, 100), (0, 100)];
    let pentagon = [(50, 0), (100, 40), (80, 100), (20, 100), (0, 40)];
    for pts in [&square[..], &pentagon[..]] {
        let p = polygon(pts, true).fill();
        assert_valid(&p);
        assert_eq!(p.indices.len() / 3, pts.len() - 2);
        for v in &p.vertices {
            assert!(pts.contains(v));
        }
    }
}

#[test]
fn stroke_of_one_segment_spans_length_and_width() {
    let p = polygon(&[(0, 0), (100, 0)], false).stroke(10);
    assert_valid(&p);
    assert_eq!(bounds(&p), (0, -5, 100, 5));
}

#[test]
fn square_cap_extends_the_stroke() {
    let b = polygon(&[(0, 0), (100, 0)], false);
    let opts = StrokeOptions { line_width: 10, line_cap: LineCap::Square, line_join: LineJoin::Miter };
    let p = b.stroke_with_options(opts);
    assert_valid(&p);
    let (x0, y0, x1, y1) = bounds(&p);
    assert!(x0 < 0 && x1 > 100);
    assert_eq!((y0, y1), (-5, 5));
}

#[test]
fn closed_and_open_fill_agree() {
    let pts = [(0, 0), (100, 0), (100, 100), (0, 100)];
    let open = polygon(&pts, false).fill();
    let closed = polygon(&pts, true).fill();
    assert!(!open.closed && closed.closed);
    assert_eq!(open.indices.len(), closed.indices.len());
    assert_eq!(open.vertices.len(), closed.vertices.len());
}

#[test]
fn closing_adds_the_closing_edge_to_the_stroke() {
    let pts = [(0, 0), (100, 0), (100, 100)];
    let open = polygon(&pts, false).stroke(4);
    let closed = polygon(&pts, true).stroke(4);
    assert!(closed.indices.len() > open.indices.len());
}

#[test]
fn stroke_of_polyline_stays_in_bounds() {
    let p = polygon(&[(0, 0), (100, 0), (100, 100)], false).stroke(10);
    assert!(!p.vertices.is_empty());
    assert_eq!(p.indices.len() % 3, 0);
    for v in &p.vertices {
        assert!(-5 <= v.0 && v.0 <= 105 && -5 <= v.1 && v.1 <= 105);
    }
    assert_valid(&p);
}

#[test]
fn zero_width_stroke_is_empty() {
    let p = polygon(&[(0, 0), (100, 0)], false).stroke(0);
    assert!(p.vertices.is_empty());
    assert!(p.indices.is_empty());
    assert_eq!(p.lines().len(), 1);
}

#[test]
fn degenerate_fill_is_empty() {
    let p = polygon(&[(0, 0), (0, 0), (0, 0)], true).fill();
    assert!(p.indices.is_empty());
}

#[test]
fn fill_rule_decides_the_overlap() {
    // Two squares wound the same way, one inside the other.
    let mut b = Path::builder();
    b.begin(0, 0);
    b.line_to(100, 0);
    b.line_to(100, 100);
    b.line_to(0, 100);
    b.line_to(0, 0);
    b.line_to(25, 25);
    b.line_to(75, 25);
    b.line_to(75, 75);
    b.line_to(25, 75);
    b.line_to(25, 25);
    b.end(true);
    let even_odd = b.fill_with_options(FillOptions { fill_rule: FillRule::EvenOdd });
    let mut b = Path::builder();
    b.begin(0, 0);
    b.line_to(100, 0);
    b.line_to(100, 100);
    b.line_to(0, 100);
    b.line_to(0, 0);
    b.line_to(25, 25);
    b.line_to(75, 25);
    b.line_to(75, 75);
    b.line_to(25, 75);
    b.line_to(25, 25);
    b.end(true);
    let non_zero = b.fill_with_options(FillOptions { fill_rule: FillRule::NonZero });
    assert_valid(&even_odd);
    assert_valid(&non_zero);
    assert_eq!(area(&even_odd), 7500);
    assert_eq!(area(&non_zero), 10000);
}

#[test]
fn from_geometry_keeps_valid_and_drops_invalid_meshes() {
    let ok = Path::from_geometry(vec![], true, Some((vec![(0, 0), (1, 0), (0, 1)], vec![0, 1, 2])));
    assert_eq!(ok.vertices, vec![(0, 0), (1, 0), (0, 1)]);
    assert_eq!(ok.indices, vec![0, 1, 2]);
    let bad = Path::from_geometry(vec![], true, Some((vec![(0, 0), (1, 0)], vec![0, 1, 2])));
    assert!(bad.vertices.is_empty() && bad.indices.is_empty());
    let partial = Path::from_geometry(vec![], true, Some((vec![(0, 0), (1, 0), (0, 1)], vec![0, 1])));
    assert!(partial.indices.is_empty());
    let failed = Path::from_geometry(vec![], true, None);
    assert!(failed.vertices.is_empty());
}

#[test]
fn collinear_fill_is_empty() {
    let p = polygon(&[(0, 0), (50, 50), (100, 100), (20, 20)], true).fill();
    assert!(p.vertices.is_empty() && p.indices.is_empty());
    let mut b = Path::builder();
    b.begin(0, 0);
    b.quadratic_bezier_to((10, 0), (20, 0));
    b.cubic_bezier_to((30, 0), (-5, 0), (0, 0));
    b.end(true);
    assert!(b.fill().indices.is_empty());
}

#[test]
fn zero_length_stroke_is_empty_whatever_the_cap() {
    let b = polygon(&[(7, 7), (7, 7), (7, 7)], false);
    let opts = StrokeOptions { line_width: 10, line_cap: LineCap::Round, line_join: LineJoin::Round };
    let p = b.stroke_with_options(opts);
    assert!(p.vertices.is_empty() && p.indices.is_empty());
    assert_eq!(p.lines().len(), 2);
}

#[test]
fn non_degenerate_paths_still_draw() {
    let p = polygon(&[(0, 0), (10, 0), (10, 10)], true).fill();
    assert_eq!(p.indices.len(), 3);
    let q = polygon(&[(0, 0), (0, 0), (5, 0)], false).stroke(2);
    assert!(!q.indices.is_empty());
}
