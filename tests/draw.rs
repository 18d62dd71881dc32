use nae::draw::{Color, Draw, DrawError, DrawPath, Pipeline, Texture};
use nae::transform::{Matrix, TransformStack};

fn frame() -> Draw {
    let mut d = Draw::new();
    d.begin(Some(Color::new(25, 50, 75, 255)));
    d
}

#[test]
fn push_scale_translate_pop_restores_the_transform() {
    let mut t = TransformStack::new();
    t.translate(3, 4);
    let before = t.current();
    t.push();
    t.scale(2, 2);
    t.translate(10, 0);
    assert_eq!(t.current(), Matrix { a: 2, b: 0, c: 0, d: 2, e: 23, f: 4 });
    t.pop();
    assert_eq!(t.current(), before);
    assert_eq!(t.depth(), 1);
}

#[test]
fn push_matrix_composes_with_the_parent() {
    let mut t = TransformStack::new();
    t.scale(3, 3);
    t.push_matrix(Matrix::translation(1, 2));
    assert_eq!(t.current().apply((0, 0)), (3, 6));
    t.pop();
    assert_eq!(t.current().apply((1, 1)), (3, 3));
}

#[test]
fn matrix_compose_and_apply() {
    let m = Matrix { a: 1, b: 2, c: 3, d: 4, e: 5, f: 6 };
    let n = Matrix { a: 2, b: 0, c: 1, d: -1, e: 7, f: 3 };
    let k = m.compose(&n);
    assert_eq!(k, Matrix { a: 2, b: 4, c: -2, d: -2, e: 21, f: 32 });
    assert_eq!(k.apply((1, 1)), m.apply(n.apply((1, 1))));
}

#[test]
fn rect_under_scale_then_translate() {
    let mut d = frame();
    d.scale(2, 2);
    d.translate(10, 10);
    assert_eq!(d.rect(0, 0, 50, 50), Ok(()));
    let f = d.end();
    assert_eq!(f.batches.len(), 1);
    // The translation acts in the scaled frame: each corner c maps to 2 * (c + (10, 10)).
    assert_eq!(f.batches[0].vertices, vec![(20, 20), (120, 20), (120, 120), (20, 120)]);
    assert_eq!(f.batches[0].indices, vec![0, 1, 2, 0, 2, 3]);
}

#[test]
fn batches_keep_drawing_order() {
    let mut d = frame();
    d.set_color(Color::new(255, 0, 0, 128));
    d.rect(0, 0, 10, 10).unwrap();
    d.set_color(Color::new(0, 0, 255, 128));
    d.triangle(5, 5, 15, 5, 5, 15).unwrap();
    let f = d.end();
    assert_eq!(f.clear, Some(Color::new(25, 50, 75, 255)));
    assert_eq!(f.batches.len(), 2);
    assert_eq!(f.batches[0].color, Color::new(255, 0, 0, 128));
    assert_eq!(f.batches[0].vertices.len(), 4);
    assert_eq!(f.batches[1].color, Color::new(0, 0, 255, 128));
    assert_eq!(f.batches[1].vertices, vec![(5, 5), (15, 5), (5, 15)]);
}

#[test]
fn global_alpha_scales_the_color_alpha() {
    let mut d = frame();
    d.set_color(Color::new(10, 20, 30, 255));
    d.set_alpha(128);
    d.triangle(0, 0, 1, 0, 0, 1).unwrap();
    d.set_color(Color::new(10, 20, 30, 100));
    d.set_alpha(51);
    d.triangle(0, 0, 1, 0, 0, 1).unwrap();
    let f = d.end();
    assert_eq!(f.batches[0].color, Color::new(10, 20, 30, 128));
    assert_eq!(f.batches[1].color, Color::new(10, 20, 30, 20));
    assert_eq!(Color::new(1, 2, 3, 4).with_alpha(9), Color::new(1, 2, 3, 9));
}

#[test]
fn begin_resets_transform_and_keeps_paint() {
    let mut d = Draw::new();
    d.set_color(Color::new(1, 2, 3, 4));
    d.set_alpha(7);
    d.begin(None);
    d.scale(5, 5);
    d.push();
    let f = d.end();
    assert_eq!(f.clear, None);
    assert!(f.batches.is_empty());
    d.begin(None);
    assert_eq!(d.transform().depth(), 1);
    assert_eq!(d.transform().current(), Matrix::identity());
    assert_eq!(d.color(), Color::new(1, 2, 3, 4));
    assert_eq!(d.alpha(), 7);
    let f = d.end();
    assert!(f.batches.is_empty());
}

#[test]
fn out_of_range_geometry_is_refused() {
    let mut d = frame();
    d.scale(1000, 1000);
    assert_eq!(d.rect(0, 0, 5_000_000, 10), Err(DrawError::OutOfRange));
    let f = d.end();
    assert!(f.batches.is_empty());
}

#[test]
fn raw_geometry_is_checked() {
    let mut d = frame();
    let v = vec![(0, 0), (10, 0), (0, 10)];
    assert_eq!(d.geometry(&v, &vec![0, 1, 3]), Err(DrawError::InvalidMesh));
    assert_eq!(d.geometry(&v, &vec![0, 1]), Err(DrawError::InvalidMesh));
    d.translate(1, 1);
    assert_eq!(d.geometry(&v, &vec![0, 1, 2]), Ok(()));
    let f = d.end();
    assert_eq!(f.batches.len(), 1);
    assert_eq!(f.batches[0].vertices, vec![(1, 1), (11, 1), (1, 11)]);
}

#[test]
fn line_is_a_stroked_segment() {
    let mut d = frame();
    d.translate(0, 50);
    d.line(0, 0, 100, 0, 10).unwrap();
    let f = d.end();
    let v = &f.batches[0].vertices;
    assert!(!v.is_empty());
    assert_eq!(v.iter().map(|p| p.1).min(), Some(45));
    assert_eq!(v.iter().map(|p| p.1).max(), Some(55));
    assert_eq!(v.iter().map(|p| p.0).min(), Some(0));
    assert_eq!(v.iter().map(|p| p.0).max(), Some(100));
}

#[test]
fn draw_path_fluent_stroke_and_fill() {
    let mut d = frame();
    DrawPath::new(0, 0)
        .line_to(100, 0)
        .line_to(100, 100)
        .end(false)
        .stroke(&mut d, 10)
        .unwrap();
    DrawPath::new(0, 0)
        .line_to(40, 0)
        .quadratic_bezier_to((60, 20), (40, 40))
        .cubic_bezier_to((30, 50), (10, 50), (0, 40))
        .end(true)
        .fill(&mut d)
        .unwrap();
    let f = d.end();
    assert_eq!(f.batches.len(), 2);
    for p in &f.batches[0].vertices {
        assert!(-5 <= p.0 && p.0 <= 105 && -5 <= p.1 && p.1 <= 105);
    }
    assert!(f.batches[1].indices.len() >= 3);
    assert_eq!(f.batches[1].indices.len() % 3, 0);
}

#[test]
fn circle_fill_covers_its_disc() {
    let mut d = frame();
    d.circle(200, 200, 50).unwrap();
    d.stroke_circle(200, 200, 70, 10).unwrap();
    d.circle(10, 10, 0).unwrap();
    let f = d.end();
    assert_eq!(f.batches.len(), 3);
    let fill = &f.batches[0];
    assert!(fill.indices.len() >= 3 && fill.indices.len() % 3 == 0);
    for p in &fill.vertices {
        let (dx, dy) = ((p.0 - 200) as i64, (p.1 - 200) as i64);
        assert!(dx * dx + dy * dy <= 52 * 52);
    }
    assert_eq!(fill.vertices.iter().map(|p| p.0).min(), Some(150));
    assert_eq!(fill.vertices.iter().map(|p| p.0).max(), Some(250));
    let ring = &f.batches[1];
    for p in &ring.vertices {
        let (dx, dy) = ((p.0 - 200) as i64, (p.1 - 200) as i64);
        let r2 = dx * dx + dy * dy;
        assert!(62 * 62 <= r2 && r2 <= 78 * 78, "{:?}", p);
    }
    assert!(f.batches[2].vertices.is_empty() && f.batches[2].indices.is_empty());
}

#[test]
fn images_are_textured_batches_in_order() {
    let logo = Texture { id: 7, width: 64, height: 32 };
    let mut d = frame();
    d.set_color(Color::new(255, 255, 255, 255));
    d.set_alpha(128);
    d.image(&logo, 10, 20).unwrap();
    d.rect(0, 0, 5, 5).unwrap();
    d.image_crop(&logo, 0, 0, 32, 0, 32, 16).unwrap();
    let f = d.end();
    assert_eq!(f.batches.len(), 3);
    let whole = &f.batches[0];
    assert_eq!(whole.pipeline, Pipeline::Image { texture: 7 });
    assert_eq!(whole.vertices, vec![(10, 20), (74, 20), (74, 52), (10, 52)]);
    assert_eq!(whole.texcoords, vec![(0, 0), (64, 0), (64, 32), (0, 32)]);
    assert_eq!(whole.color, Color::new(255, 255, 255, 128));
    assert_eq!(f.batches[1].pipeline, Pipeline::Color);
    assert!(f.batches[1].texcoords.is_empty());
    let crop = &f.batches[2];
    assert_eq!(crop.vertices, vec![(0, 0), (32, 0), (32, 16), (0, 16)]);
    assert_eq!(crop.texcoords, vec![(32, 0), (64, 0), (64, 16), (32, 16)]);
    assert_eq!(crop.indices, vec![0, 1, 2, 0, 2, 3]);
}
