use rgx::batch::ShapeView;
use rgx::color::Rgba8;
use rgx::geometry::{Band, Frame, Line, Point, Rect};
use rgx::shape::{triangulate_frame, triangulate_line, Border, Fill, Ring, Shape, TessError, Vertex};

/// The band of a segment stroked with `width`, placed as a renderer does it:
/// half the width on each side, along the segment's normal.
fn band_of(l: Line<f32>, width: f32) -> Band<f32> {
    let (dx, dy) = (l.p2.x - l.p1.x, l.p2.y - l.p1.y);
    let len = (dx * dx + dy * dy).sqrt();
    let (vx, vy) = (dx / len, dy / len);
    let wx = width / 2.0 * vy;
    let wy = width / 2.0 * vx;
    Band {
        start_a: Point::new(l.p1.x - wx, l.p1.y + wy),
        start_b: Point::new(l.p1.x + wx, l.p1.y - wy),
        end_a: Point::new(l.p2.x - wx, l.p2.y + wy),
        end_b: Point::new(l.p2.x + wx, l.p2.y - wy),
    }
}

fn frame_of(r: Rect<f32>, width: f32) -> Frame<f32> {
    let w = width / 2.0;
    Frame {
        left: band_of(Line::new(r.x1 + w, r.y1 + width, r.x1 + w, r.y2), width),
        right: band_of(Line::new(r.x2 - w, r.y1, r.x2 - w, r.y2 - width), width),
        top: band_of(Line::new(r.x1 + width, r.y2 - w, r.x2, r.y2 - w), width),
        bottom: band_of(Line::new(r.x1, r.y1 + w, r.x2 - width, r.y1 + w), width),
    }
}

fn circle_points(cx: f32, cy: f32, radius: f32, sides: u32) -> Vec<Point<f32>> {
    let mut out = Vec::new();
    for i in 0..=sides {
        let angle = i as f32 * ((2.0 * std::f32::consts::PI) / sides as f32);
        out.push(Point::new(cx + radius * angle.cos(), cy + radius * angle.sin()));
    }
    out
}

fn circle(sides: u32, stroke: Option<Rgba8>, fill: Fill) -> Shape<f32> {
    let outer = circle_points(50.0, 50.0, 20.0, sides);
    match stroke {
        Some(color) => Shape::Circle {
            center: Point::new(50.0, 50.0),
            rim: circle_points(50.0, 50.0, 16.0, sides),
            ring: Some(Ring { outer, color }),
            fill,
        },
        None => Shape::Circle { center: Point::new(50.0, 50.0), rim: outer, ring: None, fill },
    }
}

fn rectangle(width: f32, fill: Fill) -> Shape<f32> {
    let r = Rect::new(10.0, 10.0, 110.0, 60.0);
    Shape::Rectangle {
        border: Some(Border { frame: frame_of(r, width), color: Rgba8::black() }),
        inner: Rect::new(r.x1 + width, r.y1 + width, r.x2 - width, r.y2 - width),
        fill,
    }
}

fn distance_to_line(p: Point<f32>, l: Line<f32>) -> f32 {
    let (dx, dy) = (l.p2.x - l.p1.x, l.p2.y - l.p1.y);
    ((p.x - l.p1.x) * dy - (p.y - l.p1.y) * dx).abs() / (dx * dx + dy * dy).sqrt()
}

#[test]
fn line_gives_six_vertices_at_half_width() {
    let l = Line::new(0.0f32, 0.0, 30.0, 40.0);
    let band = band_of(l, 4.0);
    let vs = Shape::Line { band, color: Rgba8::red() }.triangulate().unwrap();
    assert_eq!(vs.len(), 6);
    for v in &vs {
        assert!((distance_to_line(v.position, l) - 2.0).abs() < 1e-4);
        assert_eq!(v.color, Rgba8::red());
    }
    assert_eq!(vs[0].position, band.start_a);
    assert_eq!(vs[1].position, band.start_b);
    assert_eq!(vs[2].position, band.end_a);
    assert_eq!(vs[3].position, band.end_a);
    assert_eq!(vs[4].position, band.start_b);
    assert_eq!(vs[5].position, band.end_b);
    assert_eq!(triangulate_line(band, Rgba8::red()), vs);
}

#[test]
fn line_triangles_lie_on_both_sides() {
    let l = Line::new(0.0f32, 0.0, 10.0, 0.0);
    let vs = triangulate_line(band_of(l, 2.0), Rgba8::white());
    let ys: Vec<f32> = vs.iter().map(|v| v.position.y).collect();
    assert_eq!(ys, vec![1.0, -1.0, 1.0, 1.0, -1.0, -1.0]);
    let xs: Vec<f32> = vs.iter().map(|v| v.position.x).collect();
    assert_eq!(xs, vec![0.0, 0.0, 10.0, 10.0, 0.0, 10.0]);
}

#[test]
fn stroked_rectangle_without_fill_has_24_vertices() {
    let vs = rectangle(2.0, Fill::Empty).triangulate().unwrap();
    assert_eq!(vs.len(), 24);
    assert!(vs.iter().all(|v| v.color == Rgba8::black()));
}

#[test]
fn stroked_rectangle_with_solid_fill_has_30_vertices() {
    let vs = rectangle(2.0, Fill::Solid(Rgba8::green())).triangulate().unwrap();
    assert_eq!(vs.len(), 30);
    let fill: Vec<(f32, f32)> = vs[24..].iter().map(|v| (v.position.x, v.position.y)).collect();
    assert_eq!(
        fill,
        vec![(12.0, 12.0), (108.0, 12.0), (108.0, 58.0), (12.0, 12.0), (12.0, 58.0), (108.0, 58.0)]
    );
    assert!(vs[24..].iter().all(|v| v.color == Rgba8::green()));
}

#[test]
fn rectangle_border_order_is_left_right_top_bottom() {
    let r = Rect::new(0.0f32, 0.0, 10.0, 10.0);
    let frame = frame_of(r, 2.0);
    let vs = triangulate_frame(frame, Rgba8::blue());
    assert_eq!(vs.len(), 24);
    assert_eq!(vs[0..6].to_vec(), triangulate_line(frame.left, Rgba8::blue()));
    assert_eq!(vs[6..12].to_vec(), triangulate_line(frame.right, Rgba8::blue()));
    assert_eq!(vs[12..18].to_vec(), triangulate_line(frame.top, Rgba8::blue()));
    assert_eq!(vs[18..24].to_vec(), triangulate_line(frame.bottom, Rgba8::blue()));
}

#[test]
fn unstroked_rectangle_with_solid_fill_has_6_vertices() {
    let s: Shape<f32> =
        Shape::Rectangle { border: None, inner: Rect::new(0.0, 0.0, 5.0, 5.0), fill: Fill::Solid(Rgba8::red()) };
    assert_eq!(s.triangulate().unwrap().len(), 6);
}

#[test]
fn rectangle_with_gradient_fails() {
    let s = rectangle(2.0, Fill::Gradient(Rgba8::red(), Rgba8::blue()));
    assert_eq!(s.triangulate(), Err(TessError::GradientFill));
}

#[test]
fn circle_without_stroke_with_solid_fill_has_3n_vertices() {
    let n: u32 = 12;
    let s = circle(n, None, Fill::Solid(Rgba8::red()));
    let vs = s.triangulate().unwrap();
    assert_eq!(vs.len(), 3 * n as usize);
    assert!(vs.iter().all(|v| v.color == Rgba8::red()));
    for t in 0..n as usize {
        assert_eq!(vs[3 * t].position, Point::new(50.0, 50.0));
    }
}

#[test]
fn circle_with_stroke_without_fill_has_6n_vertices() {
    let n: u32 = 7;
    let vs = circle(n, Some(Rgba8::blue()), Fill::Empty).triangulate().unwrap();
    assert_eq!(vs.len(), 6 * n as usize);
    assert!(vs.iter().all(|v| v.color == Rgba8::blue()));
}

#[test]
fn circle_with_stroke_and_fill_has_9n_vertices() {
    let n: u32 = 5;
    let vs = circle(n, Some(Rgba8::blue()), Fill::Solid(Rgba8::green())).triangulate().unwrap();
    assert_eq!(vs.len(), 9 * n as usize);
    assert!(vs[..30].iter().all(|v| v.color == Rgba8::blue()));
    assert!(vs[30..].iter().all(|v| v.color == Rgba8::green()));
}

#[test]
fn circle_ring_quad_layout() {
    let s = circle(4, Some(Rgba8::white()), Fill::Empty);
    let vs = s.triangulate().unwrap();
    if let Shape::Circle { rim, ring: Some(ring), .. } = &s {
        let expect = [rim[0], ring.outer[0], ring.outer[1], rim[0], ring.outer[1], rim[1]];
        for k in 0..6 {
            assert_eq!(vs[k].position, expect[k]);
        }
    } else {
        panic!("not a stroked circle");
    }
}

#[test]
fn circle_with_gradient_fails() {
    let s = circle(6, None, Fill::Gradient(Rgba8::red(), Rgba8::blue()));
    assert_eq!(s.triangulate(), Err(TessError::GradientFill));
}

#[test]
fn empty_shape_view_finishes_empty() {
    let view: ShapeView<f32> = ShapeView::new();
    assert_eq!(view.finish(), Ok(Vec::<Vertex<f32>>::new()));
}

#[test]
fn shape_view_keeps_insertion_order() {
    let a = Shape::Line { band: band_of(Line::new(0.0, 0.0, 5.0, 0.0), 1.0), color: Rgba8::red() };
    let b = circle(4, None, Fill::Solid(Rgba8::green()));
    let c = rectangle(1.0, Fill::Empty);
    let mut view = ShapeView::new();
    view.add(a.clone());
    view.add(b.clone());
    view.add(c.clone());
    let vs = view.finish().unwrap();
    assert_eq!(vs.len(), 6 + 12 + 24);
    assert!(vs[..6].iter().all(|v| v.color == Rgba8::red()));
    assert!(vs[6..18].iter().all(|v| v.color == Rgba8::green()));
    assert!(vs[18..].iter().all(|v| v.color == Rgba8::black()));
    let mut expect = a.triangulate().unwrap();
    expect.extend(b.triangulate().unwrap());
    expect.extend(c.triangulate().unwrap());
    assert_eq!(vs, expect);
}

#[test]
fn shape_view_with_gradient_fails() {
    let mut view = ShapeView::new();
    view.add(rectangle(1.0, Fill::Empty));
    view.add(circle(3, None, Fill::Gradient(Rgba8::red(), Rgba8::blue())));
    assert_eq!(view.finish(), Err(TessError::GradientFill));
}

#[test]
fn packed_color_constants() {
    assert_eq!(Rgba8::transparent(), Rgba8::new(0, 0, 0, 0));
    assert_eq!(Rgba8::white(), Rgba8::new(255, 255, 255, 255));
    assert_eq!(Rgba8::black(), Rgba8::new(0, 0, 0, 255));
    assert_eq!(Rgba8::red(), Rgba8::new(255, 0, 0, 255));
    assert_eq!(Rgba8::green(), Rgba8::new(0, 255, 0, 255));
    assert_eq!(Rgba8::blue(), Rgba8::new(0, 0, 255, 255));
    let c = Rgba8::new(1, 2, 3, 4);
    assert_eq!((c.r, c.g, c.b, c.a), (1, 2, 3, 4));
}
