use vstd::prelude::*;

use crate::color::Rgba8;
use crate::geometry::{Band, Frame, Point, Rect};

verus! {

/// A shape vertex: a position and a packed color.
#[derive(Clone, Copy, Debug, PartialEq)]
pub struct Vertex<T> {
    pub position: Point<T>,
    pub color: Rgba8,
}

impl<T: Copy> Vertex<T> {
    pub fn new(position: Point<T>, color: Rgba8) -> (v: Vertex<T>)
        ensures
            v == vertex(position, color),
    {
        Vertex { position, color }
    }
}

pub open spec fn vertex<T>(p: Point<T>, c: Rgba8) -> Vertex<T> {
    Vertex { position: p, color: c }
}

/// How the interior of a closed shape is painted.
#[derive(Clone, Copy, Debug, PartialEq, Eq)]
pub enum Fill {
    Empty,
    Solid(Rgba8),
    /// A two-color gradient. It is recognised but cannot be tessellated:
    /// asking for it is an error.
    Gradient(Rgba8, Rgba8),
}

/// Why a shape could not be tessellated.
#[derive(Clone, Copy, Debug, PartialEq, Eq)]
pub enum TessError {
    /// The shape asks for a gradient fill, which is not implemented.
    GradientFill,
}

/// The stroke of a rectangle: its four border bands, painted in one color.
#[derive(Clone, Copy, Debug, PartialEq)]
pub struct Border<T> {
    pub frame: Frame<T>,
    pub color: Rgba8,
}

/// The stroke of a circle: the points of its outer boundary, painted in one
/// color. The inner boundary is the circle's rim.
#[derive(Clone, Debug, PartialEq)]
pub struct Ring<T> {
    pub outer: Vec<Point<T>>,
    pub color: Rgba8,
}

/// A shape, with the geometry of its stroke and fill already placed.
///
/// A circle's `rim` holds `n + 1` points for `n` sides, the last one equal to
/// the first; it bounds the filled area. Without a stroke it is the circle
/// itself, with one it is the inner edge of the `ring`.
#[derive(Clone, Debug, PartialEq)]
pub enum Shape<T> {
    Line { band: Band<T>, color: Rgba8 },
    Rectangle { border: Option<Border<T>>, inner: Rect<T>, fill: Fill },
    Circle { center: Point<T>, rim: Vec<Point<T>>, ring: Option<Ring<T>>, fill: Fill },
}

/// The two triangles that cover a band: (start_a, start_b, end_a) and
/// (end_a, start_b, end_b).
pub open spec fn band_vertices<T>(b: Band<T>, c: Rgba8) -> Seq<Vertex<T>> {
    seq![
        vertex(b.start_a, c),
        vertex(b.start_b, c),
        vertex(b.end_a, c),
        vertex(b.end_a, c),
        vertex(b.start_b, c),
        vertex(b.end_b, c),
    ]
}

/// The four border bands in the order left, right, top, bottom.
pub open spec fn frame_vertices<T>(f: Frame<T>, c: Rgba8) -> Seq<Vertex<T>> {
    band_vertices(f.left, c) + band_vertices(f.right, c) + band_vertices(f.top, c)
        + band_vertices(f.bottom, c)
}

/// The two triangles that cover a rectangle: (x1 y1, x2 y1, x2 y2) and
/// (x1 y1, x1 y2, x2 y2).
pub open spec fn rect_vertices<T>(r: Rect<T>, c: Rgba8) -> Seq<Vertex<T>> {
    seq![
        vertex(Point { x: r.x1, y: r.y1 }, c),
        vertex(Point { x: r.x2, y: r.y1 }, c),
        vertex(Point { x: r.x2, y: r.y2 }, c),
        vertex(Point { x: r.x1, y: r.y1 }, c),
        vertex(Point { x: r.x1, y: r.y2 }, c),
        vertex(Point { x: r.x2, y: r.y2 }, c),
    ]
}

/// The quad between the inner and outer boundary on side `i`.
pub open spec fn ring_side<T>(inner: Seq<Point<T>>, outer: Seq<Point<T>>, c: Rgba8, i: int) -> Seq<
    Vertex<T>,
> {
    seq![
        vertex(inner[i], c),
        vertex(outer[i], c),
        vertex(outer[i + 1], c),
        vertex(inner[i], c),
        vertex(outer[i + 1], c),
        vertex(inner[i + 1], c),
    ]
}

/// The quads of the first `n` sides of a ring, in order.
pub open spec fn ring_vertices<T>(
    inner: Seq<Point<T>>,
    outer: Seq<Point<T>>,
    c: Rgba8,
    n: nat,
) -> Seq<Vertex<T>>
    decreases n,
{
    if n == 0 {
        seq![]
    } else {
        ring_vertices(inner, outer, c, (n - 1) as nat) + ring_side(inner, outer, c, n - 1)
    }
}

/// The triangle from the center over side `i` of the rim.
pub open spec fn fan_side<T>(center: Point<T>, rim: Seq<Point<T>>, c: Rgba8, i: int) -> Seq<
    Vertex<T>,
> {
    seq![vertex(center, c), vertex(rim[i], c), vertex(rim[i + 1], c)]
}

/// The triangle fan over the first `n` sides of the rim, in order.
pub open spec fn fan_vertices<T>(center: Point<T>, rim: Seq<Point<T>>, c: Rgba8, n: nat) -> Seq<
    Vertex<T>,
>
    decreases n,
{
    if n == 0 {
        seq![]
    } else {
        fan_vertices(center, rim, c, (n - 1) as nat) + fan_side(center, rim, c, n - 1)
    }
}

/// What a fill adds over an area: nothing, or the given vertices in its color.
pub open spec fn fill_vertices<T>(fill: Fill, solid: spec_fn(Rgba8) -> Seq<Vertex<T>>) -> Seq<
    Vertex<T>,
> {
    match fill {
        Fill::Solid(c) => solid(c),
        _ => seq![],
    }
}

impl<T> Shape<T> {
    /// A circle has at least one rim point, and a ring as many outer points as
    /// rim points.
    pub open spec fn wf(&self) -> bool {
        match self {
            Shape::Circle { rim, ring, .. } => rim@.len() >= 1 && match ring {
                Some(g) => g.outer@.len() == rim@.len(),
                None => true,
            },
            _ => true,
        }
    }

    /// Number of sides of a circle.
    pub open spec fn sides(&self) -> nat {
        match self {
            Shape::Circle { rim, .. } => (rim@.len() - 1) as nat,
            _ => 0,
        }
    }

    /// The shape can be tessellated: it asks for no gradient.
    pub open spec fn supported(&self) -> bool {
        match self {
            Shape::Line { .. } => true,
            Shape::Rectangle { fill, .. } => !(fill is Gradient),
            Shape::Circle { fill, .. } => !(fill is Gradient),
        }
    }

    /// The stroke's vertices, then the fill's.
    pub open spec fn vertices(&self) -> Seq<Vertex<T>> {
        match self {
            Shape::Line { band, color } => band_vertices(*band, *color),
            Shape::Rectangle { border, inner, fill } => {
                let stroke = match border {
                    Some(b) => frame_vertices(b.frame, b.color),
                    None => seq![],
                };
                stroke + fill_vertices(*fill, |c: Rgba8| rect_vertices(*inner, c))
            },
            Shape::Circle { center, rim, ring, fill } => {
                let n = self.sides();
                let stroke = match ring {
                    Some(g) => ring_vertices(rim@, g.outer@, g.color, n),
                    None => seq![],
                };
                stroke + fill_vertices(*fill, |c: Rgba8| fan_vertices(*center, rim@, c, n))
            },
        }
    }
}

fn push_band<T: Copy>(out: &mut Vec<Vertex<T>>, b: Band<T>, c: Rgba8)
    ensures
        final(out)@ == old(out)@ + band_vertices(b, c),
{
    out.push(Vertex::new(b.start_a, c));
    out.push(Vertex::new(b.start_b, c));
    out.push(Vertex::new(b.end_a, c));
    out.push(Vertex::new(b.end_a, c));
    out.push(Vertex::new(b.start_b, c));
    out.push(Vertex::new(b.end_b, c));
    assert(final(out)@ =~= old(out)@ + band_vertices(b, c));
}

fn push_rect<T: Copy>(out: &mut Vec<Vertex<T>>, r: Rect<T>, c: Rgba8)
    ensures
        final(out)@ == old(out)@ + rect_vertices(r, c),
{
    out.push(Vertex::new(Point::new(r.x1, r.y1), c));
    out.push(Vertex::new(Point::new(r.x2, r.y1), c));
    out.push(Vertex::new(Point::new(r.x2, r.y2), c));
    out.push(Vertex::new(Point::new(r.x1, r.y1), c));
    out.push(Vertex::new(Point::new(r.x1, r.y2), c));
    out.push(Vertex::new(Point::new(r.x2, r.y2), c));
    assert(final(out)@ =~= old(out)@ + rect_vertices(r, c));
}

/// The two triangles that cover a stroked segment.
pub fn triangulate_line<T: Copy>(band: Band<T>, color: Rgba8) -> (r: Vec<Vertex<T>>)
    ensures
        r@ == band_vertices(band, color),
        r@.len() == 6,
{
    let mut out: Vec<Vertex<T>> = Vec::new();
    push_band(&mut out, band, color);
    assert(out@ =~= band_vertices(band, color));
    out
}

/// The four border bands of a rectangle, left, right, top, bottom.
pub fn triangulate_frame<T: Copy>(frame: Frame<T>, color: Rgba8) -> (r: Vec<Vertex<T>>)
    ensures
        r@ == frame_vertices(frame, color),
        r@.len() == 24,
{
    let mut out: Vec<Vertex<T>> = Vec::new();
    push_band(&mut out, frame.left, color);
    push_band(&mut out, frame.right, color);
    push_band(&mut out, frame.top, color);
    push_band(&mut out, frame.bottom, color);
    assert(out@ =~= frame_vertices(frame, color));
    out
}

/// Appends the quads between `inner` and `outer` over the first `n` sides.
fn push_ring<T: Copy>(
    out: &mut Vec<Vertex<T>>,
    inner: &Vec<Point<T>>,
    outer: &Vec<Point<T>>,
    c: Rgba8,
    n: usize,
)
    requires
        n < inner@.len(),
        outer@.len() == inner@.len(),
    ensures
        final(out)@ == old(out)@ + ring_vertices(inner@, outer@, c, n as nat),
{
    let ghost start = out@;
    let mut i: usize = 0;
    while i < n
        invariant
            i <= n,
            n < inner@.len(),
            outer@.len() == inner@.len(),
            out@ == start + ring_vertices(inner@, outer@, c, i as nat),
        decreases n - i,
    {
        let a = inner[i];
        let b = outer[i];
        let b2 = outer[i + 1];
        let a2 = inner[i + 1];
        out.push(Vertex::new(a, c));
        out.push(Vertex::new(b, c));
        out.push(Vertex::new(b2, c));
        out.push(Vertex::new(a, c));
        out.push(Vertex::new(b2, c));
        out.push(Vertex::new(a2, c));
        proof {
            let next = ring_vertices(inner@, outer@, c, (i + 1) as nat);
            assert(next == ring_vertices(inner@, outer@, c, i as nat) + ring_side(
                inner@,
                outer@,
                c,
                i as int,
            ));
            assert(out@ =~= start + next);
        }
        i = i + 1;
    }
}

/// Appends the triangle fan from `center` over the first `n` sides of `rim`.
fn push_fan<T: Copy>(out: &mut Vec<Vertex<T>>, center: Point<T>, rim: &Vec<Point<T>>, c: Rgba8, n: usize)
    requires
        n < rim@.len(),
    ensures
        final(out)@ == old(out)@ + fan_vertices(center, rim@, c, n as nat),
{
    let ghost start = out@;
    let mut i: usize = 0;
    while i < n
        invariant
            i <= n,
            n < rim@.len(),
            out@ == start + fan_vertices(center, rim@, c, i as nat),
        decreases n - i,
    {
        let p = rim[i];
        let q = rim[i + 1];
        out.push(Vertex::new(center, c));
        out.push(Vertex::new(p, c));
        out.push(Vertex::new(q, c));
        proof {
            let next = fan_vertices(center, rim@, c, (i + 1) as nat);
            assert(next == fan_vertices(center, rim@, c, i as nat) + fan_side(center, rim@, c, i as int));
            assert(out@ =~= start + next);
        }
        i = i + 1;
    }
}

/// A ring of `n` sides has six vertices per side.
pub proof fn lemma_ring_len<T>(inner: Seq<Point<T>>, outer: Seq<Point<T>>, c: Rgba8, n: nat)
    ensures
        ring_vertices(inner, outer, c, n).len() == 6 * n,
    decreases n,
{
    if n > 0 {
        lemma_ring_len(inner, outer, c, (n - 1) as nat);
    }
}

/// A fan of `n` sides has three vertices per side.
pub proof fn lemma_fan_len<T>(center: Point<T>, rim: Seq<Point<T>>, c: Rgba8, n: nat)
    ensures
        fan_vertices(center, rim, c, n).len() == 3 * n,
    decreases n,
{
    if n > 0 {
        lemma_fan_len(center, rim, c, (n - 1) as nat);
    }
}

/// A stroked segment becomes exactly six vertices in the stroke's color: two
/// triangles that share the diagonal from `start_b` to `end_a`, the first
/// closed by `start_a`, the second by `end_b`, so that together they cover
/// the band's four corners.
pub proof fn law_line_is_band<T>(band: Band<T>, color: Rgba8)
    ensures
        ({
            let v = (Shape::Line { band, color }).vertices();
            &&& v.len() == 6
            &&& forall|i: int| 0 <= i < 6 ==> (#[trigger] v[i]).color == color
            &&& v[0].position == band.start_a
            &&& v[1].position == band.start_b && v[4].position == band.start_b
            &&& v[2].position == band.end_a && v[3].position == band.end_a
            &&& v[5].position == band.end_b
        }),
{
}

/// A stroked rectangle has 24 stroke vertices, six per border; a solid fill
/// adds six more; a gradient fill cannot be tessellated.
pub proof fn law_rectangle_counts<T>(border: Border<T>, inner: Rect<T>, fill: Fill)
    ensures
        ({
            let s = Shape::Rectangle { border: Some(border), inner, fill };
            &&& fill is Empty ==> s.vertices().len() == 24
            &&& fill is Solid ==> s.vertices().len() == 30
            &&& fill is Gradient <==> !s.supported()
        }),
{
}

/// A circle of `n` sides: without a stroke and with a solid fill it has `3n`
/// vertices, all of the fill; with a stroke and no fill it has `6n`, all of
/// the stroke.
pub proof fn law_circle_counts<T>(s: Shape<T>)
    requires
        s is Circle,
        s.wf(),
    ensures
        ({
            let (ring, fill) = match s {
                Shape::Circle { ring, fill, .. } => (ring, fill),
                _ => (None, Fill::Empty),
            };
            &&& ring is None && fill is Solid ==> s.vertices().len() == 3 * s.sides()
            &&& ring is Some && fill is Empty ==> s.vertices().len() == 6 * s.sides()
        }),
{
    match s {
        Shape::Circle { center, rim, ring, fill } => {
            if let Fill::Solid(c) = fill {
                lemma_fan_len(center, rim@, c, s.sides());
            }
            if let Some(g) = ring {
                lemma_ring_len(rim@, g.outer@, g.color, s.sides());
            }
        },
        _ => {},
    }
}

impl<T: Copy> Shape<T> {
    /// Tessellates the shape into triangles: the stroke first, then the fill.
    /// A gradient fill is refused and yields no vertices.
    pub fn triangulate(&self) -> (r: Result<Vec<Vertex<T>>, TessError>)
        requires
            self.wf(),
        ensures
            r is Ok <==> self.supported(),
            r matches Ok(v) ==> v@ == self.vertices(),
            r matches Err(e) ==> e == TessError::GradientFill,
    {
        match self {
            Shape::Line { band, color } => Ok(triangulate_line(*band, *color)),
            Shape::Rectangle { border, inner, fill } => {
                if let Fill::Gradient(_, _) = fill {
                    return Err(TessError::GradientFill);
                }
                let mut out: Vec<Vertex<T>> = match border {
                    Some(b) => triangulate_frame(b.frame, b.color),
                    None => Vec::new(),
                };
                if let Fill::Solid(c) = fill {
                    push_rect(&mut out, *inner, *c);
                }
                assert(out@ =~= self.vertices());
                Ok(out)
            },
            Shape::Circle { center, rim, ring, fill } => {
                if let Fill::Gradient(_, _) = fill {
                    return Err(TessError::GradientFill);
                }
                let n: usize = rim.len() - 1;
                let mut out: Vec<Vertex<T>> = Vec::new();
                match ring {
                    Some(g) => {
                        push_ring(&mut out, rim, &g.outer, g.color, n);
                    },
                    None => {},
                }
                if let Fill::Solid(c) = fill {
                    push_fan(&mut out, *center, rim, *c, n);
                }
                assert(out@ =~= self.vertices());
                Ok(out)
            },
        }
    }
}

} // verus!
