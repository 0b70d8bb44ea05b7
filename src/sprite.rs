use vstd::prelude::*;

use crate::color::Rgba8;
use crate::geometry::{Point, Rect};

verus! {

/// A sprite vertex: a position, a texture coordinate and a tint.
#[derive(Clone, Copy, Debug, PartialEq)]
pub struct Vertex<T> {
    pub position: Point<T>,
    pub uv: Point<T>,
    pub color: Rgba8,
}

pub open spec fn vertex<T>(x: T, y: T, u: T, v: T, c: Rgba8) -> Vertex<T> {
    Vertex { position: Point { x, y }, uv: Point { x: u, y: v }, color: c }
}

/// One entry of a sprite batch: where it is taken from in the atlas (in
/// pixels), where it is drawn, its tint, and how often the source repeats
/// along each axis.
#[derive(Clone, Copy, Debug, PartialEq)]
pub struct Sprite<T> {
    pub src: Rect<T>,
    pub dst: Rect<T>,
    pub tint: Rgba8,
    pub repeat: Point<T>,
}

/// The two triangles that cover `dst`, textured with `uv`. The texture's
/// vertical axis is flipped: the corner at (x1, y1) samples (u.x1, u.y2).
pub open spec fn quad_vertices<T>(dst: Rect<T>, uv: Rect<T>, c: Rgba8) -> Seq<Vertex<T>> {
    seq![
        vertex(dst.x1, dst.y1, uv.x1, uv.y2, c),
        vertex(dst.x2, dst.y1, uv.x2, uv.y2, c),
        vertex(dst.x2, dst.y2, uv.x2, uv.y1, c),
        vertex(dst.x1, dst.y1, uv.x1, uv.y2, c),
        vertex(dst.x1, dst.y2, uv.x1, uv.y1, c),
        vertex(dst.x2, dst.y2, uv.x2, uv.y1, c),
    ]
}

/// The texture rectangle that the quad starting at vertex `6 * i` samples.
pub open spec fn quad_uv<T>(vs: Seq<Vertex<T>>, i: int) -> Rect<T> {
    Rect {
        x1: vs[6 * i].uv.x,
        y1: vs[6 * i + 2].uv.y,
        x2: vs[6 * i + 2].uv.x,
        y2: vs[6 * i].uv.y,
    }
}

/// The two triangles of one sprite, given its texture rectangle.
pub fn quad<T: Copy>(dst: Rect<T>, uv: Rect<T>, c: Rgba8) -> (r: Vec<Vertex<T>>)
    ensures
        r@ == quad_vertices(dst, uv, c),
{
    let mut out: Vec<Vertex<T>> = Vec::new();
    push_quad(&mut out, dst, uv, c);
    assert(out@ =~= quad_vertices(dst, uv, c));
    out
}

fn push_quad<T: Copy>(out: &mut Vec<Vertex<T>>, dst: Rect<T>, uv: Rect<T>, c: Rgba8)
    ensures
        final(out)@ == old(out)@ + quad_vertices(dst, uv, c),
{
    out.push(Vertex { position: Point::new(dst.x1, dst.y1), uv: Point::new(uv.x1, uv.y2), color: c });
    out.push(Vertex { position: Point::new(dst.x2, dst.y1), uv: Point::new(uv.x2, uv.y2), color: c });
    out.push(Vertex { position: Point::new(dst.x2, dst.y2), uv: Point::new(uv.x2, uv.y1), color: c });
    out.push(Vertex { position: Point::new(dst.x1, dst.y1), uv: Point::new(uv.x1, uv.y2), color: c });
    out.push(Vertex { position: Point::new(dst.x1, dst.y2), uv: Point::new(uv.x1, uv.y1), color: c });
    out.push(Vertex { position: Point::new(dst.x2, dst.y2), uv: Point::new(uv.x2, uv.y1), color: c });
    assert(final(out)@ =~= old(out)@ + quad_vertices(dst, uv, c));
}

/// An ordered batch of sprites drawn from one texture atlas of `w` by `h`
/// pixels.
#[derive(Clone)]
pub struct TextureView<T> {
    pub w: u32,
    pub h: u32,
    views: Vec<Sprite<T>>,
}

impl<T> View for TextureView<T> {
    type V = Seq<Sprite<T>>;

    closed spec fn view(&self) -> Seq<Sprite<T>> {
        self.views@
    }
}

impl<T> TextureView<T> {
    /// The atlas width in pixels.
    pub closed spec fn width(&self) -> u32 {
        self.w
    }

    /// The atlas height in pixels.
    pub closed spec fn height(&self) -> u32 {
        self.h
    }
}

impl<T: Copy> TextureView<T> {
    pub fn new(w: u32, h: u32) -> (r: TextureView<T>)
        ensures
            r.width() == w,
            r.height() == h,
            r@ == Seq::<Sprite<T>>::empty(),
    {
        TextureView { w, h, views: Vec::new() }
    }

    /// A batch that holds one sprite.
    pub fn singleton(w: u32, h: u32, src: Rect<T>, dst: Rect<T>, rgba: Rgba8, rep: Point<T>) -> (r:
        TextureView<T>)
        ensures
            r.width() == w,
            r.height() == h,
            r@ == seq![Sprite { src, dst, tint: rgba, repeat: rep }],
    {
        let mut view = TextureView::new(w, h);
        view.add(src, dst, rgba, rep);
        assert(view@ =~= seq![Sprite { src, dst, tint: rgba, repeat: rep }]);
        view
    }

    /// Appends a sprite after those already in the batch.
    pub fn add(&mut self, src: Rect<T>, dst: Rect<T>, rgba: Rgba8, rep: Point<T>)
        ensures
            final(self).width() == old(self).width(),
            final(self).height() == old(self).height(),
            final(self)@ == old(self)@.push(Sprite { src, dst, tint: rgba, repeat: rep }),
    {
        self.views.push(Sprite { src, dst, tint: rgba, repeat: rep });
    }

    /// The number of sprites in the batch.
    pub fn size(&self) -> (r: usize)
        ensures
            r == self@.len(),
    {
        self.views.len()
    }

    /// Moves every sprite's destination by `shift`; sources, tints and
    /// repeats stay as they are.
    pub fn offset<F: Fn(Rect<T>) -> Rect<T>>(&mut self, shift: F)
        requires
            forall|r: Rect<T>| call_requires(shift, (r,)),
        ensures
            final(self).width() == old(self).width(),
            final(self).height() == old(self).height(),
            final(self)@.len() == old(self)@.len(),
            forall|i: int|
                0 <= i < old(self)@.len() ==> {
                    let a = old(self)@[i];
                    let b = #[trigger] final(self)@[i];
                    &&& b.src == a.src
                    &&& b.tint == a.tint
                    &&& b.repeat == a.repeat
                    &&& call_ensures(shift, (a.dst,), b.dst)
                },
    {
        let ghost before = self@;
        let mut i: usize = 0;
        while i < self.views.len()
            invariant
                forall|r: Rect<T>| call_requires(shift, (r,)),
                self.width() == old(self).width(),
                self.height() == old(self).height(),
                before == old(self)@,
                self@.len() == before.len(),
                i <= before.len(),
                forall|k: int| i <= k < before.len() ==> #[trigger] self@[k] == before[k],
                forall|k: int|
                    0 <= k < i ==> {
                        let a = before[k];
                        let b = #[trigger] self@[k];
                        &&& b.src == a.src
                        &&& b.tint == a.tint
                        &&& b.repeat == a.repeat
                        &&& call_ensures(shift, (a.dst,), b.dst)
                    },
            decreases before.len() - i,
        {
            let s = self.views[i];
            let moved = Sprite { src: s.src, dst: shift(s.dst), tint: s.tint, repeat: s.repeat };
            self.views.set(i, moved);
            i = i + 1;
        }
    }

    /// Tessellates every sprite, in the order of insertion, into the two
    /// triangles that cover its destination. `texcoords` maps the atlas size
    /// and a sprite to the texture rectangle that the sprite samples.
    pub fn finish<F: Fn(u32, u32, Sprite<T>) -> Rect<T>>(self, texcoords: F) -> (r: Vec<Vertex<T>>)
        requires
            forall|s: Sprite<T>| call_requires(texcoords, (self.width(), self.height(), s)),
        ensures
            r@.len() == 6 * self@.len(),
            forall|i: int|
                0 <= i < self@.len() ==> {
                    let s = #[trigger] self@[i];
                    &&& call_ensures(texcoords, (self.width(), self.height(), s), quad_uv(r@, i))
                    &&& r@.subrange(6 * i, 6 * i + 6) == quad_vertices(s.dst, quad_uv(r@, i), s.tint)
                },
    {
        let mut buf: Vec<Vertex<T>> = Vec::new();
        let mut i: usize = 0;
        while i < self.views.len()
            invariant
                forall|s: Sprite<T>| call_requires(texcoords, (self.width(), self.height(), s)),
                i <= self@.len(),
                buf@.len() == 6 * i,
                forall|k: int|
                    0 <= k < i ==> {
                        let s = #[trigger] self@[k];
                        &&& call_ensures(texcoords, (self.width(), self.height(), s), quad_uv(buf@, k))
                        &&& buf@.subrange(6 * k, 6 * k + 6) == quad_vertices(
                            s.dst,
                            quad_uv(buf@, k),
                            s.tint,
                        )
                    },
            decreases self@.len() - i,
        {
            let s = self.views[i];
            let uv = texcoords(self.w, self.h, s);
            let ghost prev = buf@;
            push_quad(&mut buf, s.dst, uv, s.tint);
            proof {
                assert forall|k: int| 0 <= k < i + 1 implies {
                    let s = #[trigger] self@[k];
                    &&& call_ensures(texcoords, (self.width(), self.height(), s), quad_uv(buf@, k))
                    &&& buf@.subrange(6 * k, 6 * k + 6) == quad_vertices(
                        s.dst,
                        quad_uv(buf@, k),
                        s.tint,
                    )
                } by {
                    if k < i {
                        assert(buf@.subrange(6 * k, 6 * k + 6) =~= prev.subrange(6 * k, 6 * k + 6));
                        assert(quad_uv(buf@, k) == quad_uv(prev, k));
                    } else {
                        assert(buf@.subrange(6 * k, 6 * k + 6) =~= quad_vertices(s.dst, uv, s.tint));
                        assert(quad_uv(buf@, k) == uv);
                    }
                }
            }
            i = i + 1;
        }
        buf
    }
}

} // verus!
