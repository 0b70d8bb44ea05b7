use vstd::prelude::*;

use crate::shape::{Shape, TessError, Vertex};

verus! {

/// The vertices of a list of shapes, each shape's after those of the shapes
/// before it.
pub open spec fn batch_vertices<T>(shapes: Seq<Shape<T>>) -> Seq<Vertex<T>>
    decreases shapes.len(),
{
    if shapes.len() == 0 {
        seq![]
    } else {
        batch_vertices(shapes.drop_last()) + shapes.last().vertices()
    }
}

/// Every shape of the list can be tessellated.
pub open spec fn all_supported<T>(shapes: Seq<Shape<T>>) -> bool {
    forall|i: int| 0 <= i < shapes.len() ==> (#[trigger] shapes[i]).supported()
}

/// An empty batch has no vertices.
pub proof fn law_empty_batch<T>()
    ensures
        batch_vertices(Seq::<Shape<T>>::empty()) == Seq::<Vertex<T>>::empty(),
{
}

/// Batching keeps the order of insertion: the vertices of two runs of shapes
/// are those of the first run followed by those of the second.
pub proof fn law_batch_concat<T>(a: Seq<Shape<T>>, b: Seq<Shape<T>>)
    ensures
        batch_vertices(a + b) == batch_vertices(a) + batch_vertices(b),
    decreases b.len(),
{
    if b.len() == 0 {
        assert(a + b =~= a);
        assert(batch_vertices(b) =~= Seq::<Vertex<T>>::empty());
        assert(batch_vertices(a) + batch_vertices(b) =~= batch_vertices(a));
    } else {
        assert((a + b).drop_last() =~= a + b.drop_last());
        assert((a + b).last() == b.last());
        law_batch_concat(a, b.drop_last());
        assert(batch_vertices(a + b) =~= batch_vertices(a) + batch_vertices(b));
    }
}

/// Adding a shape to a batch appends that shape's vertices, and only those.
pub proof fn law_batch_push<T>(shapes: Seq<Shape<T>>, shape: Shape<T>)
    ensures
        batch_vertices(shapes.push(shape)) == batch_vertices(shapes) + shape.vertices(),
{
    assert(shapes.push(shape).drop_last() =~= shapes);
    assert(shapes.push(shape).last() == shape);
}

/// Three shapes batched in order give the first one's vertices, then the
/// second's, then the third's.
pub proof fn law_batch_of_three<T>(a: Shape<T>, b: Shape<T>, c: Shape<T>)
    ensures
        batch_vertices(seq![a, b, c]) == a.vertices() + b.vertices() + c.vertices(),
{
    let e = Seq::<Shape<T>>::empty();
    let s1 = seq![a];
    let s2 = seq![a, b];
    let s3 = seq![a, b, c];
    assert(s1.drop_last() =~= e);
    assert(s2.drop_last() =~= s1);
    assert(s3.drop_last() =~= s2);
    assert(s1.last() == a);
    assert(s2.last() == b);
    assert(s3.last() == c);
    assert(batch_vertices(e) =~= Seq::<Vertex<T>>::empty());
    assert(batch_vertices(s1) == batch_vertices(e) + a.vertices());
    assert(batch_vertices(s1) =~= a.vertices());
    assert(batch_vertices(s2) == batch_vertices(s1) + b.vertices());
    assert(batch_vertices(s3) == batch_vertices(s2) + c.vertices());
}

/// An ordered batch of shapes, tessellated together into one vertex list.
pub struct ShapeView<T> {
    views: Vec<Shape<T>>,
}

impl<T> View for ShapeView<T> {
    type V = Seq<Shape<T>>;

    closed spec fn view(&self) -> Seq<Shape<T>> {
        self.views@
    }
}

impl<T: Copy> ShapeView<T> {
    /// Every shape in the batch is well formed.
    pub open spec fn wf(&self) -> bool {
        forall|i: int| 0 <= i < self@.len() ==> (#[trigger] self@[i]).wf()
    }

    pub fn new() -> (r: ShapeView<T>)
        ensures
            r@ == Seq::<Shape<T>>::empty(),
            r.wf(),
    {
        ShapeView { views: Vec::new() }
    }

    /// Appends a shape after those already in the batch.
    pub fn add(&mut self, shape: Shape<T>)
        requires
            old(self).wf(),
            shape.wf(),
        ensures
            final(self)@ == old(self)@.push(shape),
            final(self).wf(),
    {
        self.views.push(shape);
        proof {
            assert forall|i: int| 0 <= i < self@.len() implies (#[trigger] self@[i]).wf() by {
                if i < old(self)@.len() {
                    assert(self@[i] == old(self)@[i]);
                }
            }
        }
    }

    /// Tessellates every shape in the order of insertion and concatenates the
    /// results. Fails, with no vertices, when any shape asks for a gradient.
    pub fn finish(self) -> (r: Result<Vec<Vertex<T>>, TessError>)
        requires
            self.wf(),
        ensures
            r is Ok <==> all_supported(self@),
            r matches Ok(v) ==> v@ == batch_vertices(self@),
            r matches Err(e) ==> e == TessError::GradientFill,
    {
        let mut buf: Vec<Vertex<T>> = Vec::new();
        let mut i: usize = 0;
        while i < self.views.len()
            invariant
                self.wf(),
                i <= self@.len(),
                all_supported(self@.take(i as int)),
                buf@ == batch_vertices(self@.take(i as int)),
            decreases self@.len() - i,
        {
            let shape = &self.views[i];
            assert(self@[i as int].wf());
            match shape.triangulate() {
                Ok(mut verts) => {
                    proof {
                        let t = self@.take(i as int + 1);
                        assert(t.drop_last() =~= self@.take(i as int));
                        assert(t.last() == self@[i as int]);
                    }
                    buf.append(&mut verts);
                    proof {
                        assert(all_supported(self@.take(i as int + 1))) by {
                            assert forall|k: int| 0 <= k < i + 1 implies (#[trigger] self@.take(
                                i as int + 1,
                            )[k]).supported() by {
                                if k < i {
                                    assert(self@.take(i as int)[k] == self@.take(i as int + 1)[k]);
                                }
                            }
                        }
                    }
                },
                Err(e) => {
                    assert(!self@[i as int].supported());
                    return Err(e);
                },
            }
            i = i + 1;
        }
        assert(self@.take(i as int) =~= self@);
        Ok(buf)
    }
}

} // verus!
