use vstd::prelude::*;

use crate::polygon2d::Polygon2D;
use crate::scalar::RealNumber;
use crate::shoelace::shoelace_area;
use crate::strategy::{Area2D, DefaultSubprograms};
use crate::vertex::{vertex_area, xs_of, ys_of, Vertex};

verus! {

/// A polygon that hands out its vertices as one ordered sequence. The area is
/// the shoelace area of that sequence.
pub trait Polygon<T: RealNumber, V: Vertex<T>> {
    spec fn spec_vertices(&self) -> Seq<V>;

    fn vertices(&self) -> (r: &[V])
        ensures
            r@ == self.spec_vertices(),
    ;

    fn area(&self) -> (r: T)
        ensures
            r == shoelace_area(xs_of(self.spec_vertices()), ys_of(self.spec_vertices())),
            self.spec_vertices().len() < 3 ==> r == T::spec_zero(),
    {
        vertex_area(self.vertices())
    }
}

/// A polygon that owns its vertices in a growable, heap-allocated list.
pub struct VertexPolygon<V> {
    pub vertices: Vec<V>,
}

impl<V> VertexPolygon<V> {
    /// The polygon with the given vertices, in order. Nothing is checked.
    pub fn new(vertices: Vec<V>) -> (r: Self)
        ensures
            r.vertices@ == vertices@,
    {
        VertexPolygon { vertices }
    }
}

impl<T: RealNumber, V: Vertex<T>> Polygon<T, V> for VertexPolygon<V> {
    open spec fn spec_vertices(&self) -> Seq<V> {
        self.vertices@
    }

    fn vertices(&self) -> (r: &[V]) {
        self.vertices.as_slice()
    }
}

/// A heap-backed polygon and a fixed-size coordinate-array polygon that list
/// the same vertices in the same order have the same area.
pub proof fn lemma_representations_agree<T: RealNumber, V: Vertex<T>, const N: usize>(
    heap: VertexPolygon<V>,
    fixed: Polygon2D<T, N, DefaultSubprograms>,
)
    requires
        heap.vertices@.len() == N,
        fixed.vertices_x@.len() == N,
        fixed.vertices_y@.len() == N,
        forall|i: int|
            0 <= i < N ==> (#[trigger] heap.vertices@[i]).spec_x() == fixed.vertices_x@[i]
                && heap.vertices@[i].spec_y() == fixed.vertices_y@[i],
    ensures
        shoelace_area(xs_of(heap.spec_vertices()), ys_of(heap.spec_vertices()))
            == <DefaultSubprograms as Area2D<T, N>>::spec_area(
            fixed.vertices_x@,
            fixed.vertices_y@,
        ),
{
    assert(xs_of(heap.vertices@) =~= fixed.vertices_x@);
    assert(ys_of(heap.vertices@) =~= fixed.vertices_y@);
}

} // verus!
