use core::marker::PhantomData;
use vstd::prelude::*;

use crate::scalar::RealNumber;
use crate::strategy::{Area2D, DefaultSubprograms, Squarea};

verus! {

/// A polygon of `N` vertices stored as two parallel coordinate arrays, with no
/// heap allocation. Vertex `i` is `(vertices_x[i], vertices_y[i])`. The area
/// algorithm is the strategy `A`, which the type carries and no value holds.
pub struct Polygon2D<T, const N: usize, A = DefaultSubprograms> {
    pub vertices_x: [T; N],
    pub vertices_y: [T; N],
    pub strategy: PhantomData<A>,
}

/// A quadrilateral, by default measured with the unrolled four-vertex formula.
pub type Square<T, A = Squarea> = Polygon2D<T, 4, A>;

impl<T, const N: usize, A> Polygon2D<T, N, A> {
    /// The polygon with the given coordinates. Nothing is checked: any
    /// coordinates, simple or not, are accepted.
    pub fn new(vertices_x: [T; N], vertices_y: [T; N]) -> (r: Self)
        ensures
            r.vertices_x == vertices_x,
            r.vertices_y == vertices_y,
    {
        Polygon2D { vertices_x, vertices_y, strategy: PhantomData }
    }
}

impl<T: RealNumber, const N: usize, A: Area2D<T, N>> Polygon2D<T, N, A> {
    /// The area as the strategy `A` computes it.
    pub fn area(&self) -> (r: T)
        ensures
            r == A::spec_area(self.vertices_x@, self.vertices_y@),
    {
        A::area(self.vertices_x, self.vertices_y)
    }
}

} // verus!
