use vstd::prelude::*;

use crate::scalar::RealNumber;
use crate::shoelace::{edge_terms, lemma_sum_step, shoelace_area, sum_of};

verus! {

/// Read access to the two coordinates of a point, however it is stored.
pub trait Vertex<T: RealNumber> {
    spec fn spec_x(&self) -> T;

    spec fn spec_y(&self) -> T;

    fn x(&self) -> (r: T)
        ensures
            r == self.spec_x(),
    ;

    fn y(&self) -> (r: T)
        ensures
            r == self.spec_y(),
    ;
}

/// A point stored as `[x, y]`.
impl<T: RealNumber> Vertex<T> for [T; 2] {
    open spec fn spec_x(&self) -> T {
        self@[0]
    }

    open spec fn spec_y(&self) -> T {
        self@[1]
    }

    fn x(&self) -> (r: T) {
        self[0]
    }

    fn y(&self) -> (r: T) {
        self[1]
    }
}

/// A point stored as the pair `(x, y)`.
impl<T: RealNumber> Vertex<T> for (T, T) {
    open spec fn spec_x(&self) -> T {
        self.0
    }

    open spec fn spec_y(&self) -> T {
        self.1
    }

    fn x(&self) -> (r: T) {
        self.0
    }

    fn y(&self) -> (r: T) {
        self.1
    }
}

/// The x coordinates of `vs`, in order.
pub open spec fn xs_of<T: RealNumber, V: Vertex<T>>(vs: Seq<V>) -> Seq<T> {
    vs.map_values(|v: V| v.spec_x())
}

/// The y coordinates of `vs`, in order.
pub open spec fn ys_of<T: RealNumber, V: Vertex<T>>(vs: Seq<V>) -> Seq<T> {
    vs.map_values(|v: V| v.spec_y())
}

/// The shoelace area of the polygon with the vertices `vs`, in order.
pub fn vertex_area<T: RealNumber, V: Vertex<T>>(vs: &[V]) -> (r: T)
    ensures
        r == shoelace_area(xs_of(vs@), ys_of(vs@)),
        vs@.len() < 3 ==> r == T::spec_zero(),
{
    let n = vs.len();
    if n < 3 {
        return T::zero();
    }
    let ghost xs = xs_of(vs@);
    let ghost ys = ys_of(vs@);
    let ghost terms = edge_terms(xs, ys);
    let mut acc = T::zero();
    let mut i: usize = 0;
    while i < n
        invariant
            3 <= n,
            n == vs@.len(),
            xs == xs_of(vs@),
            ys == ys_of(vs@),
            terms == edge_terms(xs, ys),
            0 <= i <= n,
            acc == sum_of(terms.take(i as int)),
        decreases n - i,
    {
        let j: usize = if i + 1 == n {
            0
        } else {
            i + 1
        };
        let p = vs[i].x().mul(vs[j].y());
        let q = vs[j].x().mul(vs[i].y());
        proof {
            lemma_sum_step(terms, i as int, p, q);
        }
        acc = acc.add(p).sub(q);
        i = i + 1;
    }
    assert(terms.take(n as int) =~= terms);
    proof {
        T::lemma_two_nonzero();
    }
    acc.abs().div(T::two())
}

} // verus!
