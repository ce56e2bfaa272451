use core::marker::PhantomData;
use vstd::prelude::*;

use crate::scalar::RealNumber;
use crate::shoelace::{edge_terms, shoelace, shoelace_area, sum_of};

verus! {

/// An area algorithm for polygons of `N` vertices, given as two parallel
/// coordinate arrays: vertex `i` is `(x[i], y[i])`.
///
/// `spec_area` names what the algorithm computes. A geometric strategy has
/// `spec_area` equal to `shoelace_area`; a stand-in may compute something else
/// and says so in its own documentation.
pub trait Area2D<T: RealNumber, const N: usize> {
    spec fn spec_area(x: Seq<T>, y: Seq<T>) -> T;

    fn area(x: [T; N], y: [T; N]) -> (r: T)
        ensures
            r == Self::spec_area(x@, y@),
    ;
}

/// The general strategy: the shoelace formula for any number of vertices.
pub struct DefaultSubprograms;

impl<T: RealNumber, const N: usize> Area2D<T, N> for DefaultSubprograms {
    open spec fn spec_area(x: Seq<T>, y: Seq<T>) -> T {
        shoelace_area(x, y)
    }

    fn area(x: [T; N], y: [T; N]) -> (r: T) {
        shoelace(&x, &y)
    }
}

/// A strategy for quadrilaterals that writes out the four edge cross products.
/// It computes exactly the shoelace area.
pub struct Squarea;

impl<T: RealNumber> Area2D<T, 4> for Squarea {
    open spec fn spec_area(x: Seq<T>, y: Seq<T>) -> T {
        shoelace_area(x, y)
    }

    fn area(xs: [T; 4], ys: [T; 4]) -> (r: T) {
        let t0 = xs[0].mul(ys[1]).sub(xs[1].mul(ys[0]));
        let t1 = xs[1].mul(ys[2]).sub(xs[2].mul(ys[1]));
        let t2 = xs[2].mul(ys[3]).sub(xs[3].mul(ys[2]));
        let t3 = xs[3].mul(ys[0]).sub(xs[0].mul(ys[3]));
        proof {
            let terms = edge_terms(xs@, ys@);
            assert(terms.take(1).drop_last() =~= Seq::<T>::empty());
            assert(terms.take(2).drop_last() =~= terms.take(1));
            assert(terms.take(3).drop_last() =~= terms.take(2));
            assert(terms.take(4).drop_last() =~= terms.take(3));
            assert(terms.take(4) =~= terms);
            assert(sum_of(Seq::<T>::empty()) == T::spec_zero());
            assert(terms[0] == t0 && terms[1] == t1 && terms[2] == t2 && terms[3] == t3);
            T::lemma_add_commutative(T::spec_zero(), t0);
            T::lemma_add_zero(t0);
            assert(sum_of(terms.take(1)) == t0);
            assert(sum_of(terms.take(2)) == t0.spec_add(t1));
            assert(sum_of(terms.take(3)) == t0.spec_add(t1).spec_add(t2));
            assert(sum_of(terms) == t0.spec_add(t1).spec_add(t2).spec_add(t3));
            T::lemma_two_nonzero();
        }
        t0.add(t1).add(t2).add(t3).abs().div(T::two())
    }
}

/// A stand-in strategy that reports one for every polygon. It does not compute
/// an area; it serves to show that the container runs whatever strategy it is
/// given.
pub struct UnitShape<T>(pub PhantomData<T>);

impl<T: RealNumber, const N: usize> Area2D<T, N> for UnitShape<T> {
    open spec fn spec_area(x: Seq<T>, y: Seq<T>) -> T {
        T::spec_one()
    }

    fn area(_xs: [T; N], _ys: [T; N]) -> (r: T) {
        T::one()
    }
}

/// The quadrilateral strategy computes what the general strategy computes.
pub proof fn lemma_squarea_matches_default<T: RealNumber>(x: Seq<T>, y: Seq<T>)
    ensures
        <Squarea as Area2D<T, 4>>::spec_area(x, y) == <DefaultSubprograms as Area2D<
            T,
            4,
        >>::spec_area(x, y),
{
}

} // verus!
