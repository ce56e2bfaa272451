use vstd::prelude::*;

verus! {

/// A number type the area algorithms can be written against.
///
/// Every operation is total and pure. Besides the executable operations, an
/// implementation proves the algebraic facts the area laws rest on: addition is
/// commutative and associative with `zero` as identity, and subtraction is the
/// inverse of addition. Arithmetic that rounds its sums (floating point) does
/// not have these, so the invariance laws hold only for exact scalars.
pub trait RealNumber: Sized + Copy {
    spec fn spec_zero() -> Self;

    spec fn spec_one() -> Self;

    spec fn spec_two() -> Self;

    spec fn spec_add(self, o: Self) -> Self;

    spec fn spec_sub(self, o: Self) -> Self;

    spec fn spec_mul(self, o: Self) -> Self;

    spec fn spec_div(self, o: Self) -> Self;

    spec fn spec_abs(self) -> Self;

    fn zero() -> (r: Self)
        ensures
            r == Self::spec_zero(),
    ;

    fn one() -> (r: Self)
        ensures
            r == Self::spec_one(),
    ;

    fn two() -> (r: Self)
        ensures
            r == Self::spec_two(),
    ;

    fn add(self, o: Self) -> (r: Self)
        ensures
            r == self.spec_add(o),
    ;

    fn sub(self, o: Self) -> (r: Self)
        ensures
            r == self.spec_sub(o),
    ;

    fn mul(self, o: Self) -> (r: Self)
        ensures
            r == self.spec_mul(o),
    ;

    fn div(self, o: Self) -> (r: Self)
        requires
            o != Self::spec_zero(),
        ensures
            r == self.spec_div(o),
    ;

    fn abs(self) -> (r: Self)
        ensures
            r == self.spec_abs(),
    ;

    proof fn lemma_two_nonzero()
        ensures
            Self::spec_two() != Self::spec_zero(),
    ;

    proof fn lemma_add_zero(a: Self)
        ensures
            a.spec_add(Self::spec_zero()) == a,
    ;

    proof fn lemma_add_commutative(a: Self, b: Self)
        ensures
            a.spec_add(b) == b.spec_add(a),
    ;

    proof fn lemma_add_associative(a: Self, b: Self, c: Self)
        ensures
            a.spec_add(b).spec_add(c) == a.spec_add(b.spec_add(c)),
    ;

    proof fn lemma_add_sub_associative(a: Self, b: Self, c: Self)
        ensures
            a.spec_add(b).spec_sub(c) == a.spec_add(b.spec_sub(c)),
    ;

    proof fn lemma_sub_self(a: Self)
        ensures
            a.spec_sub(a) == Self::spec_zero(),
    ;

    proof fn lemma_sub_swap(a: Self, b: Self)
        ensures
            b.spec_sub(a) == Self::spec_zero().spec_sub(a.spec_sub(b)),
    ;

    proof fn lemma_neg_add(a: Self, b: Self)
        ensures
            Self::spec_zero().spec_sub(a).spec_add(Self::spec_zero().spec_sub(b))
                == Self::spec_zero().spec_sub(a.spec_add(b)),
    ;

    proof fn lemma_abs_neg(a: Self)
        ensures
            Self::spec_zero().spec_sub(a).spec_abs() == a.spec_abs(),
    ;
}

} // verus!
