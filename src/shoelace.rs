use vstd::prelude::*;

use crate::scalar::RealNumber;

verus! {

/// The index of the vertex after vertex `i` on a closed polygon of `n`
/// vertices: the last vertex is followed by the first.
pub open spec fn next_index(i: int, n: int) -> int {
    if i + 1 == n {
        0
    } else {
        i + 1
    }
}

/// The cross product `x_i * y_j - x_j * y_i` of the edge from vertex `i` to
/// the vertex after it.
pub open spec fn edge_term<T: RealNumber>(xs: Seq<T>, ys: Seq<T>, i: int) -> T {
    let j = next_index(i, xs.len() as int);
    xs[i].spec_mul(ys[j]).spec_sub(xs[j].spec_mul(ys[i]))
}

/// The cross products of all edges, in vertex order.
pub open spec fn edge_terms<T: RealNumber>(xs: Seq<T>, ys: Seq<T>) -> Seq<T> {
    Seq::new(xs.len(), |i: int| edge_term(xs, ys, i))
}

/// The sum of `s`, added from the first element to the last, starting at zero.
pub open spec fn sum_of<T: RealNumber>(s: Seq<T>) -> T
    decreases s.len(),
{
    if s.len() == 0 {
        T::spec_zero()
    } else {
        sum_of(s.drop_last()).spec_add(s.last())
    }
}

/// The negation `0 - t` of every element of `s`.
pub open spec fn negated<T: RealNumber>(s: Seq<T>) -> Seq<T> {
    s.map_values(|t: T| T::spec_zero().spec_sub(t))
}

/// `s` cyclically shifted to start at index `k`.
pub open spec fn rotate<A>(s: Seq<A>, k: int) -> Seq<A> {
    s.subrange(k, s.len() as int) + s.subrange(0, k)
}

/// The area of the polygon whose vertex `i` is `(xs[i], ys[i])`, by the
/// shoelace formula: zero for fewer than three vertices, and otherwise half
/// the absolute value of the sum of the edge cross products.
pub open spec fn shoelace_area<T: RealNumber>(xs: Seq<T>, ys: Seq<T>) -> T {
    if xs.len() < 3 {
        T::spec_zero()
    } else {
        sum_of(edge_terms(xs, ys)).spec_abs().spec_div(T::spec_two())
    }
}

/// Adding the term `p - q` to a running sum as `(acc + p) - q` extends the sum
/// by one element.
pub proof fn lemma_sum_step<T: RealNumber>(s: Seq<T>, k: int, p: T, q: T)
    requires
        0 <= k < s.len(),
        s[k] == p.spec_sub(q),
    ensures
        sum_of(s.take(k)).spec_add(p).spec_sub(q) == sum_of(s.take(k + 1)),
{
    assert(s.take(k + 1).drop_last() =~= s.take(k));
    T::lemma_add_sub_associative(sum_of(s.take(k)), p, q);
}

/// The sum of a concatenation is the sum of the sums.
pub proof fn lemma_sum_concat<T: RealNumber>(a: Seq<T>, b: Seq<T>)
    ensures
        sum_of(a + b) == sum_of(a).spec_add(sum_of(b)),
    decreases b.len(),
{
    if b.len() == 0 {
        assert(a + b =~= a);
        T::lemma_add_zero(sum_of(a));
    } else {
        assert((a + b).drop_last() =~= a + b.drop_last());
        lemma_sum_concat(a, b.drop_last());
        T::lemma_add_associative(sum_of(a), sum_of(b.drop_last()), b.last());
    }
}

/// A cyclic shift does not change the sum.
pub proof fn lemma_sum_rotate<T: RealNumber>(s: Seq<T>, k: int)
    requires
        0 <= k <= s.len(),
    ensures
        sum_of(rotate(s, k)) == sum_of(s),
{
    let a = s.subrange(0, k);
    let b = s.subrange(k, s.len() as int);
    assert(a + b =~= s);
    lemma_sum_concat(b, a);
    lemma_sum_concat(a, b);
    T::lemma_add_commutative(sum_of(a), sum_of(b));
}

/// Reversing the order does not change the sum.
pub proof fn lemma_sum_reverse<T: RealNumber>(s: Seq<T>)
    ensures
        sum_of(s.reverse()) == sum_of(s),
    decreases s.len(),
{
    if s.len() > 0 {
        let init = s.drop_last();
        let one = seq![s.last()];
        assert(s.reverse() =~= one + init.reverse());
        lemma_sum_reverse(init);
        lemma_sum_concat(one, init.reverse());
        assert(one.drop_last() =~= Seq::<T>::empty());
        assert(sum_of(one.drop_last()) == T::spec_zero());
        assert(one.last() == s.last());
        T::lemma_add_commutative(T::spec_zero(), s.last());
        T::lemma_add_zero(s.last());
        assert(sum_of(one) == s.last());
        T::lemma_add_commutative(s.last(), sum_of(init));
        assert(sum_of(s) == sum_of(init).spec_add(s.last()));
    } else {
        assert(s.reverse() =~= s);
    }
}

/// The sum of the negations is the negation of the sum.
pub proof fn lemma_sum_negated<T: RealNumber>(s: Seq<T>)
    ensures
        sum_of(negated(s)) == T::spec_zero().spec_sub(sum_of(s)),
    decreases s.len(),
{
    if s.len() == 0 {
        T::lemma_sub_self(T::spec_zero());
    } else {
        assert(negated(s).drop_last() =~= negated(s.drop_last()));
        lemma_sum_negated(s.drop_last());
        T::lemma_neg_add(sum_of(s.drop_last()), s.last());
    }
}

/// The area does not depend on which vertex is listed first: cyclically
/// shifting the vertex list leaves it unchanged.
pub proof fn lemma_area_rotation_invariant<T: RealNumber>(xs: Seq<T>, ys: Seq<T>, k: int)
    requires
        xs.len() == ys.len(),
        0 <= k <= xs.len(),
    ensures
        shoelace_area(rotate(xs, k), rotate(ys, k)) == shoelace_area(xs, ys),
{
    let n = xs.len() as int;
    let rx = rotate(xs, k);
    let ry = rotate(ys, k);
    if n >= 3 {
        let terms = edge_terms(xs, ys);
        assert(edge_terms(rx, ry) =~= rotate(terms, k));
        lemma_sum_rotate(terms, k);
    }
}

/// The area does not depend on the winding direction: listing the vertices in
/// reverse order leaves it unchanged.
pub proof fn lemma_area_reversal_invariant<T: RealNumber>(xs: Seq<T>, ys: Seq<T>)
    requires
        xs.len() == ys.len(),
    ensures
        shoelace_area(xs.reverse(), ys.reverse()) == shoelace_area(xs, ys),
{
    let n = xs.len() as int;
    let rx = xs.reverse();
    let ry = ys.reverse();
    if n >= 3 {
        let terms = edge_terms(xs, ys);
        let shifted = rotate(terms, n - 1);
        assert forall|i: int| 0 <= i < n implies #[trigger] edge_term(rx, ry, i)
            == T::spec_zero().spec_sub(shifted.reverse()[i]) by {
            let a = n - 1 - i;
            let b = if i == n - 1 {
                n - 1
            } else {
                n - 2 - i
            };
            T::lemma_sub_swap(xs[b].spec_mul(ys[a]), xs[a].spec_mul(ys[b]));
        }
        assert(edge_terms(rx, ry) =~= negated(shifted.reverse()));
        lemma_sum_negated(shifted.reverse());
        lemma_sum_reverse(shifted);
        lemma_sum_rotate(terms, n - 1);
        T::lemma_abs_neg(sum_of(terms));
    } else if n == 0 {
        assert(rx.len() == 0);
    }
}

/// The shoelace area of the polygon with vertices `(x[i], y[i])`.
pub fn shoelace<T: RealNumber, const N: usize>(x: &[T; N], y: &[T; N]) -> (r: T)
    ensures
        r == shoelace_area(x@, y@),
        N < 3 ==> r == T::spec_zero(),
{
    if N < 3 {
        return T::zero();
    }
    let ghost terms = edge_terms(x@, y@);
    let mut acc = T::zero();
    let mut i: usize = 0;
    while i < N
        invariant
            3 <= N,
            x@.len() == N,
            y@.len() == N,
            terms == edge_terms(x@, y@),
            0 <= i <= N,
            acc == sum_of(terms.take(i as int)),
        decreases N - i,
    {
        let j: usize = if i + 1 == N {
            0
        } else {
            i + 1
        };
        let p = x[i].mul(y[j]);
        let q = x[j].mul(y[i]);
        proof {
            lemma_sum_step(terms, i as int, p, q);
        }
        acc = acc.add(p).sub(q);
        i = i + 1;
    }
    assert(terms.take(N as int) =~= terms);
    proof {
        T::lemma_two_nonzero();
    }
    acc.abs().div(T::two())
}

} // verus!
