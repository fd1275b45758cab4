use crate::scalar::Float;
use crate::vector::{cross_of, difference, dot_of, negated, Vector};
use vstd::prelude::*;

verus! {

/// The triple `(z, z, z)` where `z` is the scalar zero.
pub open spec fn zero_triple<T: Float>() -> Seq<T> {
    seq![T::spec_zero(), T::spec_zero(), T::spec_zero()]
}

/// A vector built from `(a, b, c)` reads back `a`, `b`, `c` in slot order, and
/// is the only vector with those components; `x/r`, `y/g` and `z/b` all read
/// the slot given here.
pub proof fn lemma_construction_round_trip<T: Float>(v: Vector<T>, a: T, b: T, c: T)
    requires
        v@ == seq![a, b, c],
    ensures
        v@[0] == a,
        v@[1] == b,
        v@[2] == c,
        forall|w: Vector<T>| (#[trigger] w@) == seq![a, b, c] ==> w == v,
{
    assert forall|w: Vector<T>| (#[trigger] w@) == seq![a, b, c] implies w == v by {
        Vector::lemma_view_eq(w, v);
    }
}

/// `u - u` is the zero vector exactly when every component's difference with
/// itself is the scalar zero (for floating point: every component is finite).
pub proof fn lemma_sub_self_is_zero<T: Float>(u: Vector<T>)
    ensures
        difference(u@, u@) == zero_triple::<T>() <==> (forall|i: int|
            0 <= i < 3 ==> #[trigger] u@[i].spec_sub(u@[i]) == T::spec_zero()),
{
    if forall|i: int| 0 <= i < 3 ==> #[trigger] u@[i].spec_sub(u@[i]) == T::spec_zero() {
        assert(u@[0].spec_sub(u@[0]) == T::spec_zero());
        assert(u@[1].spec_sub(u@[1]) == T::spec_zero());
        assert(u@[2].spec_sub(u@[2]) == T::spec_zero());
        assert(difference(u@, u@) =~= zero_triple::<T>());
    }
    if difference(u@, u@) == zero_triple::<T>() {
        assert forall|i: int| 0 <= i < 3 implies #[trigger] u@[i].spec_sub(u@[i])
            == T::spec_zero() by {
            assert(difference(u@, u@)[i] == zero_triple::<T>()[i]);
        }
    }
}

/// Where the scalar's multiplication commutes, subtraction negates when its
/// operands swap, and negation is an involution: `u × v == -(v × u)`.
pub proof fn lemma_cross_anticommutative<T: Float>(u: Vector<T>, v: Vector<T>)
    requires
        forall|a: T, b: T| #[trigger] a.spec_mul(b) == b.spec_mul(a),
        forall|a: T, b: T| #[trigger] a.spec_sub(b).spec_neg() == b.spec_sub(a),
        forall|a: T| #[trigger] a.spec_neg().spec_neg() == a,
    ensures
        cross_of(u@, v@) == negated(cross_of(v@, u@)),
{
    let (p, q) = (u@, v@);
    assert(p[1].spec_mul(q[2]) == q[2].spec_mul(p[1]));
    assert(p[2].spec_mul(q[1]) == q[1].spec_mul(p[2]));
    assert(p[0].spec_mul(q[2]) == q[2].spec_mul(p[0]));
    assert(p[2].spec_mul(q[0]) == q[0].spec_mul(p[2]));
    assert(p[0].spec_mul(q[1]) == q[1].spec_mul(p[0]));
    assert(p[1].spec_mul(q[0]) == q[0].spec_mul(p[1]));
    assert(q[1].spec_mul(p[2]).spec_sub(q[2].spec_mul(p[1])).spec_neg() == q[2].spec_mul(
        p[1],
    ).spec_sub(q[1].spec_mul(p[2])));
    assert(q[0].spec_mul(p[1]).spec_sub(q[1].spec_mul(p[0])).spec_neg() == q[1].spec_mul(
        p[0],
    ).spec_sub(q[0].spec_mul(p[1])));
    assert(q[0].spec_mul(p[2]).spec_sub(q[2].spec_mul(p[0])).spec_neg().spec_neg() == q[0].spec_mul(
        p[2],
    ).spec_sub(q[2].spec_mul(p[0])));
    assert(p[0].spec_mul(q[2]).spec_sub(p[2].spec_mul(q[0])).spec_neg() == p[2].spec_mul(
        q[0],
    ).spec_sub(p[0].spec_mul(q[2])));
    assert(cross_of(p, q) =~= negated(cross_of(q, p)));
}

/// Where the scalar's multiplication commutes, a value minus itself is zero and
/// zero is its own negation: `u × u` is the zero vector.
pub proof fn lemma_cross_self_is_zero<T: Float>(u: Vector<T>)
    requires
        forall|a: T, b: T| #[trigger] a.spec_mul(b) == b.spec_mul(a),
        forall|a: T| #[trigger] a.spec_sub(a) == T::spec_zero(),
        T::spec_zero().spec_neg() == T::spec_zero(),
    ensures
        cross_of(u@, u@) == zero_triple::<T>(),
{
    let p = u@;
    assert(p[1].spec_mul(p[2]) == p[2].spec_mul(p[1]));
    assert(p[0].spec_mul(p[2]) == p[2].spec_mul(p[0]));
    assert(p[0].spec_mul(p[1]) == p[1].spec_mul(p[0]));
    assert(p[1].spec_mul(p[2]).spec_sub(p[1].spec_mul(p[2])) == T::spec_zero());
    assert(p[0].spec_mul(p[2]).spec_sub(p[0].spec_mul(p[2])) == T::spec_zero());
    assert(p[0].spec_mul(p[1]).spec_sub(p[0].spec_mul(p[1])) == T::spec_zero());
    assert(cross_of(p, p) =~= zero_triple::<T>());
}

/// Where the scalar's multiplication commutes, `u · v == v · u`.
pub proof fn lemma_dot_commutative<T: Float>(u: Vector<T>, v: Vector<T>)
    requires
        forall|a: T, b: T| #[trigger] a.spec_mul(b) == b.spec_mul(a),
    ensures
        dot_of(u@, v@) == dot_of(v@, u@),
{
    assert(u@[0].spec_mul(v@[0]) == v@[0].spec_mul(u@[0]));
    assert(u@[1].spec_mul(v@[1]) == v@[1].spec_mul(u@[1]));
    assert(u@[2].spec_mul(v@[2]) == v@[2].spec_mul(u@[2]));
}

} // verus!
