use crate::scalar::Float;
use vstd::prelude::*;

verus! {

/// An ordered triple of scalars, addressed as `x/y/z` or `r/g/b`.
#[derive(Clone, PartialEq, Debug)]
pub struct Vector<T: Float> {
    position: [T; 3],
}

impl<T: Float> View for Vector<T> {
    type V = Seq<T>;

    closed spec fn view(&self) -> Seq<T> {
        self.position@
    }
}

// ---------------------------------------------------------------------------
// The meaning of each operation, over triples of scalars.
// ---------------------------------------------------------------------------

/// The component-wise sum `u + v`.
pub open spec fn sum<T: Float>(u: Seq<T>, v: Seq<T>) -> Seq<T> {
    seq![u[0].spec_add(v[0]), u[1].spec_add(v[1]), u[2].spec_add(v[2])]
}

/// The component-wise difference `u - v`.
pub open spec fn difference<T: Float>(u: Seq<T>, v: Seq<T>) -> Seq<T> {
    seq![u[0].spec_sub(v[0]), u[1].spec_sub(v[1]), u[2].spec_sub(v[2])]
}

/// The component-wise (Hadamard) product `u * v`.
pub open spec fn product<T: Float>(u: Seq<T>, v: Seq<T>) -> Seq<T> {
    seq![u[0].spec_mul(v[0]), u[1].spec_mul(v[1]), u[2].spec_mul(v[2])]
}

/// The component-wise quotient `u / v`.
pub open spec fn quotient<T: Float>(u: Seq<T>, v: Seq<T>) -> Seq<T> {
    seq![u[0].spec_div(v[0]), u[1].spec_div(v[1]), u[2].spec_div(v[2])]
}

/// Every component of `u` multiplied by the scalar `s`.
pub open spec fn scaled<T: Float>(u: Seq<T>, s: T) -> Seq<T> {
    seq![u[0].spec_mul(s), u[1].spec_mul(s), u[2].spec_mul(s)]
}

/// Every component of `u` divided by the scalar `s`.
pub open spec fn divided<T: Float>(u: Seq<T>, s: T) -> Seq<T> {
    seq![u[0].spec_div(s), u[1].spec_div(s), u[2].spec_div(s)]
}

/// Every component of `u` negated.
pub open spec fn negated<T: Float>(u: Seq<T>) -> Seq<T> {
    seq![u[0].spec_neg(), u[1].spec_neg(), u[2].spec_neg()]
}

/// The dot product `u0*v0 + u1*v1 + u2*v2`, summed left to right.
pub open spec fn dot_of<T: Float>(u: Seq<T>, v: Seq<T>) -> T {
    u[0].spec_mul(v[0]).spec_add(u[1].spec_mul(v[1])).spec_add(u[2].spec_mul(v[2]))
}

/// The cross product: component `i` is `u[i+1]*v[i+2] - u[i+2]*v[i+1]` (indices mod 3).
pub open spec fn cross_of<T: Float>(u: Seq<T>, v: Seq<T>) -> Seq<T> {
    seq![
        u[1].spec_mul(v[2]).spec_sub(u[2].spec_mul(v[1])),
        u[0].spec_mul(v[2]).spec_sub(u[2].spec_mul(v[0])).spec_neg(),
        u[0].spec_mul(v[1]).spec_sub(u[1].spec_mul(v[0])),
    ]
}

/// The sum of the squared components, `x² + y² + z²`.
pub open spec fn length_squared_of<T: Float>(u: Seq<T>) -> T {
    u[0].spec_powi(2).spec_add(u[1].spec_powi(2)).spec_add(u[2].spec_powi(2))
}

/// The Euclidean length, the square root of `length_squared_of(u)`.
pub open spec fn length_of<T: Float>(u: Seq<T>) -> T {
    length_squared_of(u).spec_sqrt()
}

/// `u` scaled by the reciprocal of its length.
pub open spec fn unit_of<T: Float>(u: Seq<T>) -> Seq<T> {
    scaled(u, length_of(u).spec_recip())
}

/// `u` mirrored about `n`: `u - n * ((u·n) * 2)`.
pub open spec fn reflect_of<T: Float>(u: Seq<T>, n: Seq<T>) -> Seq<T> {
    difference(u, scaled(n, dot_of(u, n).spec_mul(T::spec_from_i32(2))))
}

/// The discriminant of Snell's law, `1 - ratio² * (1 - (u·n)²)`.
pub open spec fn discriminant_of<T: Float>(u: Seq<T>, n: Seq<T>, ratio: T) -> T {
    T::spec_one().spec_sub(
        ratio.spec_powi(2).spec_mul(T::spec_one().spec_sub(dot_of(u, n).spec_powi(2))),
    )
}

/// The refracted direction: `(unit(u) - u * (u·n)) * ratio - n * sqrt(discriminant)`,
/// or nothing where the discriminant is not positive (total internal reflection).
pub open spec fn refract_of<T: Float>(u: Seq<T>, n: Seq<T>, ratio: T) -> Option<Seq<T>> {
    let disc = discriminant_of(u, n, ratio);
    if disc.spec_le(T::spec_zero()) {
        None
    } else {
        Some(
            difference(
                scaled(difference(unit_of(u), scaled(u, dot_of(u, n))), ratio),
                scaled(n, disc.spec_sqrt()),
            ),
        )
    }
}

impl<T: Float> Vector<T> {
    /// The vector `(a, b, c)`.
    pub fn new(a: T, b: T, c: T) -> (v: Vector<T>)
        ensures
            v@ == seq![a, b, c],
    {
        let v = Vector { position: [a, b, c] };
        assert(v@ =~= seq![a, b, c]);
        v
    }

    /// The first component, read as a color's red channel.
    pub fn r(&self) -> (c: T)
        ensures
            c == self@[0],
    {
        self.position[0]
    }

    /// The second component, read as a color's green channel.
    pub fn g(&self) -> (c: T)
        ensures
            c == self@[1],
    {
        self.position[1]
    }

    /// The third component, read as a color's blue channel.
    pub fn b(&self) -> (c: T)
        ensures
            c == self@[2],
    {
        self.position[2]
    }

    /// The first spatial component.
    pub fn x(&self) -> (c: T)
        ensures
            c == self@[0],
    {
        self.position[0]
    }

    /// The second spatial component.
    pub fn y(&self) -> (c: T)
        ensures
            c == self@[1],
    {
        self.position[1]
    }

    /// The third spatial component.
    pub fn z(&self) -> (c: T)
        ensures
            c == self@[2],
    {
        self.position[2]
    }

    /// The Euclidean length, the square root of `length_squared`.
    pub fn length(&self) -> (l: T)
        ensures
            l == length_of(self@),
    {
        self.length_squared().sqrt()
    }

    /// The sum of the squared components.
    pub fn length_squared(&self) -> (l: T)
        ensures
            l == length_squared_of(self@),
    {
        self.position[0].powi(2).add(self.position[1].powi(2)).add(self.position[2].powi(2))
    }

    /// Each component drawn independently from the scalar's default
    /// distribution, so each lies in `[0, 1)`.
    pub fn random() -> (v: Vector<T>)
        ensures
            forall|i: int|
                0 <= i < 3 ==> T::spec_zero().spec_le(#[trigger] v@[i]) && v@[i].spec_lt(
                    T::spec_one(),
                ),
    {
        Vector::new(T::random(), T::random(), T::random())
    }

    /// Each component drawn independently and uniformly from `[low, high)`.
    pub fn random_range(low: T, high: T) -> (v: Vector<T>)
        requires
            low.spec_lt(high),
        ensures
            forall|i: int| 0 <= i < 3 ==> low.spec_le(#[trigger] v@[i]) && v@[i].spec_lt(high),
    {
        Vector::new(
            T::random_range(low, high),
            T::random_range(low, high),
            T::random_range(low, high),
        )
    }

    /// The vector whose components are the first three of `s`, in order.
    pub closed spec fn from_seq(s: Seq<T>) -> Vector<T> {
        Vector { position: [s[0], s[1], s[2]] }
    }

    /// Two vectors with the same components are the same vector.
    pub proof fn lemma_view_eq(v: Vector<T>, w: Vector<T>)
        requires
            v@ == w@,
        ensures
            v == w,
    {
        assert(v.position@[0] == w.position@[0]);
        assert(v.position@[1] == w.position@[1]);
        assert(v.position@[2] == w.position@[2]);
        assert(v.position =~= w.position);
    }

    /// A vector is the one built from its own components.
    pub proof fn lemma_from_own_view(v: Vector<T>)
        ensures
            v@.len() == 3,
            v == Self::from_seq(v@),
    {
        lemma_view_of_from_seq(v@);
        Self::lemma_view_eq(v, Self::from_seq(v@));
    }
}

/// The geometric operations of a vector.
pub trait VectorOperations<T: Float>: View<V = Seq<T>> {
    /// The cross product `self × rhs`.
    fn cross(&self, rhs: &Vector<T>) -> (r: Vector<T>)
        ensures
            r@ == cross_of(self@, rhs@),
    ;

    /// The dot product `self · rhs`.
    fn dot(&self, rhs: &Vector<T>) -> (r: T)
        ensures
            r == dot_of(self@, rhs@),
    ;

    /// Replaces `self` with its unit vector and hands `self` back for chaining.
    fn make_unit(&mut self) -> (r: &mut Vector<T>)
        ensures
            r@ == unit_of(old(self)@),
            final(self)@ == final(r)@,
    ;

    /// `self` scaled by the reciprocal of its length.
    fn unit_vector(&self) -> (r: Vector<T>)
        ensures
            r@ == unit_of(self@),
    ;

    /// `self` mirrored about `rhs`, which is meant to be a unit normal.
    fn reflect(&self, rhs: &Vector<T>) -> (r: Vector<T>)
        ensures
            r@ == reflect_of(self@, rhs@),
    ;

    /// `self` refracted through a surface with normal `rhs`; nothing where the
    /// discriminant of Snell's law is not positive (total internal reflection).
    fn refract(&self, rhs: &Vector<T>, refraction_index: T) -> (r: Option<Vector<T>>)
        ensures
            r is None <==> discriminant_of(self@, rhs@, refraction_index).spec_le(T::spec_zero()),
            r matches Some(v) ==> Some(v@) == refract_of(self@, rhs@, refraction_index),
    ;
}

impl<T: Float> VectorOperations<T> for Vector<T> {
    fn cross(&self, rhs: &Vector<T>) -> (r: Vector<T>) {
        Vector::new(
            self.position[1].mul(rhs.position[2]).sub(self.position[2].mul(rhs.position[1])),
            self.position[0].mul(rhs.position[2]).sub(self.position[2].mul(rhs.position[0])).neg(),
            self.position[0].mul(rhs.position[1]).sub(self.position[1].mul(rhs.position[0])),
        )
    }

    fn dot(&self, rhs: &Vector<T>) -> (r: T) {
        self.position[0].mul(rhs.position[0]).add(self.position[1].mul(rhs.position[1])).add(
            self.position[2].mul(rhs.position[2]),
        )
    }

    fn make_unit(&mut self) -> (r: &mut Vector<T>) {
        *self = self.unit_vector();
        self
    }

    fn unit_vector(&self) -> (r: Vector<T>) {
        let k = self.length().recip();
        Vector::new(self.position[0].mul(k), self.position[1].mul(k), self.position[2].mul(k))
    }

    fn reflect(&self, rhs: &Vector<T>) -> (r: Vector<T>) {
        self - &(rhs * (self.dot(rhs).mul(T::from_i32(2))))
    }

    fn refract(&self, rhs: &Vector<T>, refraction_index: T) -> (r: Option<Vector<T>>) {
        let unit_vector = self.unit_vector();
        let determinant = self.dot(rhs);
        let discriminant = T::one().sub(
            refraction_index.powi(2).mul(T::one().sub(determinant.powi(2))),
        );
        if discriminant.le(&T::zero()) {
            return Option::None;
        }
        Some((unit_vector - self * determinant) * refraction_index - (rhs * discriminant.sqrt()))
    }
}

/// The components of the vector built from a triple are that triple.
pub broadcast proof fn lemma_view_of_from_seq<T: Float>(s: Seq<T>)
    requires
        s.len() == 3,
    ensures
        #[trigger] Vector::from_seq(s)@ == s,
{
    assert(Vector::from_seq(s)@ =~= s);
}

} // verus!
